//! Serialization of leaf clauses, rendered as canonical JSON text.  A
//! value holding float leaves is rendered here with serde_json doing the
//! float tokens, since the library keeps floats as bit patterns.

use dsl::json::JsonValue;
use dsl::query::match_all::MatchAll;
use dsl::query::match_none::MatchNone;
use dsl::query::wildcard::Wildcard;
use dsl::query::LeafClause;
use dsl::types::number::Number;
use dsl::boost::Boost;

fn render_number(n: &Number) -> String {
    match n {
        Number::I8(v) => format!("{}", v),
        Number::I16(v) => format!("{}", v),
        Number::I32(v) => format!("{}", v),
        Number::I64(v) => format!("{}", v),
        Number::I128(v) => format!("{}", v),
        Number::U8(v) => format!("{}", v),
        Number::U16(v) => format!("{}", v),
        Number::U32(v) => format!("{}", v),
        Number::U64(v) => format!("{}", v),
        Number::U128(v) => format!("{}", v),
        Number::F32(bits) => serde_json::to_string(&f32::from_bits(*bits)).unwrap(),
        Number::F64(bits) => serde_json::to_string(&f64::from_bits(*bits)).unwrap(),
    }
}

fn render_json(v: &JsonValue) -> String {
    match v {
        JsonValue::Bool(b) => {
            if *b {
                "true".to_owned()
            } else {
                "false".to_owned()
            }
        }
        JsonValue::Num(n) => render_number(n),
        JsonValue::Str(s) => serde_json::to_string(s.as_str()).unwrap(),
        JsonValue::Arr(items) => {
            let mut out = String::from("[");
            for (i, item) in items.iter().enumerate() {
                if i > 0 {
                    out.push(',');
                }
                out.push_str(&render_json(item));
            }
            out.push(']');
            out
        }
        JsonValue::Obj(fields) => {
            let mut out = String::from("{");
            for (i, (k, item)) in fields.iter().enumerate() {
                if i > 0 {
                    out.push(',');
                }
                out.push_str(&serde_json::to_string(k.as_str()).unwrap());
                out.push(':');
                out.push_str(&render_json(item));
            }
            out.push('}');
            out
        }
    }
}

#[test]
fn match_all_test_serialize() {
    let s = LeafClause::MatchAll(MatchAll::new()).to_json().to_text();
    assert_eq!(s, r#"{"match_all":{}}"#);
}

#[test]
fn match_none_test_serialize() {
    let s = LeafClause::MatchNone(MatchNone::new()).to_json().to_text();
    assert_eq!(s, r#"{"match_none":{}}"#);
}

#[test]
fn test_serialize() {
    let w = Wildcard::new("user.id", "ki*y", "wildcard");

    let w0 = render_json(&w.to_json());

    assert_eq!(w0, r#"{"user.id":{"value":"ki*y","wildcard":"wildcard"}}"#);

    let mut w1 = w.clone();
    w1.rewrite("rewrite");
    let w1 = render_json(&w1.to_json());

    assert_eq!(
        w1,
        r#"{"user.id":{"rewrite":"rewrite","value":"ki*y","wildcard":"wildcard"}}"#
    );

    let mut w2 = w.clone();
    w2.boost(Boost(2.0f32.to_bits()));
    let w2 = render_json(&w2.to_json());

    assert_eq!(
        w2,
        r#"{"user.id":{"boost":2.0,"value":"ki*y","wildcard":"wildcard"}}"#
    );

    let mut w3 = w.clone();
    w3.case_insensitive(true);
    let w3 = render_json(&w3.to_json());

    assert_eq!(
        w3,
        r#"{"user.id":{"case_insensitive":true,"value":"ki*y","wildcard":"wildcard"}}"#
    );
}

#[test]
fn test_scalar_width_fidelity() {
    assert_eq!(JsonValue::Num(Number::I32(5)).to_text(), "5");
    assert_eq!(render_json(&JsonValue::Num(Number::I32(5))), "5");
    assert_eq!(render_json(&JsonValue::Num(Number::F64(5.0f64.to_bits()))), "5.0");
    assert_eq!(render_json(&JsonValue::Num(Number::F32(5.0f32.to_bits()))), "5.0");
    assert!(matches!(JsonValue::Num(Number::I32(5)), JsonValue::Num(Number::I32(_))));
    assert_eq!(JsonValue::Num(Number::F64(5.0f64.to_bits())).try_to_text(), None);
    assert_eq!(
        JsonValue::Num(Number::I32(5)).try_to_text(),
        Some("5".to_owned())
    );
}

#[test]
fn test_wildcard_to_text_matches_helper() {
    let mut w = Wildcard::new("user.id", "ki*y", "w?ld");
    w.rewrite("constant_score");
    let v = w.to_json();
    assert_eq!(v.to_text(), render_json(&v));
}

#[test]
fn test_float_detection_is_deep() {
    let deep = JsonValue::Obj(vec![(
        "outer".to_owned(),
        JsonValue::Arr(vec![
            JsonValue::Bool(true),
            JsonValue::Obj(vec![("boost".to_owned(), JsonValue::Num(Number::F32(1)))]),
        ]),
    )]);
    assert!(deep.try_to_text().is_none());
    let clean = JsonValue::Obj(vec![(
        "outer".to_owned(),
        JsonValue::Arr(vec![JsonValue::Bool(true), JsonValue::Num(Number::U16(7))]),
    )]);
    assert_eq!(clean.try_to_text(), Some(r#"{"outer":[true,7]}"#.to_owned()));
}

#[test]
fn test_empty_compound_bodies() {
    assert_eq!(dsl::query::bool::Bool::new().to_json().to_text(), "{}");
    assert_eq!(dsl::query::Query::new().to_json().to_text(), "{}");
}
