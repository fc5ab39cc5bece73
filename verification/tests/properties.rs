//! End-to-end behaviour of the builders and the serializer: default
//! omission, list order, minimality, recursive nesting, and the text
//! renderer's edge cases.

use dsl::boost::Boost;
use dsl::field::Field;
use dsl::json::JsonValue;
use dsl::query::bool::Bool;
use dsl::query::exists_clause::Exists;
use dsl::query::match_clause::{Match, Operator, ZeroTermsQuery};
use dsl::query::nested::{Nested, ScoreMode};
use dsl::query::range::{Range, RangeValue};
use dsl::query::term::Term;
use dsl::query::{LeafClause, Query, QueryValue};
use dsl::search::Search;
use dsl::sort::{Mode, Order, Sort, SortClause};
use dsl::sort::nested::SortNested;
use dsl::types::number::Number;

#[test]
fn test_round_trip_minimality() {
    let m = Match::new(
        Field::new("event.action"),
        QueryValue::Text("logged-in".to_owned()),
    );
    let s = LeafClause::Match(m).to_json().to_text();
    assert_eq!(s, r#"{"match":{"event.action":{"query":"logged-in"}}}"#);
}

#[test]
fn test_default_omission() {
    // A fresh term emits no defaulted option key.
    let t = Term::new(Field::new("user.id"), "kimchy");
    assert_eq!(
        LeafClause::Term(t).to_json().to_text(),
        r#"{"term":{"user.id":{"value":"kimchy"}}}"#
    );
    // A non-default value always brings its key.
    let mut t2 = Term::new(Field::new("user.id"), "kimchy");
    t2.case_insensitive(true);
    assert_eq!(
        LeafClause::Term(t2).to_json().to_text(),
        r#"{"term":{"user.id":{"value":"kimchy","case_insensitive":true}}}"#
    );
    // Setting a wrapper back to its documented default keeps it omitted.
    let mut m = Match::new(Field::new("f"), QueryValue::Text("v".to_owned()));
    m.max_expansions(50);
    assert_eq!(
        LeafClause::Match(m).to_json().to_text(),
        r#"{"match":{"f":{"query":"v"}}}"#
    );
    let mut m2 = Match::new(Field::new("f"), QueryValue::Text("v".to_owned()));
    m2.max_expansions(3);
    assert_eq!(
        LeafClause::Match(m2).to_json().to_text(),
        r#"{"match":{"f":{"query":"v","max_expansions":3}}}"#
    );
    // The defaulted enums follow the same rule: set to their documented
    // defaults they stay omitted, set otherwise they appear.
    let mut m3 = Match::new(Field::new("f"), QueryValue::Text("v".to_owned()));
    m3.operator(Operator::Or);
    m3.zero_terms_query(ZeroTermsQuery::Nothing);
    assert_eq!(
        LeafClause::Match(m3).to_json().to_text(),
        r#"{"match":{"f":{"query":"v"}}}"#
    );
    let mut m4 = Match::new(Field::new("f"), QueryValue::Text("v".to_owned()));
    m4.operator(Operator::And);
    m4.zero_terms_query(ZeroTermsQuery::All);
    assert_eq!(
        LeafClause::Match(m4).to_json().to_text(),
        r#"{"match":{"f":{"query":"v","operator":"AND","zero_terms_query":"all"}}}"#
    );
}

#[test]
fn test_match_options() {
    let mut m = Match::new(Field::new("f"), QueryValue::Boolean(true));
    m.analyzer("standard");
    m.operator(Operator::And);
    m.zero_terms_query(ZeroTermsQuery::All);
    m.lenient(true);
    assert_eq!(
        LeafClause::Match(m).to_json().to_text(),
        r#"{"match":{"f":{"query":true,"analyzer":"standard","lenient":true,"operator":"AND","zero_terms_query":"all"}}}"#
    );
}

#[test]
fn test_list_order_preservation() {
    let a = LeafClause::Term(Term::new(Field::new("a"), "1"));
    let b = LeafClause::Term(Term::new(Field::new("b"), "2"));
    let c = LeafClause::Term(Term::new(Field::new("c"), "3"));
    let mut q = Bool::new();
    q.must(a);
    q.must(b);
    q.must(c);
    assert_eq!(
        q.to_json().to_text(),
        r#"{"must":[{"term":{"a":{"value":"1"}}},{"term":{"b":{"value":"2"}}},{"term":{"c":{"value":"3"}}}]}"#
    );
    // Sort clause sequences preserve their order too.
    let mut first = SortClause::new("@timestamp");
    first.order(Order::Desc);
    let mut second = SortClause::new("user.id");
    second.mode(Mode::Median);
    let mut s = Sort::new();
    s.sort(first);
    s.sort(second);
    assert_eq!(
        s.to_json().to_text(),
        r#"[{"@timestamp":{"order":"desc"}},{"user.id":{"mode":"median"}}]"#
    );
}

#[test]
fn test_bool_buckets() {
    let mut q = Bool::new();
    q.should(LeafClause::MatchAll(dsl::query::match_all::MatchAll::new()));
    q.must_not(LeafClause::Exists(Exists::new(Field::new("deleted"))));
    assert_eq!(
        q.to_json().to_text(),
        r#"{"should":[{"match_all":{}}],"must_not":[{"exists":{"field":"deleted"}}]}"#
    );
}

#[test]
fn test_recursive_nesting() {
    let inner_match = Match::new(
        Field::new("driver.vehicle.make"),
        QueryValue::Text("toyota".to_owned()),
    );
    let mut inner_bool = Bool::new();
    inner_bool.must(LeafClause::Match(inner_match));
    let mut inner_query = Query::new();
    inner_query.bool(inner_bool);
    let inner = Nested::new("driver.vehicle", inner_query);
    let mut outer_query = Query::new();
    outer_query.nested(inner);
    let outer = Nested::new("driver", outer_query);
    let mut top = Query::new();
    top.nested(outer);
    assert_eq!(
        top.to_json().to_text(),
        r#"{"nested":{"path":"driver","query":{"nested":{"path":"driver.vehicle","query":{"bool":{"must":[{"match":{"driver.vehicle.make":{"query":"toyota"}}}]}}}}}}"#
    );
}

#[test]
fn test_nested_options() {
    let mut n = Nested::new("driver", Query::new());
    n.score_mode(ScoreMode::Max);
    n.ignore_unmapped(true);
    assert_eq!(
        n.to_json().to_text(),
        r#"{"path":"driver","query":{},"score_mode":"max","ignore_unmapped":true}"#
    );
    // Defaults stay omitted.
    let d = Nested::new("driver", Query::new());
    assert_eq!(d.to_json().to_text(), r#"{"path":"driver","query":{}}"#);
}

#[test]
fn test_range_clause() {
    let mut r = Range::new(Field::new("@timestamp"));
    r.gte(RangeValue::Date("now-1h/H".to_owned()));
    r.lte(RangeValue::Date("now/H".to_owned()));
    r.format("HH:mm:ss yyyy/MM/DD");
    assert_eq!(
        LeafClause::Range(r).to_json().to_text(),
        r#"{"range":{"@timestamp":{"gte":"now-1h/H","lte":"now/H","format":"HH:mm:ss yyyy/MM/DD"}}}"#
    );
    // The defaulted relation is omitted even when set to its default.
    let mut r2 = Range::new(Field::new("age"));
    r2.gt(RangeValue::Number(Number::I32(10)));
    r2.relation(dsl::query::range::Relation::Intersects);
    assert_eq!(
        LeafClause::Range(r2).to_json().to_text(),
        r#"{"range":{"age":{"gt":10}}}"#
    );
    let mut r3 = Range::new(Field::new("age"));
    r3.lt(RangeValue::Number(Number::U64(100)));
    r3.relation(dsl::query::range::Relation::Contains);
    assert_eq!(
        LeafClause::Range(r3).to_json().to_text(),
        r#"{"range":{"age":{"lt":100,"relation":"CONTAINS"}}}"#
    );
}

#[test]
fn test_search_assembly() {
    // Unset top-level members are omitted entirely.
    assert_eq!(Search::new().build().to_text(), "{}");
    let mut b = Bool::new();
    b.must(LeafClause::Match(Match::new(
        Field::new("event.action"),
        QueryValue::Text("logged-in".to_owned()),
    )));
    let mut q = Query::new();
    q.bool(b);
    let mut clause = SortClause::new("@timestamp");
    clause.order(Order::Desc);
    let mut s = Sort::new();
    s.sort(clause);
    let mut search = Search::new();
    search.query(q);
    search.sort(s);
    assert_eq!(
        search.build().to_text(),
        r#"{"query":{"bool":{"must":[{"match":{"event.action":{"query":"logged-in"}}}]}},"sort":[{"@timestamp":{"order":"desc"}}]}"#
    );
}

#[test]
fn test_sort_nested_scoping() {
    let mut scope = SortNested::new("offer");
    scope.filter(LeafClause::Term(Term::new(Field::new("offer.color"), "blue")));
    scope.max_children(2);
    let mut deeper = SortNested::new("offer.sub");
    deeper.max_children(1);
    scope.nested(deeper);
    let mut clause = SortClause::new("offer.price");
    clause.nested(scope);
    assert_eq!(
        clause.to_json().to_text(),
        r#"{"offer.price":{"nested":{"path":"offer","filter":{"term":{"offer.color":{"value":"blue"}}},"max_children":2,"nested":{"path":"offer.sub","max_children":1}}}}"#
    );
}

#[test]
fn test_number_text_edges() {
    assert_eq!(JsonValue::Num(Number::I128(i128::MIN)).to_text(), format!("{}", i128::MIN));
    assert_eq!(JsonValue::Num(Number::U128(u128::MAX)).to_text(), format!("{}", u128::MAX));
    assert_eq!(JsonValue::Num(Number::I8(-128)).to_text(), "-128");
    assert_eq!(JsonValue::Num(Number::U8(0)).to_text(), "0");
    assert_eq!(JsonValue::Num(Number::I64(-1)).to_text(), "-1");
    assert_eq!(Number::I32(5).display_string(), "5");
    assert_eq!(Number::I32(-7).debug_string(), "I32(-7)");
    assert_eq!(Number::U128(10).debug_string(), "U128(10)");
}

#[test]
fn test_string_escaping() {
    let tricky = "a\"b\\c\nd\te\u{1}f\u{7f}g\u{e9}";
    let v = JsonValue::Str(tricky.to_owned());
    assert_eq!(v.to_text(), serde_json::to_string(tricky).unwrap());
    let key_v = Exists::new(Field::new("we\"ird")).to_json();
    assert_eq!(key_v.to_text(), r#"{"field":"we\"ird"}"#);
}

#[test]
fn test_boost_default_bits() {
    assert_eq!(Boost::default().0, 1.0f32.to_bits());
    // A boost of exactly 1.0 is the default and is omitted.
    let mut t = Term::new(Field::new("f"), "v");
    t.boost(Boost(1.0f32.to_bits()));
    assert_eq!(
        LeafClause::Term(t).to_json().to_text(),
        r#"{"term":{"f":{"value":"v"}}}"#
    );
}

#[test]
fn test_empty_body() {
    assert_eq!(dsl::shortcuts::Empty::new().to_json().to_text(), "{}");
}

#[test]
fn test_benchtest_runs() {
    dsl::bench::benchtest(3);
}
