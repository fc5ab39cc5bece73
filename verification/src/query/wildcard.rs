//! The wildcard clause: matches documents against a wildcard pattern.

use vstd::prelude::*;
use crate::boost::Boost;
use crate::case_insensitive::CaseInsensitive;
use crate::field::Field;
use crate::json::{
    cond_entry, entries_of, has_key, lemma_cond_entry_omission, lemma_has_key_concat,
    opt_str_entry, push_entry, req_entry, JsonV, JsonValue,
};
use crate::types::number::Number;
use crate::types::EqualsToDefault;

verus! {

/// Matches documents where `field` matches a wildcard pattern.
#[derive(Debug, Clone)]
pub struct Wildcard {
    pub field: Field,
    pub opts: WildcardOptions,
}

/// The wildcard clause's pattern and tuning parameters.
#[derive(Debug, Clone)]
pub struct WildcardOptions {
    pub boost: Boost,
    pub case_insensitive: CaseInsensitive,
    pub rewrite: Option<String>,
    pub value: String,
    pub wildcard: String,
}

impl Wildcard {
    /// Makes a wildcard clause for the field, its pattern value and its
    /// wildcard; the tuning parameters start at their defaults.
    pub fn new(field: &str, value: &str, wildcard: &str) -> (r: Self)
        ensures
            r.field@ == field@,
            r.opts.value@ == value@,
            r.opts.wildcard@ == wildcard@,
            r.opts.boost == Boost::default_spec(),
            r.opts.case_insensitive == CaseInsensitive::default_spec(),
            r.opts.rewrite is None,
    {
        Wildcard {
            field: Field::new(field),
            opts: WildcardOptions {
                boost: Boost::default(),
                case_insensitive: CaseInsensitive::default(),
                rewrite: None,
                value: value.to_owned(),
                wildcard: wildcard.to_owned(),
            },
        }
    }

    /// Sets the relevance-score multiplier.
    pub fn boost(&mut self, v: Boost) -> (r: &mut Self)
        ensures
            *r == (Wildcard {
                opts: (WildcardOptions { boost: v, ..old(self).opts }),
                ..*old(self)
            }),
            *final(self) == *final(r),
    {
        self.opts.boost = v;
        self
    }

    /// Sets case-insensitive matching.
    pub fn case_insensitive(&mut self, v: bool) -> (r: &mut Self)
        ensures
            *r == (Wildcard {
                opts: (WildcardOptions {
                    case_insensitive: CaseInsensitive(v),
                    ..old(self).opts
                }),
                ..*old(self)
            }),
            *final(self) == *final(r),
    {
        self.opts.case_insensitive = CaseInsensitive(v);
        self
    }

    /// Sets the rewrite method.
    pub fn rewrite(&mut self, v: &str) -> (r: &mut Self)
        ensures
            r.opts.rewrite matches Some(a) && a@ == v@,
            *r == (Wildcard {
                opts: (WildcardOptions { rewrite: r.opts.rewrite, ..old(self).opts }),
                ..*old(self)
            }),
            *final(self) == *final(r),
    {
        self.opts.rewrite = Some(v.to_owned());
        self
    }

    /// The model of the clause body's entries: the defaulted wrappers
    /// exactly when non-default, the rewrite when set, then the pattern.
    pub open spec fn opts_entries(self) -> Seq<(Seq<char>, JsonV)> {
        cond_entry(
            self.opts.boost != Boost::default_spec(),
            "boost"@,
            JsonV::Num(Number::F32(self.opts.boost.0)),
        ) + cond_entry(
            self.opts.case_insensitive != CaseInsensitive::default_spec(),
            "case_insensitive"@,
            JsonV::Bool(self.opts.case_insensitive.0),
        ) + opt_str_entry("rewrite"@, self.opts.rewrite) + req_entry(
            "value"@,
            JsonV::Str(self.opts.value@),
        ) + req_entry("wildcard"@, JsonV::Str(self.opts.wildcard@))
    }

    /// The clause's model: `{"<field>": {...options, "value": ..., "wildcard": ...}}`.
    pub open spec fn json(self) -> JsonV {
        JsonV::Obj(req_entry(self.field@, JsonV::Obj(self.opts_entries())))
    }

    /// Serializes the clause.
    #[verifier::rlimit(30)]
    pub fn to_json(&self) -> (r: JsonValue)
        ensures
            r@ == self.json(),
    {
        let mut inner: Vec<(String, JsonValue)> = Vec::new();
        proof {
            assert(entries_of(inner@) =~= Seq::<(Seq<char>, JsonV)>::empty());
        }
        if !self.opts.boost.equals_to_default() {
            push_entry(&mut inner, "boost", JsonValue::Num(Number::F32(self.opts.boost.0)));
        }
        proof {
            assert(entries_of(inner@) =~= cond_entry(
                self.opts.boost != Boost::default_spec(),
                "boost"@,
                JsonV::Num(Number::F32(self.opts.boost.0)),
            ));
        }
        if !self.opts.case_insensitive.equals_to_default() {
            push_entry(
                &mut inner,
                "case_insensitive",
                JsonValue::Bool(self.opts.case_insensitive.0),
            );
        }
        proof {
            assert(entries_of(inner@) =~= cond_entry(
                self.opts.boost != Boost::default_spec(),
                "boost"@,
                JsonV::Num(Number::F32(self.opts.boost.0)),
            ) + cond_entry(
                self.opts.case_insensitive != CaseInsensitive::default_spec(),
                "case_insensitive"@,
                JsonV::Bool(self.opts.case_insensitive.0),
            ));
        }
        if let Some(v) = &self.opts.rewrite {
            push_entry(&mut inner, "rewrite", JsonValue::Str(v.clone()));
        }
        proof {
            assert(entries_of(inner@) =~= cond_entry(
                self.opts.boost != Boost::default_spec(),
                "boost"@,
                JsonV::Num(Number::F32(self.opts.boost.0)),
            ) + cond_entry(
                self.opts.case_insensitive != CaseInsensitive::default_spec(),
                "case_insensitive"@,
                JsonV::Bool(self.opts.case_insensitive.0),
            ) + opt_str_entry("rewrite"@, self.opts.rewrite));
        }
        push_entry(&mut inner, "value", JsonValue::Str(self.opts.value.clone()));
        push_entry(&mut inner, "wildcard", JsonValue::Str(self.opts.wildcard.clone()));
        proof {
            assert(entries_of(inner@) =~= self.opts_entries());
        }
        let mut outer: Vec<(String, JsonValue)> = Vec::new();
        proof {
            assert(entries_of(outer@) =~= Seq::<(Seq<char>, JsonV)>::empty());
        }
        push_entry(&mut outer, self.field.as_str(), JsonValue::Obj(inner));
        proof {
            assert(entries_of(outer@) =~= req_entry(self.field@, JsonV::Obj(self.opts_entries())));
        }
        JsonValue::Obj(outer)
    }
}

/// Default omission for the wildcard clause: the boost and
/// case-insensitive keys appear exactly when their values differ from the
/// defaults, and a fresh clause emits only its pattern keys.
pub proof fn lemma_wildcard_default_omission(w: Wildcard)
    ensures
        has_key(w.opts_entries(), "boost"@) <==> w.opts.boost != Boost::default_spec(),
        has_key(w.opts_entries(), "case_insensitive"@) <==> w.opts.case_insensitive
            != CaseInsensitive::default_spec(),
        w.opts.boost == Boost::default_spec() && w.opts.case_insensitive
            == CaseInsensitive::default_spec() && w.opts.rewrite is None ==> w.opts_entries()
            == req_entry("value"@, JsonV::Str(w.opts.value@)) + req_entry(
            "wildcard"@,
            JsonV::Str(w.opts.wildcard@),
        ),
{
    reveal_strlit("boost");
    reveal_strlit("case_insensitive");
    reveal_strlit("rewrite");
    reveal_strlit("value");
    reveal_strlit("wildcard");
    assert("boost"@.len() == 5);
    assert("case_insensitive"@.len() == 16);
    assert("rewrite"@.len() == 7);
    assert("value"@.len() == 5);
    assert("wildcard"@.len() == 8);
    assert("boost"@[0] != "value"@[0]);
    let s1 = cond_entry(
        w.opts.boost != Boost::default_spec(),
        "boost"@,
        JsonV::Num(Number::F32(w.opts.boost.0)),
    );
    let s2 = cond_entry(
        w.opts.case_insensitive != CaseInsensitive::default_spec(),
        "case_insensitive"@,
        JsonV::Bool(w.opts.case_insensitive.0),
    );
    let s3 = opt_str_entry("rewrite"@, w.opts.rewrite);
    let s4 = req_entry("value"@, JsonV::Str(w.opts.value@));
    let s5 = req_entry("wildcard"@, JsonV::Str(w.opts.wildcard@));
    assert forall|k: Seq<char>| true implies has_key(w.opts_entries(), k) == (has_key(s1, k)
        || has_key(s2, k) || has_key(s3, k) || has_key(s4, k) || has_key(s5, k)) by {
        lemma_has_key_concat(s1, s2, k);
        lemma_has_key_concat(s1 + s2, s3, k);
        lemma_has_key_concat(s1 + s2 + s3, s4, k);
        lemma_has_key_concat(s1 + s2 + s3 + s4, s5, k);
    }
    lemma_cond_entry_omission(
        w.opts.boost != Boost::default_spec(),
        "boost"@,
        JsonV::Num(Number::F32(w.opts.boost.0)),
    );
    lemma_cond_entry_omission(
        w.opts.case_insensitive != CaseInsensitive::default_spec(),
        "case_insensitive"@,
        JsonV::Bool(w.opts.case_insensitive.0),
    );
    if w.opts.boost == Boost::default_spec() && w.opts.case_insensitive
        == CaseInsensitive::default_spec() && w.opts.rewrite is None {
        assert(w.opts_entries() =~= s4 + s5);
    }
}

} // verus!
