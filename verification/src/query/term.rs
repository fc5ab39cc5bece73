//! The term clause: matches documents holding an exact value in a field.

use vstd::prelude::*;
use crate::boost::Boost;
use crate::case_insensitive::CaseInsensitive;
use crate::field::Field;
use crate::json::{
    cond_entry, entries_of, has_key, lemma_cond_entry_omission, lemma_has_key_concat, push_entry,
    req_entry, JsonV, JsonValue,
};
use crate::types::number::Number;
use crate::types::EqualsToDefault;

verus! {

/// Matches documents holding exactly `value` in `field`.
#[derive(Debug, Clone)]
pub struct Term {
    pub field: Field,
    pub opts: TermOptions,
}

/// The term clause's tuning parameters.
#[derive(Debug, Clone)]
pub struct TermOptions {
    pub value: String,
    pub boost: Boost,
    pub case_insensitive: CaseInsensitive,
}

impl Term {
    /// Makes a term clause for the field and its exact value; the tuning
    /// parameters start at their defaults.
    pub fn new(field: Field, value: &str) -> (r: Self)
        ensures
            r.field == field,
            r.opts.value@ == value@,
            r.opts.boost == Boost::default_spec(),
            r.opts.case_insensitive == CaseInsensitive::default_spec(),
    {
        Term {
            field,
            opts: TermOptions {
                value: value.to_owned(),
                boost: Boost::default(),
                case_insensitive: CaseInsensitive::default(),
            },
        }
    }

    /// Sets the relevance-score multiplier.
    pub fn boost(&mut self, v: Boost) -> (r: &mut Self)
        ensures
            *r == (Term { opts: (TermOptions { boost: v, ..old(self).opts }), ..*old(self) }),
            *final(self) == *final(r),
    {
        self.opts.boost = v;
        self
    }

    /// Sets case-insensitive matching.
    pub fn case_insensitive(&mut self, v: bool) -> (r: &mut Self)
        ensures
            *r == (Term {
                opts: (TermOptions { case_insensitive: CaseInsensitive(v), ..old(self).opts }),
                ..*old(self)
            }),
            *final(self) == *final(r),
    {
        self.opts.case_insensitive = CaseInsensitive(v);
        self
    }

    /// The model of the clause body's entries: the value, then each tuning
    /// parameter exactly when it differs from its default.
    pub open spec fn opts_entries(self) -> Seq<(Seq<char>, JsonV)> {
        req_entry("value"@, JsonV::Str(self.opts.value@)) + cond_entry(
            self.opts.boost != Boost::default_spec(),
            "boost"@,
            JsonV::Num(Number::F32(self.opts.boost.0)),
        ) + cond_entry(
            self.opts.case_insensitive != CaseInsensitive::default_spec(),
            "case_insensitive"@,
            JsonV::Bool(self.opts.case_insensitive.0),
        )
    }

    /// The clause's model: `{"<field>": {...options}}`.
    pub open spec fn json(self) -> JsonV {
        JsonV::Obj(req_entry(self.field@, JsonV::Obj(self.opts_entries())))
    }

    /// Serializes the clause.
    pub fn to_json(&self) -> (r: JsonValue)
        ensures
            r@ == self.json(),
    {
        let mut inner: Vec<(String, JsonValue)> = Vec::new();
        proof {
            assert(entries_of(inner@) =~= Seq::<(Seq<char>, JsonV)>::empty());
        }
        push_entry(&mut inner, "value", JsonValue::Str(self.opts.value.clone()));
        if !self.opts.boost.equals_to_default() {
            push_entry(&mut inner, "boost", JsonValue::Num(Number::F32(self.opts.boost.0)));
        }
        proof {
            assert(entries_of(inner@) =~= req_entry("value"@, JsonV::Str(self.opts.value@))
                + cond_entry(
                self.opts.boost != Boost::default_spec(),
                "boost"@,
                JsonV::Num(Number::F32(self.opts.boost.0)),
            ));
        }
        if !self.opts.case_insensitive.equals_to_default() {
            push_entry(
                &mut inner,
                "case_insensitive",
                JsonValue::Bool(self.opts.case_insensitive.0),
            );
        }
        proof {
            assert(entries_of(inner@) =~= self.opts_entries());
        }
        let mut outer: Vec<(String, JsonValue)> = Vec::new();
        proof {
            assert(entries_of(outer@) =~= Seq::<(Seq<char>, JsonV)>::empty());
        }
        push_entry(&mut outer, self.field.as_str(), JsonValue::Obj(inner));
        proof {
            assert(entries_of(outer@) =~= req_entry(self.field@, JsonV::Obj(self.opts_entries())));
        }
        JsonValue::Obj(outer)
    }
}

/// Default omission for the term clause: each defaulted option key appears
/// exactly when its value differs from the type's default, and a fresh
/// clause emits only its value key.
pub proof fn lemma_term_default_omission(t: Term)
    ensures
        has_key(t.opts_entries(), "boost"@) <==> t.opts.boost != Boost::default_spec(),
        has_key(t.opts_entries(), "case_insensitive"@) <==> t.opts.case_insensitive
            != CaseInsensitive::default_spec(),
        t.opts.boost == Boost::default_spec() && t.opts.case_insensitive
            == CaseInsensitive::default_spec() ==> t.opts_entries() == req_entry(
            "value"@,
            JsonV::Str(t.opts.value@),
        ),
{
    reveal_strlit("value");
    reveal_strlit("boost");
    reveal_strlit("case_insensitive");
    assert("value"@[0] != "boost"@[0]);
    assert("value"@[0] != "case_insensitive"@[0]);
    assert("boost"@[0] != "case_insensitive"@[0]);
    let v = req_entry("value"@, JsonV::Str(t.opts.value@));
    let b = cond_entry(
        t.opts.boost != Boost::default_spec(),
        "boost"@,
        JsonV::Num(Number::F32(t.opts.boost.0)),
    );
    let c = cond_entry(
        t.opts.case_insensitive != CaseInsensitive::default_spec(),
        "case_insensitive"@,
        JsonV::Bool(t.opts.case_insensitive.0),
    );
    lemma_has_key_concat(v + b, c, "boost"@);
    lemma_has_key_concat(v, b, "boost"@);
    lemma_cond_entry_omission(
        t.opts.boost != Boost::default_spec(),
        "boost"@,
        JsonV::Num(Number::F32(t.opts.boost.0)),
    );
    assert(!has_key(v, "boost"@));
    assert(!has_key(c, "boost"@));
    lemma_has_key_concat(v + b, c, "case_insensitive"@);
    lemma_has_key_concat(v, b, "case_insensitive"@);
    lemma_cond_entry_omission(
        t.opts.case_insensitive != CaseInsensitive::default_spec(),
        "case_insensitive"@,
        JsonV::Bool(t.opts.case_insensitive.0),
    );
    assert(!has_key(v, "case_insensitive"@));
    assert(!has_key(b, "case_insensitive"@));
    if t.opts.boost == Boost::default_spec() && t.opts.case_insensitive
        == CaseInsensitive::default_spec() {
        assert(t.opts_entries() =~= v);
    }
}

} // verus!
