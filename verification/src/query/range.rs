//! The range clause: matches documents whose field value lies in a range.

use vstd::prelude::*;
use crate::boost::Boost;
use crate::case::{upper_seq, Case};
use crate::field::Field;
use crate::json::{
    cond_entry, entries_of, has_key, lemma_cond_entry_omission, lemma_has_key_concat,
    opt_str_entry, push_entry, req_entry, JsonV, JsonValue,
};
use crate::types::number::Number;
use crate::types::EqualsToDefault;

verus! {

/// One bound or parameter value of a range: a number, or a date
/// expression held as text.
#[derive(Debug, Clone)]
pub enum RangeValue {
    Number(Number),
    Date(String),
}

impl RangeValue {
    /// The bound's model: the bare scalar.
    pub open spec fn json(self) -> JsonV {
        match self {
            RangeValue::Number(n) => JsonV::Num(n),
            RangeValue::Date(d) => JsonV::Str(d@),
        }
    }

    /// Serializes the bound.
    pub fn to_json(&self) -> (r: JsonValue)
        ensures
            r@ == self.json(),
    {
        match self {
            RangeValue::Number(n) => JsonValue::Num(*n),
            RangeValue::Date(d) => JsonValue::Str(d.clone()),
        }
    }
}

/// How a range relates to a range field's values; defaults to
/// `Intersects`.  Renders under the uppercase policy.
#[derive(Clone, Copy, PartialEq, Eq, Structural, Debug)]
pub enum Relation {
    Intersects,
    Contains,
    Within,
}

impl Relation {
    /// The canonical wire string's model.
    pub open spec fn wire_spec(self) -> Seq<char> {
        match self {
            Relation::Intersects => upper_seq("Intersects"@),
            Relation::Contains => upper_seq("Contains"@),
            Relation::Within => upper_seq("Within"@),
        }
    }

    /// The canonical wire string: the uppercase policy applied to the
    /// symbol's declared name.
    pub fn display_string(&self) -> (r: String)
        ensures
            r@ == self.wire_spec(),
    {
        match self {
            Relation::Intersects => Case::Uppercase.parse_str("Intersects"),
            Relation::Contains => Case::Uppercase.parse_str("Contains"),
            Relation::Within => Case::Uppercase.parse_str("Within"),
        }
    }
}

/// Case-formatter totality for the relation: every symbol maps to
/// exactly one nonempty wire string.
pub proof fn lemma_relation_totality(r: Relation)
    ensures
        r.wire_spec().len() > 0,
{
    reveal_strlit("Intersects");
    reveal_strlit("Contains");
    reveal_strlit("Within");
    assert(upper_seq("Intersects"@).len() == 10);
    assert(upper_seq("Contains"@).len() == 8);
    assert(upper_seq("Within"@).len() == 6);
}

impl Default for Relation {
    fn default() -> (r: Self)
        ensures
            r == Relation::Intersects,
    {
        Relation::Intersects
    }
}

impl EqualsToDefault for Relation {
    open spec fn default_spec() -> Self {
        Relation::Intersects
    }

    fn equals_to_default(&self) -> (r: bool) {
        matches!(self, Relation::Intersects)
    }
}

/// Matches documents whose `field` lies within the set bounds.
#[derive(Debug, Clone)]
pub struct Range {
    pub field: Field,
    pub opts: RangeOptions,
}

/// The range clause's bounds and tuning parameters.
#[derive(Debug, Clone)]
pub struct RangeOptions {
    pub gt: Option<RangeValue>,
    pub gte: Option<RangeValue>,
    pub lt: Option<RangeValue>,
    pub lte: Option<RangeValue>,
    pub format: Option<String>,
    pub relation: Relation,
    pub time_zone: Option<String>,
    pub boost: Boost,
}

/// The entries of an optional range bound: present exactly when set.
pub open spec fn opt_range_entry(key: Seq<char>, v: Option<RangeValue>) -> Seq<
    (Seq<char>, JsonV),
> {
    match v {
        Option::Some(rv) => seq![(key, rv.json())],
        Option::None => seq![],
    }
}

impl RangeOptions {
    /// The defaults: no bound or parameter set.
    pub open spec fn default_spec() -> Self {
        RangeOptions {
            gt: Option::None,
            gte: Option::None,
            lt: Option::None,
            lte: Option::None,
            format: Option::None,
            relation: Relation::Intersects,
            time_zone: Option::None,
            boost: Boost::default_spec(),
        }
    }
}

impl Default for RangeOptions {
    fn default() -> (r: Self)
        ensures
            r == Self::default_spec(),
    {
        RangeOptions {
            gt: None,
            gte: None,
            lt: None,
            lte: None,
            format: None,
            relation: Relation::Intersects,
            time_zone: None,
            boost: Boost::default(),
        }
    }
}

impl Range {
    /// Makes a range clause for the field; no bound is set yet.
    pub fn new(field: Field) -> (r: Self)
        ensures
            r.field == field,
            r.opts == RangeOptions::default_spec(),
    {
        Range { field, opts: RangeOptions::default() }
    }

    /// Sets the exclusive lower bound.
    pub fn gt(&mut self, v: RangeValue) -> (r: &mut Self)
        ensures
            r.opts.gt matches Some(b) && b == v,
            *r == (Range { opts: (RangeOptions { gt: r.opts.gt, ..old(self).opts }), ..*old(self) }),
            *final(self) == *final(r),
    {
        self.opts.gt = Some(v);
        self
    }

    /// Sets the inclusive lower bound.
    pub fn gte(&mut self, v: RangeValue) -> (r: &mut Self)
        ensures
            r.opts.gte matches Some(b) && b == v,
            *r == (Range {
                opts: (RangeOptions { gte: r.opts.gte, ..old(self).opts }),
                ..*old(self)
            }),
            *final(self) == *final(r),
    {
        self.opts.gte = Some(v);
        self
    }

    /// Sets the exclusive upper bound.
    pub fn lt(&mut self, v: RangeValue) -> (r: &mut Self)
        ensures
            r.opts.lt matches Some(b) && b == v,
            *r == (Range { opts: (RangeOptions { lt: r.opts.lt, ..old(self).opts }), ..*old(self) }),
            *final(self) == *final(r),
    {
        self.opts.lt = Some(v);
        self
    }

    /// Sets the inclusive upper bound.
    pub fn lte(&mut self, v: RangeValue) -> (r: &mut Self)
        ensures
            r.opts.lte matches Some(b) && b == v,
            *r == (Range {
                opts: (RangeOptions { lte: r.opts.lte, ..old(self).opts }),
                ..*old(self)
            }),
            *final(self) == *final(r),
    {
        self.opts.lte = Some(v);
        self
    }

    /// Sets the date format of the bounds.
    pub fn format(&mut self, v: &str) -> (r: &mut Self)
        ensures
            r.opts.format matches Some(a) && a@ == v@,
            *r == (Range {
                opts: (RangeOptions { format: r.opts.format, ..old(self).opts }),
                ..*old(self)
            }),
            *final(self) == *final(r),
    {
        self.opts.format = Some(v.to_owned());
        self
    }

    /// Sets how the range relates to a range field's values.
    pub fn relation(&mut self, v: Relation) -> (r: &mut Self)
        ensures
            *r == (Range { opts: (RangeOptions { relation: v, ..old(self).opts }), ..*old(self) }),
            *final(self) == *final(r),
    {
        self.opts.relation = v;
        self
    }

    /// Sets the time zone applied to date bounds.
    pub fn time_zone(&mut self, v: &str) -> (r: &mut Self)
        ensures
            r.opts.time_zone matches Some(a) && a@ == v@,
            *r == (Range {
                opts: (RangeOptions { time_zone: r.opts.time_zone, ..old(self).opts }),
                ..*old(self)
            }),
            *final(self) == *final(r),
    {
        self.opts.time_zone = Some(v.to_owned());
        self
    }

    /// Sets the relevance-score multiplier.
    pub fn boost(&mut self, v: Boost) -> (r: &mut Self)
        ensures
            *r == (Range { opts: (RangeOptions { boost: v, ..old(self).opts }), ..*old(self) }),
            *final(self) == *final(r),
    {
        self.opts.boost = v;
        self
    }

    /// The bound entries: each bound exactly when set.
    pub open spec fn opts_entries_a(self) -> Seq<(Seq<char>, JsonV)> {
        opt_range_entry("gt"@, self.opts.gt) + opt_range_entry("gte"@, self.opts.gte)
            + opt_range_entry("lt"@, self.opts.lt) + opt_range_entry("lte"@, self.opts.lte)
    }

    /// The parameter entries: format and time zone when set, relation and
    /// boost when non-default.
    pub open spec fn opts_entries_b(self) -> Seq<(Seq<char>, JsonV)> {
        opt_str_entry("format"@, self.opts.format) + cond_entry(
            self.opts.relation != Relation::default_spec(),
            "relation"@,
            JsonV::Str(self.opts.relation.wire_spec()),
        ) + opt_str_entry("time_zone"@, self.opts.time_zone) + cond_entry(
            self.opts.boost != Boost::default_spec(),
            "boost"@,
            JsonV::Num(Number::F32(self.opts.boost.0)),
        )
    }

    /// The model of the clause body's entries.
    pub open spec fn opts_entries(self) -> Seq<(Seq<char>, JsonV)> {
        self.opts_entries_a() + self.opts_entries_b()
    }

    /// The clause's model: `{"<field>": {...bounds and options}}`.
    pub open spec fn json(self) -> JsonV {
        JsonV::Obj(req_entry(self.field@, JsonV::Obj(self.opts_entries())))
    }

    /// Builds the bound entries.
    fn push_opts_a(&self, inner: &mut Vec<(String, JsonValue)>)
        requires
            old(inner)@.len() == 0,
        ensures
            entries_of(final(inner)@) == self.opts_entries_a(),
    {
        proof {
            assert(entries_of(inner@) =~= Seq::<(Seq<char>, JsonV)>::empty());
        }
        if let Some(v) = &self.opts.gt {
            push_entry(inner, "gt", v.to_json());
        }
        proof {
            assert(entries_of(inner@) =~= opt_range_entry("gt"@, self.opts.gt));
        }
        if let Some(v) = &self.opts.gte {
            push_entry(inner, "gte", v.to_json());
        }
        proof {
            assert(entries_of(inner@) =~= opt_range_entry("gt"@, self.opts.gt) + opt_range_entry(
                "gte"@,
                self.opts.gte,
            ));
        }
        if let Some(v) = &self.opts.lt {
            push_entry(inner, "lt", v.to_json());
        }
        proof {
            assert(entries_of(inner@) =~= opt_range_entry("gt"@, self.opts.gt) + opt_range_entry(
                "gte"@,
                self.opts.gte,
            ) + opt_range_entry("lt"@, self.opts.lt));
        }
        if let Some(v) = &self.opts.lte {
            push_entry(inner, "lte", v.to_json());
        }
        proof {
            assert(entries_of(inner@) =~= self.opts_entries_a());
        }
    }

    /// Builds the parameter entries.
    fn push_opts_b(&self, inner: &mut Vec<(String, JsonValue)>)
        ensures
            entries_of(final(inner)@) == entries_of(old(inner)@) + self.opts_entries_b(),
    {
        let ghost base = entries_of(inner@);
        if let Some(v) = &self.opts.format {
            push_entry(inner, "format", JsonValue::Str(v.clone()));
        }
        proof {
            assert(entries_of(inner@) =~= base + opt_str_entry("format"@, self.opts.format));
        }
        if !self.opts.relation.equals_to_default() {
            push_entry(inner, "relation", JsonValue::Str(self.opts.relation.display_string()));
        }
        proof {
            assert(entries_of(inner@) =~= base + (opt_str_entry("format"@, self.opts.format)
                + cond_entry(
                self.opts.relation != Relation::default_spec(),
                "relation"@,
                JsonV::Str(self.opts.relation.wire_spec()),
            )));
        }
        if let Some(v) = &self.opts.time_zone {
            push_entry(inner, "time_zone", JsonValue::Str(v.clone()));
        }
        if !self.opts.boost.equals_to_default() {
            push_entry(inner, "boost", JsonValue::Num(Number::F32(self.opts.boost.0)));
        }
        proof {
            assert(entries_of(inner@) =~= base + self.opts_entries_b());
        }
    }

    /// Serializes the clause.
    pub fn to_json(&self) -> (r: JsonValue)
        ensures
            r@ == self.json(),
    {
        let mut inner: Vec<(String, JsonValue)> = Vec::new();
        self.push_opts_a(&mut inner);
        self.push_opts_b(&mut inner);
        proof {
            assert(entries_of(inner@) =~= self.opts_entries());
        }
        let mut outer: Vec<(String, JsonValue)> = Vec::new();
        proof {
            assert(entries_of(outer@) =~= Seq::<(Seq<char>, JsonV)>::empty());
        }
        push_entry(&mut outer, self.field.as_str(), JsonValue::Obj(inner));
        proof {
            assert(entries_of(outer@) =~= req_entry(self.field@, JsonV::Obj(self.opts_entries())));
        }
        JsonValue::Obj(outer)
    }
}

/// Minimality of a fresh range clause: with nothing set, the body is
/// empty.
pub proof fn lemma_range_fresh_minimal(rg: Range)
    requires
        rg.opts == RangeOptions::default_spec(),
    ensures
        rg.opts_entries() == Seq::<(Seq<char>, JsonV)>::empty(),
{
    assert(rg.opts_entries() =~= Seq::<(Seq<char>, JsonV)>::empty());
}

/// Default omission for the range clause: the relation and boost keys
/// appear exactly when their values differ from the defaults.
pub proof fn lemma_range_default_omission(rg: Range)
    ensures
        has_key(rg.opts_entries(), "relation"@) <==> rg.opts.relation != Relation::default_spec(),
        has_key(rg.opts_entries(), "boost"@) <==> rg.opts.boost != Boost::default_spec(),
{
    reveal_strlit("gt");
    reveal_strlit("gte");
    reveal_strlit("lt");
    reveal_strlit("lte");
    reveal_strlit("format");
    reveal_strlit("relation");
    reveal_strlit("time_zone");
    reveal_strlit("boost");
    assert("gt"@.len() == 2);
    assert("gte"@.len() == 3);
    assert("lt"@.len() == 2);
    assert("lte"@.len() == 3);
    assert("format"@.len() == 6);
    assert("relation"@.len() == 8);
    assert("time_zone"@.len() == 9);
    assert("boost"@.len() == 5);
    let s1 = opt_range_entry("gt"@, rg.opts.gt);
    let s2 = opt_range_entry("gte"@, rg.opts.gte);
    let s3 = opt_range_entry("lt"@, rg.opts.lt);
    let s4 = opt_range_entry("lte"@, rg.opts.lte);
    let s5 = opt_str_entry("format"@, rg.opts.format);
    let s6 = cond_entry(
        rg.opts.relation != Relation::default_spec(),
        "relation"@,
        JsonV::Str(rg.opts.relation.wire_spec()),
    );
    let s7 = opt_str_entry("time_zone"@, rg.opts.time_zone);
    let s8 = cond_entry(
        rg.opts.boost != Boost::default_spec(),
        "boost"@,
        JsonV::Num(Number::F32(rg.opts.boost.0)),
    );
    assert forall|k: Seq<char>| true implies has_key(rg.opts_entries(), k) == (has_key(s1, k)
        || has_key(s2, k) || has_key(s3, k) || has_key(s4, k) || has_key(s5, k) || has_key(s6, k)
        || has_key(s7, k) || has_key(s8, k)) by {
        lemma_has_key_concat(rg.opts_entries_a(), rg.opts_entries_b(), k);
        lemma_has_key_concat(s1, s2, k);
        lemma_has_key_concat(s1 + s2, s3, k);
        lemma_has_key_concat(s1 + s2 + s3, s4, k);
        lemma_has_key_concat(s5, s6, k);
        lemma_has_key_concat(s5 + s6, s7, k);
        lemma_has_key_concat(s5 + s6 + s7, s8, k);
    }
    lemma_cond_entry_omission(
        rg.opts.relation != Relation::default_spec(),
        "relation"@,
        JsonV::Str(rg.opts.relation.wire_spec()),
    );
    lemma_cond_entry_omission(
        rg.opts.boost != Boost::default_spec(),
        "boost"@,
        JsonV::Num(Number::F32(rg.opts.boost.0)),
    );
}

} // verus!
