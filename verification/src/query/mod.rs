//! The query clause model: leaf clauses, boolean composition, and the
//! top-level clause selector.

pub mod bool;
pub mod exists_clause;
pub mod nested;
pub mod match_all;
pub mod match_clause;
pub mod match_none;
pub mod range;
pub mod wildcard;
pub mod term;

use vstd::prelude::*;
use crate::case::{snake_seq, snakecase};
use crate::json::{push_entry, req_entry, JsonV, JsonValue};
use crate::types::number::Number;
use exists_clause::Exists;
use match_all::MatchAll;
use match_clause::{Match, MatchOptions};
use match_none::MatchNone;
use nested::Nested;
use range::Range;
use term::Term;
use wildcard::Wildcard;
use crate::json::{entries_of, lookup};
use bool::Bool;

verus! {

/// A literal query value: its wire encoding is the bare scalar, never an
/// object.
#[derive(Clone, Debug)]
pub enum QueryValue {
    Text(String),
    Number(Number),
    Boolean(bool),
}

impl QueryValue {
    /// The scalar's model: exactly one JSON token of the matching kind.
    pub open spec fn json(self) -> JsonV {
        match self {
            QueryValue::Text(s) => JsonV::Str(s@),
            QueryValue::Number(n) => JsonV::Num(n),
            QueryValue::Boolean(b) => JsonV::Bool(b),
        }
    }

    /// Serializes the scalar: a pure, total mapping with no error case.
    pub fn to_json(&self) -> (r: JsonValue)
        ensures
            r@ == self.json(),
    {
        match self {
            QueryValue::Text(s) => JsonValue::Str(s.clone()),
            QueryValue::Number(n) => JsonValue::Num(*n),
            QueryValue::Boolean(b) => JsonValue::Bool(*b),
        }
    }
}

/// One leaf condition of a query: a closed set of clause kinds, each
/// serializing as a single-key object keyed by the clause kind's name in
/// lower snake case.
#[derive(Debug, Clone)]
pub enum LeafClause {
    Exists(Exists),
    Match(Match),
    MatchAll(MatchAll),
    MatchNone(MatchNone),
    Term(Term),
    Range(Range),
}

impl LeafClause {
    /// The clause kind's wire key: its variant name in lower snake case.
    pub open spec fn kind_key(self) -> Seq<char> {
        match self {
            LeafClause::Exists(_) => snake_seq("Exists"@),
            LeafClause::Match(_) => snake_seq("Match"@),
            LeafClause::MatchAll(_) => snake_seq("MatchAll"@),
            LeafClause::MatchNone(_) => snake_seq("MatchNone"@),
            LeafClause::Term(_) => snake_seq("Term"@),
            LeafClause::Range(_) => snake_seq("Range"@),
        }
    }

    /// The model of the wrapped clause's own serialization.
    pub open spec fn body_json(self) -> JsonV {
        match self {
            LeafClause::Exists(c) => c.json(),
            LeafClause::Match(c) => c.json(),
            LeafClause::MatchAll(c) => c.json(),
            LeafClause::MatchNone(c) => c.json(),
            LeafClause::Term(c) => c.json(),
            LeafClause::Range(c) => c.json(),
        }
    }

    /// The leaf's model: `{"<clause_kind>": <body>}`.
    pub open spec fn json(self) -> JsonV {
        JsonV::Obj(req_entry(self.kind_key(), self.body_json()))
    }

    /// Serializes the leaf.
    pub fn to_json(&self) -> (r: JsonValue)
        ensures
            r@ == self.json(),
    {
        let key: String = match self {
            LeafClause::Exists(_) => snakecase("Exists"),
            LeafClause::Match(_) => snakecase("Match"),
            LeafClause::MatchAll(_) => snakecase("MatchAll"),
            LeafClause::MatchNone(_) => snakecase("MatchNone"),
            LeafClause::Term(_) => snakecase("Term"),
            LeafClause::Range(_) => snakecase("Range"),
        };
        let body: JsonValue = match self {
            LeafClause::Exists(c) => c.to_json(),
            LeafClause::Match(c) => c.to_json(),
            LeafClause::MatchAll(c) => c.to_json(),
            LeafClause::MatchNone(c) => c.to_json(),
            LeafClause::Term(c) => c.to_json(),
            LeafClause::Range(c) => c.to_json(),
        };
        let mut fields: Vec<(String, JsonValue)> = Vec::new();
        proof {
            assert(crate::json::entries_of(fields@) =~= Seq::<(Seq<char>, JsonV)>::empty());
        }
        push_entry(&mut fields, key.as_str(), body);
        proof {
            assert(crate::json::entries_of(fields@) =~= req_entry(
                self.kind_key(),
                self.body_json(),
            ));
        }
        JsonValue::Obj(fields)
    }
}

/// The models of a clause list, in order.
pub open spec fn leaf_jsons(s: Seq<LeafClause>) -> Seq<JsonV>
    decreases s,
{
    if s.len() == 0 {
        Seq::empty()
    } else {
        seq![s[0].json()] + leaf_jsons(s.drop_first())
    }
}

/// `leaf_jsons` maps the list pointwise: order is preserved exactly.
pub proof fn lemma_leaf_jsons_index(s: Seq<LeafClause>)
    ensures
        leaf_jsons(s).len() == s.len(),
        forall|i: int| 0 <= i < s.len() ==> #[trigger] leaf_jsons(s)[i] == s[i].json(),
    decreases s,
{
    if s.len() > 0 {
        lemma_leaf_jsons_index(s.drop_first());
    }
}

/// The models of a clause list grow at the right with the list.
pub proof fn lemma_leaf_jsons_snoc(s: Seq<LeafClause>, c: LeafClause)
    ensures
        leaf_jsons(s.push(c)) == leaf_jsons(s) + seq![c.json()],
    decreases s,
{
    if s.len() == 0 {
        assert(s.push(c).drop_first() =~= Seq::<LeafClause>::empty());
        assert(s.push(c)[0] == c);
        assert(leaf_jsons(Seq::<LeafClause>::empty()) =~= Seq::<JsonV>::empty());
        assert(leaf_jsons(s.push(c)) =~= leaf_jsons(s) + seq![c.json()]);
    } else {
        assert(s.push(c).drop_first() =~= s.drop_first().push(c));
        assert(s.push(c)[0] == s[0]);
        lemma_leaf_jsons_snoc(s.drop_first(), c);
        assert(leaf_jsons(s.push(c)) =~= leaf_jsons(s) + seq![c.json()]);
    }
}

/// Round-trip minimality: a match clause built from only a field and a
/// value serializes as `{"match": {"<field>": {"query": <value>}}}`, with
/// no default option key present.
pub proof fn lemma_leaf_match_minimal(m: Match)
    requires
        m.opts == MatchOptions::default_spec(),
    ensures
        LeafClause::Match(m).json() == JsonV::Obj(
            req_entry(
                snake_seq("Match"@),
                JsonV::Obj(
                    req_entry(m.field@, JsonV::Obj(req_entry("query"@, m.query.json()))),
                ),
            ),
        ),
{
    match_clause::lemma_match_fresh_minimal(m);
}


/// The top-level clause selector: at most one clause kind populated at a
/// time; unset kinds are omitted from the document.
#[derive(Debug)]
pub struct Query {
    pub bool: Option<Bool>,
    pub nested: Option<Box<Nested>>,
    pub wildcard: Option<Wildcard>,
}

impl Query {
    /// Makes an empty query.
    pub fn new() -> (r: Self)
        ensures
            r.bool is None,
            r.nested is None,
            r.wildcard is None,
    {
        Query { bool: None, nested: None, wildcard: None }
    }

    /// Selects a boolean compound clause.
    pub fn bool(&mut self, q: Bool) -> (r: &mut Self)
        ensures
            *r == (Query { bool: Some(q), ..*old(self) }),
            *final(self) == *final(r),
    {
        self.bool = Some(q);
        self
    }

    /// Selects a nested clause.
    pub fn nested(&mut self, q: Nested) -> (r: &mut Self)
        ensures
            r.nested matches Some(b) && *b == q,
            *r == (Query { nested: r.nested, ..*old(self) }),
            *final(self) == *final(r),
    {
        self.nested = Some(Box::new(q));
        self
    }

    /// Selects a wildcard clause.
    pub fn wildcard(&mut self, q: Wildcard) -> (r: &mut Self)
        ensures
            *r == (Query { wildcard: Some(q), ..*old(self) }),
            *final(self) == *final(r),
    {
        self.wildcard = Some(q);
        self
    }

    /// The model of the query's entries: each set clause kind under its
    /// key, unset kinds omitted.
    pub open spec fn entries(self) -> Seq<(Seq<char>, JsonV)>
        decreases self, 0int,
    {
        (match self.bool {
            Option::Some(b) => seq![("bool"@, b.json())],
            Option::None => Seq::empty(),
        }) + (match self.nested {
            Option::Some(n) => seq![("nested"@, n.json())],
            Option::None => Seq::empty(),
        }) + (match self.wildcard {
            Option::Some(w) => seq![("wildcard"@, w.json())],
            Option::None => Seq::empty(),
        })
    }

    /// The query's model.
    pub open spec fn json(self) -> JsonV
        decreases self, 1int,
    {
        JsonV::Obj(self.entries())
    }

    /// Serializes the query.
    pub fn to_json(&self) -> (r: JsonValue)
        ensures
            r@ == self.json(),
        decreases *self,
    {
        let mut fields: Vec<(String, JsonValue)> = Vec::new();
        proof {
            assert(entries_of(fields@) =~= Seq::<(Seq<char>, JsonV)>::empty());
        }
        if let Some(b) = &self.bool {
            push_entry(&mut fields, "bool", b.to_json());
        }
        proof {
            assert(entries_of(fields@) =~= (match self.bool {
                Option::Some(b) => seq![("bool"@, b.json())],
                Option::None => Seq::empty(),
            }));
        }
        if let Some(n) = &self.nested {
            let nj = n.to_json();
            push_entry(&mut fields, "nested", nj);
        }
        proof {
            assert(entries_of(fields@) =~= (match self.bool {
                Option::Some(b) => seq![("bool"@, b.json())],
                Option::None => Seq::empty(),
            }) + (match self.nested {
                Option::Some(n) => seq![("nested"@, n.json())],
                Option::None => Seq::empty(),
            }));
        }
        if let Some(w) = &self.wildcard {
            push_entry(&mut fields, "wildcard", w.to_json());
        }
        proof {
            assert(entries_of(fields@) =~= self.entries());
        }
        JsonValue::Obj(fields)
    }
}

/// Recursive nesting: a nested clause wrapping a query that itself holds
/// a nested clause keeps both levels intact — the outer body's query
/// entry is the inner query's model, whose own first entry is the inner
/// nested clause's model, with no depth truncation.
pub proof fn lemma_nested_recursion(outer: nested::Nested, inner: nested::Nested)
    requires
        outer.query.bool is None,
        outer.query.nested matches Some(b) && *b == inner,
    ensures
        outer.entries()[1] == ("query"@, outer.query.json()),
        outer.query.entries()[0] == ("nested"@, inner.json()),
        lookup(outer.query.entries(), "nested"@) == inner.json(),
{
    assert(outer.entries()[1] == ("query"@, outer.query.json()));
    assert(outer.query.entries()[0] == ("nested"@, inner.json()));
    assert(outer.query.entries().len() >= 1);
}

} // verus!
