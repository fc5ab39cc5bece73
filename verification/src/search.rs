//! Document assembly: the top-level search document.

use vstd::prelude::*;
use crate::json::{entries_of, push_entry, JsonV, JsonValue};
use crate::query::Query;
use crate::sort::Sort;

verus! {

/// The top-level search document: an optional query and an optional
/// sort; an unset member is omitted from the built value.
#[derive(Debug)]
pub struct Search {
    pub query: Option<Query>,
    pub sort: Option<Sort>,
}

impl Search {
    /// Makes an empty search document.
    pub fn new() -> (r: Self)
        ensures
            r.query is None,
            r.sort is None,
    {
        Search { query: None, sort: None }
    }

    /// Sets the query.
    pub fn query(&mut self, query: Query) -> (r: &mut Self)
        ensures
            r.query matches Some(q) && q == query,
            *r == (Search { query: r.query, ..*old(self) }),
            *final(self) == *final(r),
    {
        self.query = Some(query);
        self
    }

    /// Sets the sort.
    pub fn sort(&mut self, sort: Sort) -> (r: &mut Self)
        ensures
            r.sort matches Some(s) && s == sort,
            *r == (Search { sort: r.sort, ..*old(self) }),
            *final(self) == *final(r),
    {
        self.sort = Some(sort);
        self
    }

    /// The document's model: the set members under their keys, unset
    /// members omitted.
    pub open spec fn json(self) -> JsonV {
        JsonV::Obj(
            (match self.query {
                Option::Some(q) => seq![("query"@, q.json())],
                Option::None => Seq::empty(),
            }) + (match self.sort {
                Option::Some(s) => seq![("sort"@, s.json())],
                Option::None => Seq::empty(),
            }),
        )
    }

    /// Builds the canonical document value.
    pub fn build(&self) -> (r: JsonValue)
        ensures
            r@ == self.json(),
    {
        let mut fields: Vec<(String, JsonValue)> = Vec::new();
        proof {
            assert(entries_of(fields@) =~= Seq::<(Seq<char>, JsonV)>::empty());
        }
        if let Some(q) = &self.query {
            push_entry(&mut fields, "query", q.to_json());
        }
        proof {
            assert(entries_of(fields@) =~= (match self.query {
                Option::Some(q) => seq![("query"@, q.json())],
                Option::None => Seq::empty(),
            }));
        }
        if let Some(s) = &self.sort {
            push_entry(&mut fields, "sort", s.to_json());
        }
        proof {
            assert(entries_of(fields@) =~= (match self.query {
                Option::Some(q) => seq![("query"@, q.json())],
                Option::None => Seq::empty(),
            }) + (match self.sort {
                Option::Some(s) => seq![("sort"@, s.json())],
                Option::None => Seq::empty(),
            }));
        }
        JsonValue::Obj(fields)
    }
}

} // verus!
