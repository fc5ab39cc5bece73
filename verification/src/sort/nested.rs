//! Nested-sort scoping: restricts a sort to nested documents.

use vstd::prelude::*;
use crate::json::{entries_of, push_entry, JsonV, JsonValue};
use crate::query::LeafClause;
use crate::types::number::Number;

verus! {

/// Scopes a sort key to nested documents under `path`, optionally
/// filtered; itself recursively nestable for one further level at a time.
#[derive(Debug)]
pub struct SortNested {
    pub path: String,
    pub filter: Option<LeafClause>,
    pub max_children: Option<i32>,
    pub nested: Option<Box<SortNested>>,
}

impl SortNested {
    /// Makes a nested-sort scope for the path; nothing else is set.
    pub fn new(path: &str) -> (r: Self)
        ensures
            r.path@ == path@,
            r.filter is None,
            r.max_children is None,
            r.nested is None,
    {
        SortNested { path: path.to_owned(), filter: None, max_children: None, nested: None }
    }

    /// Sets the filter on the nested documents.
    pub fn filter(&mut self, filter: LeafClause) -> (r: &mut Self)
        ensures
            r.filter matches Some(f) && f == filter,
            *r == (SortNested { filter: r.filter, ..*old(self) }),
            *final(self) == *final(r),
    {
        self.filter = Some(filter);
        self
    }

    /// Sets how many nested children are considered per root document.
    pub fn max_children(&mut self, v: i32) -> (r: &mut Self)
        ensures
            *r == (SortNested { max_children: Some(v), ..*old(self) }),
            *final(self) == *final(r),
    {
        self.max_children = Some(v);
        self
    }

    /// Sets one further level of nested-sort scoping.
    pub fn nested(&mut self, nested: SortNested) -> (r: &mut Self)
        ensures
            r.nested matches Some(b) && *b == nested,
            *r == (SortNested { nested: r.nested, ..*old(self) }),
            *final(self) == *final(r),
    {
        self.nested = Some(Box::new(nested));
        self
    }

    /// The model of the scope's entries: the path, then each parameter
    /// exactly when set.
    pub open spec fn entries(self) -> Seq<(Seq<char>, JsonV)>
        decreases self, 0int,
    {
        seq![("path"@, JsonV::Str(self.path@))] + (match self.filter {
            Option::Some(f) => seq![("filter"@, f.json())],
            Option::None => Seq::empty(),
        }) + (match self.max_children {
            Option::Some(v) => seq![("max_children"@, JsonV::Num(Number::I32(v)))],
            Option::None => Seq::empty(),
        }) + (match self.nested {
            Option::Some(n) => seq![("nested"@, n.json())],
            Option::None => Seq::empty(),
        })
    }

    /// The scope's model.
    pub open spec fn json(self) -> JsonV
        decreases self, 1int,
    {
        JsonV::Obj(self.entries())
    }

    /// Serializes the scope.
    pub fn to_json(&self) -> (r: JsonValue)
        ensures
            r@ == self.json(),
        decreases *self,
    {
        let mut fields: Vec<(String, JsonValue)> = Vec::new();
        proof {
            assert(entries_of(fields@) =~= Seq::<(Seq<char>, JsonV)>::empty());
        }
        push_entry(&mut fields, "path", JsonValue::Str(self.path.clone()));
        proof {
            assert(entries_of(fields@) =~= seq![("path"@, JsonV::Str(self.path@))]);
        }
        if let Some(f) = &self.filter {
            push_entry(&mut fields, "filter", f.to_json());
        }
        proof {
            assert(entries_of(fields@) =~= seq![("path"@, JsonV::Str(self.path@))] + (match self
                .filter {
                Option::Some(f) => seq![("filter"@, f.json())],
                Option::None => Seq::empty(),
            }));
        }
        if let Some(v) = &self.max_children {
            push_entry(&mut fields, "max_children", JsonValue::Num(Number::I32(*v)));
        }
        proof {
            assert(entries_of(fields@) =~= seq![("path"@, JsonV::Str(self.path@))] + (match self
                .filter {
                Option::Some(f) => seq![("filter"@, f.json())],
                Option::None => Seq::empty(),
            }) + (match self.max_children {
                Option::Some(v) => seq![("max_children"@, JsonV::Num(Number::I32(v)))],
                Option::None => Seq::empty(),
            }));
        }
        if let Some(n) = &self.nested {
            let nj = n.to_json();
            push_entry(&mut fields, "nested", nj);
        }
        proof {
            assert(entries_of(fields@) =~= self.entries());
        }
        JsonValue::Obj(fields)
    }
}

} // verus!
