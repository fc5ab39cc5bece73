//! The match-all clause: matches every document.

use vstd::prelude::*;
use crate::json::{entries_of, JsonV, JsonValue};

verus! {

/// Matches every document; carries no parameters.
#[derive(Debug, Clone)]
pub struct MatchAll {}

impl MatchAll {
    /// Makes a match-all clause.
    pub fn new() -> Self {
        MatchAll {  }
    }

    /// The clause body's model: the empty object.
    pub open spec fn json(self) -> JsonV {
        JsonV::Obj(Seq::empty())
    }

    /// Serializes the clause body.
    pub fn to_json(&self) -> (r: JsonValue)
        ensures
            r@ == self.json(),
    {
        let fields: Vec<(String, JsonValue)> = Vec::new();
        proof {
            assert(entries_of(fields@) =~= Seq::<(Seq<char>, JsonV)>::empty());
        }
        JsonValue::Obj(fields)
    }
}

} // verus!
