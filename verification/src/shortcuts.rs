//! A parameterless clause body.

use vstd::prelude::*;
use crate::json::{entries_of, JsonV, JsonValue};

verus! {

/// A clause body with no parameters at all; serializes as the empty
/// object.
#[derive(Debug, Clone)]
pub struct Empty {}

impl Empty {
    /// Makes an empty clause body.
    pub fn new() -> Self {
        Empty {  }
    }

    /// The body's model: the empty object.
    pub open spec fn json(self) -> JsonV {
        JsonV::Obj(Seq::empty())
    }

    /// Serializes the body.
    pub fn to_json(&self) -> (r: JsonValue)
        ensures
            r@ == self.json(),
    {
        let fields: Vec<(String, JsonValue)> = Vec::new();
        proof {
            assert(entries_of(fields@) =~= Seq::<(Seq<char>, JsonV)>::empty());
        }
        JsonValue::Obj(fields)
    }
}

} // verus!
