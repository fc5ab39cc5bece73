//! The exists clause: matches documents that hold a value for a field.

use vstd::prelude::*;
use crate::field::Field;
use crate::json::{push_entry, req_entry, JsonV, JsonValue};

verus! {

/// Matches documents where the field has any indexed value.
#[derive(Debug, Clone)]
pub struct Exists {
    pub field: Field,
}

impl Exists {
    /// Makes an exists clause for the field.
    pub fn new(field: Field) -> (r: Self)
        ensures
            r.field == field,
    {
        Exists { field }
    }

    /// The clause body's model: `{"field": <field>}`.
    pub open spec fn json(self) -> JsonV {
        JsonV::Obj(req_entry("field"@, JsonV::Str(self.field@)))
    }

    /// Serializes the clause body.
    pub fn to_json(&self) -> (r: JsonValue)
        ensures
            r@ == self.json(),
    {
        let mut fields: Vec<(String, JsonValue)> = Vec::new();
        proof {
            assert(crate::json::entries_of(fields@) =~= Seq::<(Seq<char>, JsonV)>::empty());
        }
        push_entry(&mut fields, "field", JsonValue::Str(self.field.as_str().to_owned()));
        proof {
            assert(crate::json::entries_of(fields@) =~= req_entry(
                "field"@,
                JsonV::Str(self.field@),
            ));
        }
        JsonValue::Obj(fields)
    }
}

} // verus!
