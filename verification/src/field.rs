//! A named document path, used as an object key.

use vstd::prelude::*;

verus! {

/// A named document path (for example `"@timestamp"`).  Treated as an opaque
/// string key: compared and hashed by its string value alone.
#[derive(Debug, Clone, PartialEq, Eq, Hash)]
pub struct Field(String);

impl View for Field {
    type V = Seq<char>;

    closed spec fn view(&self) -> Seq<char> {
        self.0@
    }
}

impl Field {
    /// Makes a field key from a path.
    pub fn new(s: &str) -> (r: Self)
        ensures
            r@ == s@,
    {
        Field(s.to_owned())
    }

    /// The field's path as a string slice.
    pub fn as_str(&self) -> (r: &str)
        ensures
            r@ == self@,
    {
        self.0.as_str()
    }
}

} // verus!
