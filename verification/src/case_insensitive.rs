//! The case-insensitive matching option.

use vstd::prelude::*;
use crate::types::EqualsToDefault;

verus! {

/// Case insensitive, defaults to false.
#[derive(Clone, Copy, PartialEq, Eq, Structural, Debug)]
pub struct CaseInsensitive(pub bool);

impl Default for CaseInsensitive {
    fn default() -> (r: Self)
        ensures
            r == Self::default_spec(),
    {
        CaseInsensitive(false)
    }
}

impl EqualsToDefault for CaseInsensitive {
    open spec fn default_spec() -> Self {
        CaseInsensitive(false)
    }

    fn equals_to_default(&self) -> (r: bool) {
        self.0 == false
    }
}

} // verus!
