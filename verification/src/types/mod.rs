//! Shared behaviour of the option value-wrapper types.

pub mod number;

use vstd::prelude::*;

verus! {

/// The omission rule's reusable capability: a defaulted value wrapper can say
/// whether its current value equals its type's documented default.  The
/// serializer omits the wrapper's key exactly when this holds.
pub trait EqualsToDefault: Sized {
    /// The type's documented default value.
    spec fn default_spec() -> Self;

    /// Whether `self` equals the documented default.
    fn equals_to_default(&self) -> (r: bool)
        ensures
            r == (*self == Self::default_spec()),
    ;
}

} // verus!
