//! The relevance-score multiplier option.

use vstd::prelude::*;
use crate::types::EqualsToDefault;

verus! {

/// Floating point number used to decrease or increase the relevance
/// scores of a query.  Defaults to 1.0.
///
/// The value is held as the IEEE-754 bit pattern of an `f32`, since the
/// verifier reasons about floats only as bit patterns; callers build one
/// from a float with `to_bits()`.  The default 1.0 has bit pattern
/// 0x3F80_0000, and bit-pattern equality coincides with float equality
/// for that value.
#[derive(Clone, Copy, PartialEq, Eq, Structural, Debug)]
pub struct Boost(pub u32);

/// The bit pattern of 1.0f32, the documented default.
pub const BOOST_DEFAULT_BITS: u32 = 0x3F80_0000;

impl Default for Boost {
    fn default() -> (r: Self)
        ensures
            r == Self::default_spec(),
    {
        Boost(BOOST_DEFAULT_BITS)
    }
}

impl EqualsToDefault for Boost {
    open spec fn default_spec() -> Self {
        Boost(BOOST_DEFAULT_BITS)
    }

    fn equals_to_default(&self) -> (r: bool) {
        self.0 == BOOST_DEFAULT_BITS
    }
}

} // verus!
