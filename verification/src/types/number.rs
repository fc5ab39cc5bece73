//! The numeric scalar model: one variant per width and signedness.

use vstd::prelude::*;
use vstd::string::StringExecFns;
use crate::json::{JsonV, JsonValue};
use crate::text::{num_text, number_text, push_char};

verus! {

/// A numeric literal with its width and signedness kept, so that the emitted
/// JSON token matches the originating width exactly.  The two float variants
/// hold the IEEE-754 bit pattern of the value, since the verifier reasons
/// about floats only as bit patterns; callers obtain the bits with
/// `to_bits()` on the float value.
#[derive(Clone, Copy, PartialEq, Eq, Structural, Debug)]
pub enum Number {
    I8(i8),
    I16(i16),
    I32(i32),
    I64(i64),
    I128(i128),
    U8(u8),
    U16(u16),
    U32(u32),
    U64(u64),
    U128(u128),
    F32(u32),
    F64(u64),
}

impl Number {
    /// Whether this is one of the two float variants.
    pub open spec fn is_float(self) -> bool {
        self is F32 || self is F64
    }

    /// The number's model: exactly one numeric token of the originating
    /// width, with no widening or narrowing.
    pub open spec fn json(self) -> JsonV {
        JsonV::Num(self)
    }

    /// Serializes the number.
    pub fn to_json(&self) -> (r: JsonValue)
        ensures
            r@ == self.json(),
    {
        JsonValue::Num(*self)
    }

    /// The variant's declared name.
    pub open spec fn variant_name(self) -> Seq<char> {
        match self {
            Number::I8(_) => "I8"@,
            Number::I16(_) => "I16"@,
            Number::I32(_) => "I32"@,
            Number::I64(_) => "I64"@,
            Number::I128(_) => "I128"@,
            Number::U8(_) => "U8"@,
            Number::U16(_) => "U16"@,
            Number::U32(_) => "U32"@,
            Number::U64(_) => "U64"@,
            Number::U128(_) => "U128"@,
            Number::F32(_) => "F32"@,
            Number::F64(_) => "F64"@,
        }
    }

    /// The bare value as text.  The float variants have no text at this
    /// layer, so they are excluded.
    pub fn display_string(&self) -> (r: String)
        requires
            !self.is_float(),
        ensures
            r@ == num_text(*self),
    {
        number_text(self)
    }

    /// The value as `<Variant>(<value>)`, for diagnostics; the float
    /// variants are excluded as above.
    pub fn debug_string(&self) -> (r: String)
        requires
            !self.is_float(),
        ensures
            r@ == self.variant_name() + seq!['('] + num_text(*self) + seq![')'],
    {
        let mut s: String = match self {
            Number::I8(_) => "I8".to_owned(),
            Number::I16(_) => "I16".to_owned(),
            Number::I32(_) => "I32".to_owned(),
            Number::I64(_) => "I64".to_owned(),
            Number::I128(_) => "I128".to_owned(),
            Number::U8(_) => "U8".to_owned(),
            Number::U16(_) => "U16".to_owned(),
            Number::U32(_) => "U32".to_owned(),
            Number::U64(_) => "U64".to_owned(),
            Number::U128(_) => "U128".to_owned(),
            Number::F32(_) => unreached(),
            Number::F64(_) => unreached(),
        };
        proof {
            assert(s@ == self.variant_name());
        }
        push_char(&mut s, '(');
        let t = number_text(self);
        s.append(t.as_str());
        push_char(&mut s, ')');
        s
    }
}

} // verus!
