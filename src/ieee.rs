//! IEEE-754 binary64 values held as their bit patterns.
//!
//! Only what the catalog and the evaluation bridge decide on is modelled:
//! the class of a value (finite, infinite, NaN) and the numeric order of
//! non-NaN values.

use vstd::prelude::*;

verus! {

/// Weight of the sign bit.
pub const SIGN_BIT: u64 = 0x8000_0000_0000_0000;

/// Bit pattern of positive infinity; also the largest magnitude that is not NaN.
pub const POSITIVE_INFINITY: u64 = 0x7FF0_0000_0000_0000;

/// The value with its sign bit cleared, as a number.
pub open spec fn magnitude(b: u64) -> int {
    (b as int) % (SIGN_BIT as int)
}

/// The sign bit is set.
pub open spec fn is_negative(b: u64) -> bool {
    b >= SIGN_BIT
}

/// All exponent bits set and a non-zero fraction.
pub open spec fn is_nan(b: u64) -> bool {
    magnitude(b) > POSITIVE_INFINITY as int
}

/// Neither infinite nor NaN.
pub open spec fn is_finite(b: u64) -> bool {
    magnitude(b) < POSITIVE_INFINITY as int
}

/// For non-NaN values, a number that orders them as the reals they denote
/// (both zeros map to 0).
pub open spec fn order_key(b: u64) -> int {
    if is_negative(b) {
        -magnitude(b)
    } else {
        magnitude(b)
    }
}

/// `a <= b` as IEEE-754 compares: false whenever either side is NaN.
pub open spec fn float_le(a: u64, b: u64) -> bool {
    !is_nan(a) && !is_nan(b) && order_key(a) <= order_key(b)
}

/// Whether the value is finite.
pub fn is_finite_bits(b: u64) -> (r: bool)
    ensures
        r == is_finite(b),
{
    b % SIGN_BIT < POSITIVE_INFINITY
}

/// IEEE-754 `a <= b` on bit patterns.
pub fn le_bits(a: u64, b: u64) -> (r: bool)
    ensures
        r == float_le(a, b),
{
    let ma: u64 = a % SIGN_BIT;
    let mb: u64 = b % SIGN_BIT;
    if ma > POSITIVE_INFINITY || mb > POSITIVE_INFINITY {
        return false;
    }
    let na: bool = a >= SIGN_BIT;
    let nb: bool = b >= SIGN_BIT;
    if !na && !nb {
        ma <= mb
    } else if na && nb {
        mb <= ma
    } else if na {
        true
    } else {
        ma == 0 && mb == 0
    }
}

} // verus!
