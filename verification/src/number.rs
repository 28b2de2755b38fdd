//! IEEE 754 doubles, held and ordered by their bit patterns.

use vstd::prelude::*;

verus! {

/// The sign bit of a double.
pub const SIGN_BIT: u64 = 0x8000_0000_0000_0000;

/// The bits of positive infinity: every larger magnitude is a NaN.
pub const INFINITY_BITS: u64 = 0x7ff0_0000_0000_0000;

/// The bits of positive zero.
pub const ZERO_BITS: u64 = 0;

/// The bits of `10.0`.
pub const TEN_BITS: u64 = 0x4024_0000_0000_0000;

/// How two values stand to each other. `Unordered` is what a NaN makes of
/// every comparison it takes part in.
#[derive(Clone, Copy, Debug, PartialEq, Eq, Structural)]
pub enum Comparison {
    Less,
    Equal,
    Greater,
    Unordered,
}

/// The bits without the sign bit.
pub open spec fn magnitude(bits: u64) -> int {
    if bits >= SIGN_BIT {
        bits - SIGN_BIT
    } else {
        bits as int
    }
}

/// Whether the sign bit is set.
pub open spec fn negative(bits: u64) -> bool {
    bits >= SIGN_BIT
}

/// Whether the bits encode a NaN.
pub open spec fn nan(bits: u64) -> bool {
    magnitude(bits) > INFINITY_BITS
}

/// Whether the bits encode positive or negative zero.
pub open spec fn zero(bits: u64) -> bool {
    magnitude(bits) == 0
}

/// The place of a number on the number line: for numbers that are no NaN,
/// a smaller rank is a smaller number, and both zeros have rank 0.
pub open spec fn rank(bits: u64) -> int {
    if negative(bits) {
        -magnitude(bits)
    } else {
        magnitude(bits)
    }
}

/// The IEEE 754 comparison of two doubles.
pub open spec fn number_order(a: u64, b: u64) -> Comparison {
    if nan(a) || nan(b) {
        Comparison::Unordered
    } else if rank(a) < rank(b) {
        Comparison::Less
    } else if rank(a) == rank(b) {
        Comparison::Equal
    } else {
        Comparison::Greater
    }
}

/// The comparison seen from the other side.
pub open spec fn mirrored(c: Comparison) -> Comparison {
    match c {
        Comparison::Less => Comparison::Greater,
        Comparison::Greater => Comparison::Less,
        Comparison::Equal => Comparison::Equal,
        Comparison::Unordered => Comparison::Unordered,
    }
}

pub fn is_nan(bits: u64) -> (r: bool)
    ensures
        r == nan(bits),
{
    if bits >= SIGN_BIT {
        bits - SIGN_BIT > INFINITY_BITS
    } else {
        bits > INFINITY_BITS
    }
}

pub fn is_zero(bits: u64) -> (r: bool)
    ensures
        r == zero(bits),
{
    bits == 0 || bits == SIGN_BIT
}

/// Compares two doubles as IEEE 754 does.
pub fn compare_numbers(a: u64, b: u64) -> (c: Comparison)
    ensures
        c == number_order(a, b),
{
    if is_nan(a) || is_nan(b) {
        return Comparison::Unordered;
    }
    let a_magnitude: u64 = if a >= SIGN_BIT { a - SIGN_BIT } else { a };
    let b_magnitude: u64 = if b >= SIGN_BIT { b - SIGN_BIT } else { b };
    if a >= SIGN_BIT && b >= SIGN_BIT {
        // Both negative: the larger magnitude is the smaller number.
        if a_magnitude > b_magnitude {
            Comparison::Less
        } else if a_magnitude == b_magnitude {
            Comparison::Equal
        } else {
            Comparison::Greater
        }
    } else if a >= SIGN_BIT {
        if a_magnitude == 0 && b_magnitude == 0 {
            Comparison::Equal
        } else {
            Comparison::Less
        }
    } else if b >= SIGN_BIT {
        if a_magnitude == 0 && b_magnitude == 0 {
            Comparison::Equal
        } else {
            Comparison::Greater
        }
    } else if a_magnitude < b_magnitude {
        Comparison::Less
    } else if a_magnitude == b_magnitude {
        Comparison::Equal
    } else {
        Comparison::Greater
    }
}

/// Swapping the operands mirrors the comparison.
pub proof fn number_order_mirrors(a: u64, b: u64)
    ensures
        number_order(b, a) == mirrored(number_order(a, b)),
{
}

/// A number that is no NaN equals itself; a NaN is unordered even with itself.
pub proof fn number_order_reflexive(a: u64)
    ensures
        number_order(a, a) == if nan(a) {
            Comparison::Unordered
        } else {
            Comparison::Equal
        },
{
}

/// The order of the numbers is transitive, and equality carries an order over.
pub proof fn number_order_transitive(a: u64, b: u64, c: u64)
    ensures
        number_order(a, b) == Comparison::Less && number_order(b, c) == Comparison::Less
            ==> number_order(a, c) == Comparison::Less,
        number_order(a, b) == Comparison::Equal && number_order(b, c) == Comparison::Equal
            ==> number_order(a, c) == Comparison::Equal,
        number_order(a, b) == Comparison::Equal ==> number_order(a, c) == number_order(b, c),
{
}

} // verus!
