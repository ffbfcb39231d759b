//! Lengths in logical pixels.
//!
//! The UI toolkit stores a length as an IEEE-754 binary32 number. Here a
//! length is held as that number's bit pattern, and the few comparisons that
//! the scroll logic makes are defined on the bit pattern exactly as IEEE-754
//! defines them on the number: the sign is the top bit, and with the sign
//! cleared, the patterns of non-NaN numbers are ordered as the numbers are.
use vstd::prelude::*;

verus! {

/// The bits of a binary32 number that hold its magnitude.
pub const MAGNITUDE_MASK: u32 = 0x7fff_ffff;

/// The pattern of positive infinity; patterns of greater magnitude are NaN.
pub const INFINITY_BITS: u32 = 0x7f80_0000;

/// The magnitude of the number with pattern `bits`, as a pattern: the
/// pattern of its absolute value.
pub open spec fn magnitude(bits: u32) -> u32 {
    bits & MAGNITUDE_MASK
}

/// The number with pattern `bits` is NaN.
pub open spec fn is_nan(bits: u32) -> bool {
    magnitude(bits) > INFINITY_BITS
}

/// The number with pattern `bits` equals zero (positive or negative zero).
pub open spec fn is_zero(bits: u32) -> bool {
    magnitude(bits) == 0
}

/// `|a| > |b|` for the numbers with patterns `a` and `b`: false where either
/// is NaN, as every ordered comparison with NaN is.
pub open spec fn abs_greater(a: u32, b: u32) -> bool {
    !is_nan(a) && !is_nan(b) && magnitude(a) > magnitude(b)
}

/// `a == b` for the numbers with patterns `a` and `b`: NaN equals nothing,
/// and the two zeros are equal.
pub open spec fn numbers_equal(a: u32, b: u32) -> bool {
    !is_nan(a) && !is_nan(b) && (a == b || (is_zero(a) && is_zero(b)))
}

/// A length in logical pixels, held as the bit pattern of its binary32
/// value.
#[derive(Clone, Copy, Debug)]
pub struct Pixels {
    pub bits: u32,
}

impl Pixels {
    /// Positive zero.
    pub fn zero() -> (r: Pixels)
        ensures
            r.bits == 0,
            is_zero(r.bits),
    {
        assert(0u32 & 0x7fff_ffffu32 == 0) by (bit_vector);
        Pixels { bits: 0 }
    }

    /// The length whose binary32 pattern is `bits`.
    pub fn from_bits(bits: u32) -> (r: Pixels)
        ensures
            r.bits == bits,
    {
        Pixels { bits }
    }

    /// The binary32 pattern of this length.
    pub fn to_bits(&self) -> (r: u32)
        ensures
            r == self.bits,
    {
        self.bits
    }

    /// Whether this length equals zero.
    pub fn is_zero(&self) -> (r: bool)
        ensures
            r == is_zero(self.bits),
            r == (self.bits & 0x7fff_ffffu32 == 0),
    {
        self.bits & MAGNITUDE_MASK == 0
    }

    /// Whether `|self| > |other|`.
    pub fn abs_greater(&self, other: &Pixels) -> (r: bool)
        ensures
            r == abs_greater(self.bits, other.bits),
            r == ((self.bits & 0x7fff_ffffu32) <= 0x7f80_0000u32 && (other.bits & 0x7fff_ffffu32)
                <= 0x7f80_0000u32 && (self.bits & 0x7fff_ffffu32) > (other.bits & 0x7fff_ffffu32)),
    {
        let a: u32 = self.bits & MAGNITUDE_MASK;
        let b: u32 = other.bits & MAGNITUDE_MASK;
        a <= INFINITY_BITS && b <= INFINITY_BITS && a > b
    }

    /// Whether the two lengths are equal as numbers.
    pub fn equals(&self, other: &Pixels) -> (r: bool)
        ensures
            r == numbers_equal(self.bits, other.bits),
            r == ((self.bits & 0x7fff_ffffu32) <= 0x7f80_0000u32 && (other.bits & 0x7fff_ffffu32)
                <= 0x7f80_0000u32 && (self.bits == other.bits || ((self.bits & 0x7fff_ffffu32) == 0
                && (other.bits & 0x7fff_ffffu32) == 0))),
    {
        let a: u32 = self.bits & MAGNITUDE_MASK;
        let b: u32 = other.bits & MAGNITUDE_MASK;
        a <= INFINITY_BITS && b <= INFINITY_BITS && (self.bits == other.bits || (a == 0 && b == 0))
    }
}

/// A point, or a two-dimensional offset, in logical pixels.
#[derive(Clone, Copy, Debug)]
pub struct Point {
    pub x: Pixels,
    pub y: Pixels,
}

/// The two points are equal coordinate by coordinate, as numbers.
pub open spec fn points_equal(a: Point, b: Point) -> bool {
    numbers_equal(a.x.bits, b.x.bits) && numbers_equal(a.y.bits, b.y.bits)
}

impl Point {
    pub fn new(x: Pixels, y: Pixels) -> (r: Point)
        ensures
            r.x == x,
            r.y == y,
    {
        Point { x, y }
    }

    /// Whether the two points are equal coordinate by coordinate.
    pub fn equals(&self, other: &Point) -> (r: bool)
        ensures
            r == points_equal(*self, *other),
    {
        self.x.equals(&other.x) && self.y.equals(&other.y)
    }
}

/// A number that is not NaN equals itself.
pub proof fn lemma_numbers_equal_reflexive(a: u32)
    requires
        !is_nan(a),
    ensures
        numbers_equal(a, a),
{
}

/// The IEEE-754 reading of the predicates, written on the bits: with the
/// sign bit cleared, a pattern above that of infinity is NaN, the pattern 0 is
/// zero, and non-NaN magnitudes are ordered as their patterns are; two
/// non-NaN numbers are equal when their patterns are, or when both are zeros.
pub proof fn law_predicates_read_binary32(a: u32, b: u32)
    ensures
        is_nan(a) <==> (a & 0x7fff_ffffu32) > 0x7f80_0000u32,
        is_zero(a) <==> (a & 0x7fff_ffffu32) == 0,
        abs_greater(a, b) <==> ((a & 0x7fff_ffffu32) <= 0x7f80_0000u32 && (b & 0x7fff_ffffu32)
            <= 0x7f80_0000u32 && (a & 0x7fff_ffffu32) > (b & 0x7fff_ffffu32)),
        numbers_equal(a, b) <==> ((a & 0x7fff_ffffu32) <= 0x7f80_0000u32 && (b & 0x7fff_ffffu32)
            <= 0x7f80_0000u32 && (a == b || ((a & 0x7fff_ffffu32) == 0 && (b & 0x7fff_ffffu32)
            == 0))),
{
}

/// For numbers that are not NaN, `|a| > |b|` holds exactly when the
/// magnitude bits of `a` exceed those of `b`; and of two non-NaN numbers, one
/// of `|a| > |b|`, `|b| > |a|`, `|a| == |b|` holds.
pub proof fn law_abs_greater_is_magnitude_order(a: u32, b: u32)
    requires
        (a & 0x7fff_ffffu32) <= 0x7f80_0000u32,
        (b & 0x7fff_ffffu32) <= 0x7f80_0000u32,
    ensures
        abs_greater(a, b) <==> (a & 0x7fff_ffffu32) > (b & 0x7fff_ffffu32),
        !abs_greater(a, b) && !abs_greater(b, a) <==> (a & 0x7fff_ffffu32) == (b
            & 0x7fff_ffffu32),
        !(abs_greater(a, b) && abs_greater(b, a)),
{
}

} // verus!
