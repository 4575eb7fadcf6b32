//! Numbers of the physical model, held by their bit patterns.

use vstd::prelude::*;

verus! {

/// Bits of a binary64 number that are not the sign.
pub const MAGNITUDE_MASK: u64 = 0x7fff_ffff_ffff_ffff;

/// Magnitude bits of positive infinity; any larger magnitude is a NaN.
pub const INFINITY_BITS: u64 = 0x7ff0_0000_0000_0000;

/// An IEEE 754 binary64 number, held by its bit pattern.
#[derive(Clone, Copy, Debug, PartialEq, Eq, Structural)]
pub struct Real {
    pub bits: u64,
}

impl Real {
    /// The bit pattern without its sign.
    pub open spec fn magnitude(self) -> u64 {
        self.bits & MAGNITUDE_MASK
    }

    /// Whether the pattern encodes no number.
    pub open spec fn nan(self) -> bool {
        self.magnitude() > INFINITY_BITS
    }

    /// Whether the pattern encodes zero, of either sign.
    pub open spec fn zero(self) -> bool {
        self.magnitude() == 0
    }

    /// Numerical equality: both are numbers, and they are the same pattern or
    /// both zero.
    pub open spec fn same_number(self, other: Real) -> bool {
        &&& !self.nan()
        &&& !other.nan()
        &&& (self.bits == other.bits || (self.zero() && other.zero()))
    }

    /// The number with the bit pattern `bits`.
    pub fn from_bits(bits: u64) -> (r: Real)
        ensures
            r.bits == bits,
    {
        Real { bits }
    }

    /// The bit pattern of the number.
    pub fn to_bits(self) -> (bits: u64)
        ensures
            bits == self.bits,
    {
        self.bits
    }

    /// Whether this is no number.
    pub fn is_nan(self) -> (r: bool)
        ensures
            r == self.nan(),
    {
        (self.bits & MAGNITUDE_MASK) > INFINITY_BITS
    }

    /// Whether this is zero, of either sign.
    pub fn is_zero(self) -> (r: bool)
        ensures
            r == self.zero(),
    {
        (self.bits & MAGNITUDE_MASK) == 0
    }

    /// Whether the two are equal as numbers.
    pub fn equals(self, other: Real) -> (r: bool)
        ensures
            r == self.same_number(other),
    {
        !self.is_nan() && !other.is_nan() && (self.bits == other.bits || (self.is_zero()
            && other.is_zero()))
    }
}

/// A complex number, by real and imaginary part.
#[derive(Clone, Copy, Debug, PartialEq, Eq, Structural)]
pub struct Cplx {
    pub re: Real,
    pub im: Real,
}

/// A point or a vector in space.
#[derive(Clone, Copy, Debug, PartialEq, Eq, Structural)]
pub struct Point {
    pub x: Real,
    pub y: Real,
    pub z: Real,
}

impl Point {
    /// Whether the two are the same place: equal in each coordinate.
    pub open spec fn coincides(self, other: Point) -> bool {
        &&& self.x.same_number(other.x)
        &&& self.y.same_number(other.y)
        &&& self.z.same_number(other.z)
    }

    /// Whether every coordinate is a number.
    pub open spec fn defined(self) -> bool {
        !self.x.nan() && !self.y.nan() && !self.z.nan()
    }

    /// Whether the two are the same place.
    pub fn coincides_with(self, other: Point) -> (r: bool)
        ensures
            r == self.coincides(other),
    {
        self.x.equals(other.x) && self.y.equals(other.y) && self.z.equals(other.z)
    }
}

/// A copy of `values`.
pub fn copy_of<T: Copy>(values: &Vec<T>) -> (copy: Vec<T>)
    ensures
        copy@ == values@,
{
    let mut copy: Vec<T> = Vec::new();
    let mut i: usize = 0;
    while i < values.len()
        invariant
            i <= values.len(),
            copy@ == values@.take(i as int),
        decreases values.len() - i,
    {
        copy.push(values[i]);
        assert(values@.take(i + 1) =~= values@.take(i as int).push(values@[i as int]));
        i += 1;
    }
    assert(values@.take(values@.len() as int) =~= values@);
    copy
}

/// Coinciding is an equivalence on points whose coordinates are numbers.
pub proof fn lemma_coincides_equivalence(a: Point, b: Point, c: Point)
    ensures
        a.defined() ==> a.coincides(a),
        a.coincides(b) ==> b.coincides(a),
        a.coincides(b) && b.coincides(c) ==> a.coincides(c),
{
}

} // verus!
