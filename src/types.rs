use vstd::prelude::*;

verus! {

/// A single-precision number carried by its IEEE-754 bit pattern. The
/// library only stores, compares and hands such values on; arithmetic on
/// them happens on the host side.
#[derive(Clone, Copy, Debug, PartialEq, Eq, Hash, Structural)]
pub struct RealBits {
    pub bits: u32,
}

pub const REAL_ZERO_BITS: u32 = 0;

pub const REAL_ONE_BITS: u32 = 0x3f80_0000;

/// `x < 0.0` for the number with bit pattern `bits`: the sign is set, the
/// value is not a zero and not a NaN.
pub open spec fn real_is_negative(bits: u32) -> bool {
    &&& bits >= 0x8000_0000
    &&& bits != 0x8000_0000
    &&& bits <= 0xff80_0000
}

impl RealBits {
    pub fn is_negative(&self) -> (r: bool)
        ensures
            r == real_is_negative(self.bits),
    {
        self.bits >= 0x8000_0000 && self.bits != 0x8000_0000 && self.bits <= 0xff80_0000
    }
}

/// `a == b` for the numbers with bit patterns `a` and `b`: a NaN equals
/// nothing, the two zeros are equal, and otherwise equal numbers have equal
/// patterns.
pub open spec fn real_eq(a: u32, b: u32) -> bool {
    if (a & 0x7fff_ffff) > 0x7f80_0000 || (b & 0x7fff_ffff) > 0x7f80_0000 {
        false
    } else if (a & 0x7fff_ffff) == 0 && (b & 0x7fff_ffff) == 0 {
        true
    } else {
        a == b
    }
}

impl RealBits {
    /// Number equality, as `==` on `f32` has it.
    pub fn same_value(&self, other: &RealBits) -> (r: bool)
        ensures
            r == real_eq(self.bits, other.bits),
    {
        if (self.bits & 0x7fff_ffff) > 0x7f80_0000 || (other.bits & 0x7fff_ffff) > 0x7f80_0000 {
            false
        } else if (self.bits & 0x7fff_ffff) == 0 && (other.bits & 0x7fff_ffff) == 0 {
            true
        } else {
            self.bits == other.bits
        }
    }
}

/// Component-wise number equality of two vectors.
pub open spec fn vector_eq(a: Vector, b: Vector) -> bool {
    real_eq(a.x.bits, b.x.bits) && real_eq(a.y.bits, b.y.bits)
}

/// A two-dimensional vector of single-precision numbers.
#[derive(Clone, Copy, Debug, PartialEq, Eq, Hash, Structural)]
pub struct Vector {
    pub x: RealBits,
    pub y: RealBits,
}

pub open spec fn zero_vector() -> Vector {
    Vector { x: RealBits { bits: REAL_ZERO_BITS }, y: RealBits { bits: REAL_ZERO_BITS } }
}

impl Vector {
    pub fn same_value(&self, other: &Vector) -> (r: bool)
        ensures
            r == vector_eq(*self, *other),
    {
        self.x.same_value(&other.x) && self.y.same_value(&other.y)
    }
}

impl Default for Vector {
    fn default() -> (r: Vector)
        ensures
            r == zero_vector(),
    {
        Vector { x: RealBits { bits: REAL_ZERO_BITS }, y: RealBits { bits: REAL_ZERO_BITS } }
    }
}

/// A two-dimensional affine transform: the x axis, the y axis and the origin.
#[derive(Clone, Copy, Debug, PartialEq, Eq, Hash, Structural)]
pub struct Transform {
    pub a: Vector,
    pub b: Vector,
    pub origin: Vector,
}

pub open spec fn identity_transform() -> Transform {
    Transform {
        a: Vector { x: RealBits { bits: REAL_ONE_BITS }, y: RealBits { bits: REAL_ZERO_BITS } },
        b: Vector { x: RealBits { bits: REAL_ZERO_BITS }, y: RealBits { bits: REAL_ONE_BITS } },
        origin: zero_vector(),
    }
}

impl Default for Transform {
    fn default() -> (r: Transform)
        ensures
            r == identity_transform(),
    {
        let zero = RealBits { bits: REAL_ZERO_BITS };
        let one = RealBits { bits: REAL_ONE_BITS };
        Transform {
            a: Vector { x: one, y: zero },
            b: Vector { x: zero, y: one },
            origin: Vector { x: zero, y: zero },
        }
    }
}

/// An axis-aligned rectangle: its lowest corner and its extent.
#[derive(Clone, Copy, Debug, PartialEq, Eq, Hash, Structural)]
pub struct Rect {
    pub position: Vector,
    pub size: Vector,
}

impl Default for Rect {
    fn default() -> (r: Rect)
        ensures
            r == (Rect { position: zero_vector(), size: zero_vector() }),
    {
        Rect { position: Vector::default(), size: Vector::default() }
    }
}

} // verus!
