use vstd::prelude::*;

verus! {

/// Bit pattern of +0.0 in IEEE-754 single precision.
pub const ZERO_BITS: u32 = 0x0000_0000;

/// Bit pattern of 0.5 in IEEE-754 single precision.
pub const HALF_BITS: u32 = 0x3F00_0000;

/// Bit pattern of 1.0 in IEEE-754 single precision.
pub const ONE_BITS: u32 = 0x3F80_0000;

/// A single-precision value carried by its IEEE-754 bit pattern.
///
/// The command list stores and forwards such values without computing on
/// them, so holding the exact bits keeps every payload lossless; the
/// rendering side turns them back into numbers.
#[derive(Clone, Copy, PartialEq, Eq, Structural, Debug)]
pub struct Scalar {
    pub bits: u32,
}

impl Scalar {
    pub fn from_bits(bits: u32) -> (r: Scalar)
        ensures
            r.bits == bits,
    {
        Scalar { bits }
    }

    pub fn to_bits(self) -> (r: u32)
        ensures
            r == self.bits,
    {
        self.bits
    }

    pub fn zero() -> (r: Scalar)
        ensures
            r.bits == ZERO_BITS,
    {
        Scalar { bits: ZERO_BITS }
    }
}

/// A 2D point or offset.
#[derive(Clone, Copy, PartialEq, Eq, Structural, Debug)]
pub struct Point {
    pub x: Scalar,
    pub y: Scalar,
}

/// An RGBA color.
#[derive(Clone, Copy, PartialEq, Eq, Structural, Debug)]
pub struct Color {
    pub r: Scalar,
    pub g: Scalar,
    pub b: Scalar,
    pub a: Scalar,
}

impl Point {
    pub fn new(x: Scalar, y: Scalar) -> (r: Point)
        ensures
            r.x == x,
            r.y == y,
    {
        Point { x, y }
    }
}

} // verus!
