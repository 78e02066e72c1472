//! Coordinates as the library carries them.
//!
//! The simulation's coordinates are single-precision numbers. The library
//! never calculates with them: it stores them, copies them, and hands them
//! back. It therefore keeps each one as its IEEE-754 bit pattern, which makes
//! "the same coordinate" an exact notion; callers convert at the boundary
//! with `from_bits` and `to_bits`.

use vstd::prelude::*;

verus! {

/// Bit pattern of the number 0.
pub const ZERO_BITS: u32 = 0x0000_0000;

/// Bit pattern of the number 1.
pub const ONE_BITS: u32 = 0x3F80_0000;

/// Bit pattern of the number 5.
pub const FIVE_BITS: u32 = 0x40A0_0000;

/// Bit pattern of the number 10.
pub const TEN_BITS: u32 = 0x4120_0000;

/// One single-precision number, held as its bit pattern.
#[derive(Clone, Copy, Debug, PartialEq, Eq, Structural)]
pub struct Scalar {
    pub bits: u32,
}

impl Scalar {
    /// The number with the given bit pattern.
    pub fn from_bits(bits: u32) -> (scalar: Scalar)
        ensures
            scalar.bits == bits,
    {
        Scalar { bits }
    }

    /// The bit pattern of the number.
    pub fn to_bits(self) -> (bits: u32)
        ensures
            bits == self.bits,
    {
        self.bits
    }
}

/// A place on a map.
#[derive(Clone, Copy, Debug, PartialEq, Eq, Structural)]
pub struct Point {
    pub x: Scalar,
    pub y: Scalar,
}

impl Point {
    /// The place with the given coordinates.
    pub fn new(x: Scalar, y: Scalar) -> (point: Point)
        ensures
            point == (Point { x, y }),
    {
        Point { x, y }
    }
}

/// A displacement per unit of time.
#[derive(Clone, Copy, Debug, PartialEq, Eq, Structural)]
pub struct Vector {
    pub x: Scalar,
    pub y: Scalar,
}

impl Vector {
    /// The displacement with the given components.
    pub fn new(x: Scalar, y: Scalar) -> (vector: Vector)
        ensures
            vector == (Vector { x, y }),
    {
        Vector { x, y }
    }

    /// The displacement of something at rest.
    pub fn zero() -> (vector: Vector)
        ensures
            vector == (Vector { x: Scalar { bits: ZERO_BITS }, y: Scalar { bits: ZERO_BITS } }),
    {
        Vector { x: Scalar { bits: ZERO_BITS }, y: Scalar { bits: ZERO_BITS } }
    }
}

} // verus!
