//! Coordinates and regions.
//!
//! The scene stores and hands on coordinates but never computes with them, so
//! a coordinate is kept as the bit pattern of a binary64 number.

use vstd::prelude::*;

verus! {

/// A binary64 number, held by its IEEE 754 bit pattern.
#[derive(Clone, Copy, Debug, PartialEq, Eq, Structural)]
pub struct Scalar {
    pub bits: u64,
}

impl Scalar {
    /// The scalar with the given bit pattern.
    pub fn from_bits(bits: u64) -> (s: Scalar)
        ensures
            s.bits == bits,
    {
        Scalar { bits }
    }

    /// The bit pattern of this scalar.
    pub fn to_bits(&self) -> (bits: u64)
        ensures
            bits == self.bits,
    {
        self.bits
    }
}

/// A position on the surface. A point is a value: moving a shape replaces its
/// point as a whole.
#[derive(Clone, Copy, Debug, PartialEq, Eq, Structural)]
pub struct Point {
    pub x: Scalar,
    pub y: Scalar,
}

/// An axis-aligned region of the surface: an origin and two extents.
#[derive(Clone, Copy, Debug, PartialEq, Eq, Structural)]
pub struct Region {
    pub origin: Point,
    pub width: Scalar,
    pub height: Scalar,
}

} // verus!
