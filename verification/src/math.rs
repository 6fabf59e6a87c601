use vstd::prelude::*;

verus! {

/// A 2-component vector of IEEE-754 single-precision bit patterns.
///
/// The rendering core never interprets the numeric value of a float: it
/// forwards each component to the GPU unchanged, so components are carried as
/// their raw 32-bit patterns.
#[derive(Clone, Copy, PartialEq, Eq, Structural, Debug)]
pub struct Vec2Bits {
    pub x: u32,
    pub y: u32,
}

/// A 3-component vector of IEEE-754 single-precision bit patterns.
#[derive(Clone, Copy, PartialEq, Eq, Structural, Debug)]
pub struct Vec3Bits {
    pub x: u32,
    pub y: u32,
    pub z: u32,
}

/// A 4-component vector of IEEE-754 single-precision bit patterns.
#[derive(Clone, Copy, PartialEq, Eq, Structural, Debug)]
pub struct Vec4Bits {
    pub x: u32,
    pub y: u32,
    pub z: u32,
    pub w: u32,
}

/// The bit pattern of 0.0f32.
pub const ZERO_BITS: u32 = 0;

/// The bit pattern of 0.5f32.
pub const HALF_BITS: u32 = 0x3F00_0000;

/// The bit pattern of -0.5f32.
pub const NEG_HALF_BITS: u32 = 0xBF00_0000;

/// The bit pattern of 1.0f32.
pub const ONE_BITS: u32 = 0x3F80_0000;

/// The bit pattern of -1.0f32.
pub const NEG_ONE_BITS: u32 = 0xBF80_0000;

/// A 4x4 matrix of IEEE-754 bit patterns, held as four columns
/// (column-major, as the GPU consumes it).
#[derive(Clone, Copy, PartialEq, Eq, Structural, Debug)]
pub struct Mat4Cols {
    pub c0: Vec4Bits,
    pub c1: Vec4Bits,
    pub c2: Vec4Bits,
    pub c3: Vec4Bits,
}

impl Vec2Bits {
    pub fn new(x: u32, y: u32) -> (r: Vec2Bits)
        ensures
            r == (Vec2Bits { x, y }),
    {
        Vec2Bits { x, y }
    }
}

impl Vec3Bits {
    pub fn new(x: u32, y: u32, z: u32) -> (r: Vec3Bits)
        ensures
            r == (Vec3Bits { x, y, z }),
    {
        Vec3Bits { x, y, z }
    }
}

impl Vec4Bits {
    pub fn new(x: u32, y: u32, z: u32, w: u32) -> (r: Vec4Bits)
        ensures
            r == (Vec4Bits { x, y, z, w }),
    {
        Vec4Bits { x, y, z, w }
    }
}

} // verus!
