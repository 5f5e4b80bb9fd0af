//! Plain-integer models of the small vector types that decoded scene
//! data is made of.
//!
//! Each component is the raw bit pattern of an `f32` (as produced by
//! `f32::to_bits`). The decoder never does arithmetic on components; it
//! only moves them and fills in fixed defaults, so the bit-pattern view
//! is exact.

use vstd::prelude::*;

verus! {

/// Bit pattern of `0.0f32`.
pub const F32_BITS_ZERO: u32 = 0x0000_0000;

/// Bit pattern of `1.0f32`.
pub const F32_BITS_ONE: u32 = 0x3F80_0000;

/// A three-component vector of `f32` bit patterns.
#[derive(Debug, Clone, Copy, PartialEq, Eq, Structural)]
pub struct Vec3Bits {
    pub x: u32,
    pub y: u32,
    pub z: u32,
}

/// A two-component vector of `f32` bit patterns.
#[derive(Debug, Clone, Copy, PartialEq, Eq, Structural)]
pub struct Vec2Bits {
    pub x: u32,
    pub y: u32,
}

/// A quaternion of `f32` bit patterns.
#[derive(Debug, Clone, Copy, PartialEq, Eq, Structural)]
pub struct QuatBits {
    pub x: u32,
    pub y: u32,
    pub z: u32,
    pub w: u32,
}

/// An RGBA color of `f32` bit patterns.
#[derive(Debug, Clone, Copy, PartialEq, Eq, Structural)]
pub struct ColorBits {
    pub r: u32,
    pub g: u32,
    pub b: u32,
    pub a: u32,
}

/// The upward unit vector (0, 1, 0), the normal synthesized for
/// vertices whose source primitive declares none.
pub open spec fn spec_default_normal() -> Vec3Bits {
    Vec3Bits { x: F32_BITS_ZERO, y: F32_BITS_ONE, z: F32_BITS_ZERO }
}

/// The zero UV coordinate (0, 0), synthesized for vertices whose
/// source primitive declares no texture coordinates.
pub open spec fn spec_default_uv() -> Vec2Bits {
    Vec2Bits { x: F32_BITS_ZERO, y: F32_BITS_ZERO }
}

/// Opaque white (1, 1, 1, 1), the base-color factor a source material
/// gets when it declares none.
pub open spec fn spec_default_base_color() -> ColorBits {
    ColorBits { r: F32_BITS_ONE, g: F32_BITS_ONE, b: F32_BITS_ONE, a: F32_BITS_ONE }
}

/// Runtime value of [`spec_default_normal`].
pub fn default_normal() -> (r: Vec3Bits)
    ensures
        r == spec_default_normal(),
{
    Vec3Bits { x: F32_BITS_ZERO, y: F32_BITS_ONE, z: F32_BITS_ZERO }
}

/// Runtime value of [`spec_default_uv`].
pub fn default_uv() -> (r: Vec2Bits)
    ensures
        r == spec_default_uv(),
{
    Vec2Bits { x: F32_BITS_ZERO, y: F32_BITS_ZERO }
}

/// Runtime value of [`spec_default_base_color`].
pub fn default_base_color() -> (r: ColorBits)
    ensures
        r == spec_default_base_color(),
{
    ColorBits { r: F32_BITS_ONE, g: F32_BITS_ONE, b: F32_BITS_ONE, a: F32_BITS_ONE }
}

} // verus!
