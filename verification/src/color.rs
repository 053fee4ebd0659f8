//! Byte-per-channel RGB colors, converted to and from the fixed-point
//! vector representation that the lighting math works in.

use vstd::prelude::*;
use crate::math::Vector3;
use crate::num::SCALE;

verus! {

#[derive(Debug, Clone, Copy, PartialEq, Eq, Structural)]
pub struct Color {
    pub r: u8,
    pub g: u8,
    pub b: u8,
}

/// A byte channel as a fixed-point value in `[0, 1]`: `c / 255`.
pub open spec fn channel_to_fx_spec(c: u8) -> i64 {
    ((c * SCALE) / 255) as i64
}

/// A fixed-point component clamped to `[0, 1]`.
pub open spec fn clamp_unit_spec(c: i64) -> i64 {
    if c < 0 {
        0
    } else if c > SCALE {
        SCALE
    } else {
        c
    }
}

/// A fixed-point component as a byte channel: clamp to `[0, 1]`, scale by
/// 255 and truncate.
pub open spec fn fx_to_channel_spec(c: i64) -> u8 {
    ((clamp_unit_spec(c) * 255) / (SCALE as int)) as u8
}

pub open spec fn color_to_vector3_spec(c: Color) -> Vector3 {
    Vector3 { x: channel_to_fx_spec(c.r), y: channel_to_fx_spec(c.g), z: channel_to_fx_spec(c.b) }
}

pub open spec fn color_from_vector3_spec(v: Vector3) -> Color {
    Color { r: fx_to_channel_spec(v.x), g: fx_to_channel_spec(v.y), b: fx_to_channel_spec(v.z) }
}

fn channel_to_fx(c: u8) -> (r: i64)
    ensures
        r == channel_to_fx_spec(c),
{
    ((c as u64 * SCALE as u64) / 255) as i64
}

fn fx_to_channel(c: i64) -> (r: u8)
    ensures
        r == fx_to_channel_spec(c),
{
    let clamped: i64 = if c < 0 {
        0
    } else if c > SCALE {
        SCALE
    } else {
        c
    };
    ((clamped as u64 * 255) / SCALE as u64) as u8
}

impl Color {
    pub fn new(r: u8, g: u8, b: u8) -> (c: Self)
        ensures
            c == (Color { r, g, b }),
    {
        Self { r, g, b }
    }

    pub fn black() -> (c: Self)
        ensures
            c == (Color { r: 0u8, g: 0u8, b: 0u8 }),
    {
        Color { r: 0, g: 0, b: 0 }
    }

    pub fn white() -> (c: Self)
        ensures
            c == (Color { r: 255u8, g: 255u8, b: 255u8 }),
    {
        Color { r: 255, g: 255, b: 255 }
    }

    /// The color as a vector of components in `[0, 1]`.
    pub fn to_vector3(&self) -> (v: Vector3)
        ensures
            v == color_to_vector3_spec(*self),
    {
        Vector3 {
            x: channel_to_fx(self.r),
            y: channel_to_fx(self.g),
            z: channel_to_fx(self.b),
        }
    }

    /// A component vector quantized to bytes, clamping out-of-range
    /// components first.
    pub fn from_vector3(v: &Vector3) -> (c: Self)
        ensures
            c == color_from_vector3_spec(*v),
    {
        Color { r: fx_to_channel(v.x), g: fx_to_channel(v.y), b: fx_to_channel(v.z) }
    }
}

} // verus!
