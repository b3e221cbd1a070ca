//! Display-ready 8-bit colors.

use vstd::prelude::*;

verus! {

#[derive(Clone, Copy, Debug, Default, PartialEq, Eq, Structural)]
pub struct Color {
    pub r: u8,
    pub g: u8,
    pub b: u8,
}

/// `v` limited to one channel's range.
pub open spec fn clamp_channel(v: int) -> u8 {
    if v < 0 {
        0
    } else if v > 255 {
        255
    } else {
        v as u8
    }
}

fn saturating_channel(a: u8, b: u8) -> (r: u8)
    ensures
        r == clamp_channel(a + b),
{
    if a as u16 + b as u16 > 255 {
        255
    } else {
        a + b
    }
}

fn scaled_channel(c: u8, k: i32) -> (r: u8)
    ensures
        r == clamp_channel(k * c),
{
    proof {
        assert(-2147483648 * 255 <= k * c <= 2147483647 * 255) by (nonlinear_arith)
            requires i32::MIN <= k <= i32::MAX, 0 <= c <= 255;
    }
    let v: i64 = k as i64 * c as i64;
    if v < 0 {
        0
    } else if v > 255 {
        255
    } else {
        v as u8
    }
}

impl Color {
    pub fn new(r: u8, g: u8, b: u8) -> (c: Color)
        ensures
            c == (Color { r, g, b }),
    {
        Color { r, g, b }
    }

    pub fn black() -> (c: Color)
        ensures
            c == (Color { r: 0, g: 0, b: 0 }),
    {
        Color { r: 0, g: 0, b: 0 }
    }

    /// Channel-wise sum, saturating at full brightness.
    pub fn add(self, other: Color) -> (c: Color)
        ensures
            c.r == clamp_channel(self.r + other.r),
            c.g == clamp_channel(self.g + other.g),
            c.b == clamp_channel(self.b + other.b),
    {
        Color {
            r: saturating_channel(self.r, other.r),
            g: saturating_channel(self.g, other.g),
            b: saturating_channel(self.b, other.b),
        }
    }

    /// Channel-wise integer scaling, clamped to the channel range.
    pub fn mul(self, k: i32) -> (c: Color)
        ensures
            c.r == clamp_channel(k * self.r),
            c.g == clamp_channel(k * self.g),
            c.b == clamp_channel(k * self.b),
    {
        Color {
            r: scaled_channel(self.r, k),
            g: scaled_channel(self.g, k),
            b: scaled_channel(self.b, k),
        }
    }
}

} // verus!
