//! Colors as triples of fixed-point channel intensities.
//!
//! A display byte value `n` is stored as the scalar `n * FP_ONE`, so
//! colors can accumulate beyond the displayable range during shading;
//! channels are clamped to `[0, 255]` only when a color is packed into
//! a display pixel.

use crate::fixed::fp_add;
use crate::fixed::fp_add_s;
use crate::fixed::fp_mul;
use crate::fixed::fp_mul_s;
use vstd::prelude::*;

verus! {

/// The mathematical image of a color: its channels as unbounded
/// integers (scaled by `FP_ONE`).
pub ghost struct C3i {
    pub r: int,
    pub g: int,
    pub b: int,
}

#[derive(Clone, Copy, PartialEq, Eq, Structural, Debug)]
pub struct Color {
    pub r: i64,
    pub g: i64,
    pub b: i64,
}

pub open spec fn c3(c: Color) -> C3i {
    C3i { r: c.r as int, g: c.g as int, b: c.b as int }
}

/// The color with the given display byte values.
pub open spec fn c_bytes_s(r: int, g: int, b: int) -> C3i {
    C3i { r: r * 65536, g: g * 65536, b: b * 65536 }
}

pub open spec fn czero_s() -> C3i {
    C3i { r: 0, g: 0, b: 0 }
}

/// Every channel nonnegative.
pub open spec fn c_nonneg_s(c: C3i) -> bool {
    c.r >= 0 && c.g >= 0 && c.b >= 0
}

pub open spec fn cadd_s(a: C3i, b: C3i) -> C3i {
    C3i { r: fp_add_s(a.r, b.r), g: fp_add_s(a.g, b.g), b: fp_add_s(a.b, b.b) }
}

pub open spec fn cscale_s(a: C3i, k: int) -> C3i {
    C3i { r: fp_mul_s(a.r, k), g: fp_mul_s(a.g, k), b: fp_mul_s(a.b, k) }
}

/// One channel clamped to the displayable range and reduced to a byte.
pub open spec fn byte_of_s(ch: int) -> int {
    let c = if ch < 0 {
        0
    } else if ch > 16711680 {
        16711680
    } else {
        ch
    };
    c / 65536
}

/// The 24-bit packed pixel `(r << 16) | (g << 8) | b`.
pub open spec fn to_hex_s(c: C3i) -> int {
    byte_of_s(c.r) * 65536 + byte_of_s(c.g) * 256 + byte_of_s(c.b)
}

/// One channel clamped and reduced to a display byte.
fn channel_byte(ch: i64) -> (r: u32)
    ensures
        r as int == byte_of_s(ch as int),
        r <= 255,
{
    let c: i64 = if ch < 0 {
        0
    } else if ch > 16711680 {
        16711680
    } else {
        ch
    };
    ((c as u64) / 65536) as u32
}

impl Color {
    pub fn new(r: u8, g: u8, b: u8) -> (c: Color)
        ensures
            c3(c) == c_bytes_s(r as int, g as int, b as int),
    {
        Color { r: (r as i64) * 65536, g: (g as i64) * 65536, b: (b as i64) * 65536 }
    }

    pub fn black() -> (c: Color)
        ensures
            c3(c) == czero_s(),
    {
        Color { r: 0, g: 0, b: 0 }
    }

    pub fn plus(&self, o: &Color) -> (c: Color)
        ensures
            c3(c) == cadd_s(c3(*self), c3(*o)),
    {
        Color { r: fp_add(self.r, o.r), g: fp_add(self.g, o.g), b: fp_add(self.b, o.b) }
    }

    pub fn scale(&self, k: i64) -> (c: Color)
        ensures
            c3(c) == cscale_s(c3(*self), k as int),
    {
        Color { r: fp_mul(self.r, k), g: fp_mul(self.g, k), b: fp_mul(self.b, k) }
    }

    /// The packed display pixel of this color.
    pub fn to_hex(&self) -> (h: u32)
        ensures
            h as int == to_hex_s(c3(*self)),
            h <= 0xffffff,
    {
        let r = channel_byte(self.r);
        let g = channel_byte(self.g);
        let b = channel_byte(self.b);
        r * 65536 + g * 256 + b
    }
}

} // verus!
