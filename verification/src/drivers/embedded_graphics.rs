//! Integration with the embedded-graphics ecosystem.
//!
//! The renderer outputs pixels as little-endian RGB565.  This module holds
//! the exact bit arithmetic for converting those pixels to other color
//! depths, and [`rgb565_pixels`], which turns a flushed rectangle into a
//! list of positioned pixels.  The glue that drives a concrete color
//! ecosystem's draw targets lives outside the verified library and calls
//! these functions; [`FromLvglRgb565`] is for color types the embedder
//! owns and can implement it for.

use crate::display::Area;
use vstd::prelude::*;

verus! {

/// The 16-bit value stored little-endian as two bytes.
pub open spec fn le16(lo: u8, hi: u8) -> u16 {
    (lo + hi * 0x100) as u16
}

/// The red channel of an RGB565 value (5 bits).
pub open spec fn rgb565_r(raw: u16) -> u8 {
    ((raw >> 11) & 0x1f) as u8
}

/// The green channel of an RGB565 value (6 bits).
pub open spec fn rgb565_g(raw: u16) -> u8 {
    ((raw >> 5) & 0x3f) as u8
}

/// The blue channel of an RGB565 value (5 bits).
pub open spec fn rgb565_b(raw: u16) -> u8 {
    (raw & 0x1f) as u8
}

/// A 5-bit channel expanded to 8 bits, repeating the top bits below.
pub open spec fn expand5to8(v: u8) -> u8 {
    ((v << 3) | (v >> 2)) as u8
}

/// A 6-bit channel expanded to 8 bits, repeating the top bits below.
pub open spec fn expand6to8(v: u8) -> u8 {
    ((v << 2) | (v >> 4)) as u8
}

/// A 5-bit channel expanded to 6 bits, repeating the top bit below.
pub open spec fn expand5to6(v: u8) -> u8 {
    ((v << 1) | (v >> 4)) as u8
}

/// Split an RGB565 value into its three channels (5, 6 and 5 bits).
pub fn rgb565_components(raw: u16) -> (c: (u8, u8, u8))
    ensures
        c.0 == rgb565_r(raw),
        c.1 == rgb565_g(raw),
        c.2 == rgb565_b(raw),
        c.0 < 32 && c.1 < 64 && c.2 < 32,
{
    proof {
        assert((raw >> 11) & 0x1f < 32 && (raw >> 5) & 0x3f < 64 && raw & 0x1f < 32)
            by (bit_vector);
    }
    (((raw >> 11) & 0x1f) as u8, ((raw >> 5) & 0x3f) as u8, (raw & 0x1f) as u8)
}

/// Expand an RGB565 value to 8-bit RGB channels.
pub fn rgb565_to_rgb888(raw: u16) -> (c: (u8, u8, u8))
    ensures
        c.0 == expand5to8(rgb565_r(raw)),
        c.1 == expand6to8(rgb565_g(raw)),
        c.2 == expand5to8(rgb565_b(raw)),
{
    let (r, g, b) = rgb565_components(raw);
    ((r << 3) | (r >> 2), (g << 2) | (g >> 4), (b << 3) | (b >> 2))
}

/// Expand an RGB565 value to 6-bit RGB channels.
pub fn rgb565_to_rgb666(raw: u16) -> (c: (u8, u8, u8))
    ensures
        c.0 == expand5to6(rgb565_r(raw)),
        c.1 == rgb565_g(raw),
        c.2 == expand5to6(rgb565_b(raw)),
{
    let (r, g, b) = rgb565_components(raw);
    ((r << 1) | (r >> 4), g, (b << 1) | (b >> 4))
}

/// The grayscale value of an RGB565 pixel, by the integer luminance
/// formula `(77 r + 150 g + 29 b) / 256` over the 8-bit channels.
pub open spec fn rgb565_luma_spec(raw: u16) -> int {
    (expand5to8(rgb565_r(raw)) * 77 + expand6to8(rgb565_g(raw)) * 150 + expand5to8(
        rgb565_b(raw),
    ) * 29) / 256
}

/// Convert an RGB565 value to an 8-bit grayscale value.
pub fn rgb565_to_gray8(raw: u16) -> (l: u8)
    ensures
        l == rgb565_luma_spec(raw),
{
    let (r8, g8, b8) = rgb565_to_rgb888(raw);
    let sum: u32 = (r8 as u32) * 77 + (g8 as u32) * 150 + (b8 as u32) * 29;
    proof {
        assert(sum <= 0xff00 ==> sum >> 8 == sum / 256 && sum / 256 <= 0xff) by (bit_vector);
    }
    (sum >> 8) as u8
}

/// Trait for converting the renderer's RGB565 pixel data to other color
/// formats.  Implementors are display color types; nothing is assumed
/// about their representation.
pub trait FromLvglRgb565: Sized {
    /// Convert from a little-endian RGB565 raw value.
    fn from_rgb565_raw(raw: u16) -> Self;
}

/// Wrapper that adapts a draw target of the embedded-graphics ecosystem
/// to the display driver interface.
pub struct EmbeddedGraphicsDisplay<T> {
    pub target: T,
}

impl<T> EmbeddedGraphicsDisplay<T> {
    /// Create a new wrapper around a draw target.
    pub fn new(target: T) -> (r: EmbeddedGraphicsDisplay<T>)
        ensures
            r.target == target,
    {
        EmbeddedGraphicsDisplay { target }
    }

    /// Get a reference to the underlying display.
    pub fn inner(&self) -> (r: &T)
        ensures
            *r == self.target,
    {
        &self.target
    }

    /// Get a mutable reference to the underlying display.
    pub fn inner_mut(&mut self) -> (r: &mut T)
        ensures
            *r == old(self).target,
            final(self).target == *final(r),
    {
        &mut self.target
    }

    /// Consume the wrapper and return the underlying display.
    pub fn into_inner(self) -> (r: T)
        ensures
            r == self.target,
    {
        self.target
    }
}

/// Turn one flushed rectangle of little-endian RGB565 pixel data into a
/// list of `(x, y, raw)` pixels in row-major order.
pub fn rgb565_pixels(area: &Area, pixels: &[u8]) -> (out: Vec<(i32, i32, u16)>)
    requires
        area.proper(),
        pixels@.len() == 2 * area.pixel_count_spec(),
    ensures
        out@.len() == area.pixel_count_spec(),
        forall|k: int|
            0 <= k < out@.len() ==> #[trigger] out@[k].0 == area.x1 + k % (area.x2 - area.x1 + 1)
                && out@[k].1 == area.y1 + k / (area.x2 - area.x1 + 1) && out@[k].2 == le16(
                pixels@[2 * k],
                pixels@[2 * k + 1],
            ),
{
    let w: usize = area.width() as usize;
    let n: usize = area.pixel_count();
    let plen: usize = pixels.len();
    let mut out: Vec<(i32, i32, u16)> = Vec::new();
    let mut k: usize = 0;
    proof {
        assert(2 * n == pixels@.len());
    }
    while k < n
        invariant
            k <= n,
            plen == pixels@.len(),
            w == area.x2 - area.x1 + 1,
            w > 0,
            n == area.pixel_count_spec(),
            2 * n == pixels@.len(),
            area.proper(),
            out@.len() == k,
            forall|j: int|
                0 <= j < k ==> #[trigger] out@[j].0 == area.x1 + j % (w as int) && out@[j].1
                    == area.y1 + j / (w as int) && out@[j].2 == le16(
                    pixels@[2 * j],
                    pixels@[2 * j + 1],
                ),
        decreases n - k,
    {
        let col: usize = k % w;
        let row: usize = k / w;
        proof {
            assert(col < w);
            assert(row < (area.y2 - area.y1 + 1)) by (nonlinear_arith)
                requires
                    row == k as int / w as int,
                    k < n,
                    n == (w as int) * (area.y2 - area.y1 + 1),
                    w > 0,
            ;
            assert(2 * k + 1 < pixels@.len());
        }
        let lo = pixels[2 * k];
        let hi = pixels[2 * k + 1];
        let raw: u16 = (lo as u16) | ((hi as u16) << 8);
        proof {
            assert((lo as u16) | ((hi as u16) << 8) == (lo + hi * 0x100) as u16) by (bit_vector);
        }
        let x: i32 = area.x1 as i32 + col as i32;
        let y: i32 = area.y1 as i32 + row as i32;
        out.push((x, y, raw));
        k = k + 1;
    }
    out
}

} // verus!
