//! Color types and utilities.

use vstd::prelude::*;

verus! {

/// A 24-bit RGB color value, stored as one byte per channel.
#[derive(Clone, Copy, Debug, PartialEq, Eq, Structural)]
pub struct Color {
    pub red: u8,
    pub green: u8,
    pub blue: u8,
}

impl Color {
    /// Create a color from RGB values.
    pub fn rgb(r: u8, g: u8, b: u8) -> (c: Color)
        ensures
            c == (Color { red: r, green: g, blue: b }),
    {
        Color { red: r, green: g, blue: b }
    }

    /// Create a color from a hex value (`0xRRGGBB`).
    pub fn hex(hex: u32) -> (c: Color)
        ensures
            c.red == (hex >> 16) as u8,
            c.green == (hex >> 8) as u8,
            c.blue == hex as u8,
    {
        Color {
            red: #[verifier::truncate] ((hex >> 16) as u8),
            green: #[verifier::truncate] ((hex >> 8) as u8),
            blue: #[verifier::truncate] (hex as u8),
        }
    }

    /// Create a color from a 3-digit hex value (`0xRGB`), duplicating each
    /// nibble into both halves of its channel byte.
    pub fn hex3(hex: u32) -> (c: Color)
        ensures
            c.red == 0x11 * ((hex >> 8) & 0xf),
            c.green == 0x11 * ((hex >> 4) & 0xf),
            c.blue == 0x11 * (hex & 0xf),
    {
        proof {
            assert((hex >> 8) & 0xf < 0x10 && (hex >> 4) & 0xf < 0x10 && hex & 0xf < 0x10)
                by (bit_vector);
        }
        Color {
            red: (0x11 * ((hex >> 8) & 0xf)) as u8,
            green: (0x11 * ((hex >> 4) & 0xf)) as u8,
            blue: (0x11 * (hex & 0xf)) as u8,
        }
    }

    /// Black color.
    pub fn black() -> (c: Color)
        ensures
            c == (Color { red: 0, green: 0, blue: 0 }),
    {
        Color { red: 0, green: 0, blue: 0 }
    }

    /// White color.
    pub fn white() -> (c: Color)
        ensures
            c == (Color { red: 255, green: 255, blue: 255 }),
    {
        Color { red: 255, green: 255, blue: 255 }
    }
}

impl Default for Color {
    /// The default color is black.
    fn default() -> (c: Color)
        ensures
            c == (Color { red: 0, green: 0, blue: 0 }),
    {
        Color { red: 0, green: 0, blue: 0 }
    }
}

/// Opacity value (0 = transparent, 255 = opaque).
#[derive(Clone, Copy, Debug, PartialEq, Eq, Structural)]
pub struct Opacity(pub u8);

impl Opacity {
    /// Fully transparent.
    pub fn transparent() -> (o: Opacity)
        ensures
            o == Opacity(0),
    {
        Opacity(0)
    }

    /// Opacity at the given percentage, on LVGL's 0-255 scale
    /// (each 10% step is `255 * pct / 100` rounded toward zero).
    pub fn percent(pct: u8) -> (o: Opacity)
        requires
            pct <= 100,
        ensures
            o == Opacity((255 * pct as u32 / 100) as u8),
    {
        Opacity((255 * pct as u32 / 100) as u8)
    }

    /// Fully opaque.
    pub fn opaque() -> (o: Opacity)
        ensures
            o == Opacity(255),
    {
        Opacity(255)
    }

    /// Alias for [`Opacity::opaque`].
    pub fn cover() -> (o: Opacity)
        ensures
            o == Opacity(255),
    {
        Opacity(255)
    }

    /// Create from a raw value (0-255).
    pub fn new(value: u8) -> (o: Opacity)
        ensures
            o == Opacity(value),
    {
        Opacity(value)
    }

    /// Get the raw value.
    pub fn raw(self) -> (v: u8)
        ensures
            v == self.0,
    {
        self.0
    }
}

impl Default for Opacity {
    /// The default opacity is fully opaque.
    fn default() -> (o: Opacity)
        ensures
            o == Opacity(255),
    {
        Opacity(255)
    }
}

} // verus!
