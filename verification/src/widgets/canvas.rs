//! Canvas widget: a drawing surface for custom graphics.

use super::{Obj, Widget};
use crate::color::{Color, Opacity};
use vstd::prelude::*;

verus! {

/// Color format for a canvas buffer.
#[derive(Clone, Copy, Debug, PartialEq, Eq, Structural)]
pub enum ColorFormat {
    /// 16-bit RGB (5-6-5).
    RGB565,
    /// 24-bit RGB (8-8-8).
    RGB888,
    /// 32-bit ARGB with alpha.
    ARGB8888,
    /// 32-bit XRGB, alpha ignored.
    XRGB8888,
    /// 8-bit luminance.
    L8,
    /// 8-bit alpha.
    A8,
    /// 1-bit indexed.
    I1,
}

impl ColorFormat {
    /// The C ABI code of this format.
    pub open spec fn code(self) -> u32 {
        match self {
            ColorFormat::RGB565 => 0x12,
            ColorFormat::RGB888 => 0x0f,
            ColorFormat::ARGB8888 => 0x10,
            ColorFormat::XRGB8888 => 0x11,
            ColorFormat::L8 => 0x06,
            ColorFormat::A8 => 0x0e,
            ColorFormat::I1 => 0x07,
        }
    }

    /// Convert to the C ABI code.
    pub fn to_raw(self) -> (r: u32)
        ensures
            r == self.code(),
    {
        match self {
            ColorFormat::RGB565 => 0x12,
            ColorFormat::RGB888 => 0x0f,
            ColorFormat::ARGB8888 => 0x10,
            ColorFormat::XRGB8888 => 0x11,
            ColorFormat::L8 => 0x06,
            ColorFormat::A8 => 0x0e,
            ColorFormat::I1 => 0x07,
        }
    }

    /// The bits per pixel of this format, as a spec value.
    pub open spec fn bpp_spec(self) -> u8 {
        match self {
            ColorFormat::RGB565 => 16,
            ColorFormat::RGB888 => 24,
            ColorFormat::ARGB8888 | ColorFormat::XRGB8888 => 32,
            ColorFormat::L8 | ColorFormat::A8 => 8,
            ColorFormat::I1 => 1,
        }
    }

    /// Get the bits per pixel for this format.
    pub fn bpp(self) -> (r: u8)
        ensures
            r == self.bpp_spec(),
            1 <= r <= 32,
    {
        match self {
            ColorFormat::RGB565 => 16,
            ColorFormat::RGB888 => 24,
            ColorFormat::ARGB8888 | ColorFormat::XRGB8888 => 32,
            ColorFormat::L8 | ColorFormat::A8 => 8,
            ColorFormat::I1 => 1,
        }
    }

    /// The palette bytes an indexed buffer starts with: the 1-bit
    /// indexed format holds two 4-byte palette entries, the direct
    /// formats none.
    pub open spec fn palette_bytes_spec(self) -> u32 {
        match self {
            ColorFormat::I1 => 8,
            _ => 0,
        }
    }
}

/// Canvas widget.
///
/// The canvas is modeled as a grid of colors in row-major order: the
/// buffer holds exactly `width * height` pixels once one is attached.
#[derive(Debug)]
pub struct Canvas {
    pub base: Obj,
    pub width: usize,
    pub height: usize,
    pub format: Option<ColorFormat>,
    /// The pixel grid, row-major.
    pub pixels: Vec<Color>,
    /// The palette entries written so far, as pairs of index and color.
    pub palette: Vec<(u8, Color)>,
}

impl Canvas {
    /// Calculate the required buffer size in bytes for a canvas: the
    /// packed row stride times the height, plus the palette.
    pub fn buffer_size(width: i32, height: i32, cf: ColorFormat) -> (r: u32)
        requires
            0 <= width <= 0xffff,
            0 <= height <= 0xffff,
            ((width * cf.bpp_spec() + 7) / 8) * height + cf.palette_bytes_spec() <= u32::MAX,
        ensures
            r == ((width * cf.bpp_spec() + 7) / 8) * height + cf.palette_bytes_spec(),
    {
        let bpp: u64 = cf.bpp() as u64;
        let w: u64 = width as u64;
        let h: u64 = height as u64;
        proof {
            assert(w * bpp <= 0xffff * 32) by (nonlinear_arith)
                requires
                    w <= 0xffff && bpp <= 32,
            ;
        }
        let stride: u64 = (w * bpp + 7) / 8;
        proof {
            assert(stride * h <= 0x3ffff * 0xffff) by (nonlinear_arith)
                requires
                    stride <= 0x3ffff && h <= 0xffff,
            ;
        }
        let pal: u64 = match cf {
            ColorFormat::I1 => 8,
            _ => 0,
        };
        let total: u64 = stride * h + pal;
        total as u32
    }

    /// Create a new canvas as a child of the given parent, with no
    /// buffer attached.
    pub fn new<W: Widget>(parent: &mut W) -> (r: Option<Canvas>)
        requires
            old(parent).base_spec().child_count < u64::MAX,
        ensures
            *final(parent) == old(parent).with_base_spec(
                old(parent).base_spec().with_child_inc(),
            ),
            r matches Some(c) && c.base == Obj::initial() && c.width == 0 && c.height == 0
                && c.format is None && c.pixels@ == Seq::<Color>::empty() && c.palette@
                == Seq::<(u8, Color)>::empty(),
    {
        let pb = parent.base_mut();
        pb.child_count = pb.child_count + 1;
        Some(
            Canvas {
                base: Obj::new_initial(),
                width: 0,
                height: 0,
                format: None,
                pixels: Vec::new(),
                palette: Vec::new(),
            },
        )
    }

    /// Attach a buffer of the given size and format.  The canvas starts
    /// out black.
    pub fn set_buffer(&mut self, width: usize, height: usize, cf: ColorFormat)
        requires
            width <= 0xffff,
            height <= 0xffff,
        ensures
            final(self).base == old(self).base,
            final(self).width == width,
            final(self).height == height,
            final(self).format == Some(cf),
            final(self).pixels@.len() == width * height,
            forall|k: int|
                0 <= k < width * height ==> final(self).pixels@[k] == (Color {
                    red: 0,
                    green: 0,
                    blue: 0,
                }),
            final(self).palette@ == old(self).palette@,
    {
        proof {
            assert(width * height <= 0xffff * 0xffff) by (nonlinear_arith)
                requires
                    width <= 0xffff && height <= 0xffff,
            ;
        }
        let n: usize = width * height;
        let mut pixels: Vec<Color> = Vec::new();
        let mut k: usize = 0;
        while k < n
            invariant
                k <= n,
                pixels@.len() == k,
                forall|j: int|
                    0 <= j < k ==> pixels@[j] == (Color { red: 0, green: 0, blue: 0 }),
            decreases n - k,
        {
            pixels.push(Color { red: 0, green: 0, blue: 0 });
            k = k + 1;
        }
        self.width = width;
        self.height = height;
        self.format = Some(cf);
        self.pixels = pixels;
    }

    /// Set one pixel's color; the opacity is applied by the renderer and
    /// does not change the stored color grid beyond this pixel.
    pub fn set_px(&mut self, x: usize, y: usize, color: Color, _opa: Opacity)
        requires
            x < old(self).width,
            y < old(self).height,
            old(self).pixels@.len() == old(self).width * old(self).height,
        ensures
            final(self).pixels@ == old(self).pixels@.update(
                y * old(self).width + x,
                color,
            ),
            final(self).base == old(self).base,
            final(self).width == old(self).width,
            final(self).height == old(self).height,
            final(self).format == old(self).format,
            final(self).palette@ == old(self).palette@,
    {
        let n: usize = self.pixels.len();
        proof {
            assert(y * self.width + x < self.width * self.height) by (nonlinear_arith)
                requires
                    x < self.width && y < self.height,
            ;
            assert(y * self.width + x < n);
        }
        let idx: usize = y * self.width + x;
        self.pixels.set(idx, color);
    }

    /// Fill the whole canvas with one color.
    pub fn fill_bg(&mut self, color: Color, _opa: Opacity)
        requires
            old(self).pixels@.len() == old(self).width * old(self).height,
        ensures
            final(self).pixels@.len() == old(self).pixels@.len(),
            forall|k: int| 0 <= k < final(self).pixels@.len() ==> final(self).pixels@[k] == color,
            final(self).base == old(self).base,
            final(self).width == old(self).width,
            final(self).height == old(self).height,
            final(self).format == old(self).format,
            final(self).palette@ == old(self).palette@,
    {
        let n: usize = self.pixels.len();
        let mut k: usize = 0;
        while k < n
            invariant
                k <= n,
                n == self.pixels@.len(),
                forall|j: int| 0 <= j < k ==> self.pixels@[j] == color,
                self.base == old(self).base,
                self.width == old(self).width,
                self.height == old(self).height,
                self.format == old(self).format,
                self.palette@ == old(self).palette@,
            decreases n - k,
        {
            self.pixels.set(k, color);
            k = k + 1;
        }
    }

    /// Record one palette entry for an indexed format.
    pub fn set_palette(&mut self, index: u8, color: Color)
        ensures
            final(self).palette@ == old(self).palette@.push((index, color)),
            final(self).base == old(self).base,
            final(self).width == old(self).width,
            final(self).height == old(self).height,
            final(self).format == old(self).format,
            final(self).pixels@ == old(self).pixels@,
    {
        self.palette.push((index, color));
    }
}

impl Widget for Canvas {
    open spec fn base_spec(&self) -> Obj {
        self.base
    }

    open spec fn with_base_spec(&self, b: Obj) -> Canvas {
        Canvas { base: b, ..*self }
    }

    fn base(&self) -> (r: &Obj) {
        &self.base
    }

    fn base_mut(&mut self) -> (r: &mut Obj) {
        &mut self.base
    }
}

} // verus!
