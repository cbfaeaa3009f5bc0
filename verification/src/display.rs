//! Display management.

use crate::widgets::Screen;
use vstd::prelude::*;

verus! {

/// Display render mode.
#[derive(Clone, Copy, Debug, PartialEq, Eq, Structural)]
pub enum RenderMode {
    /// Partial rendering: only changed areas are redrawn.
    Partial,
    /// Direct rendering: the buffer represents the full screen.
    Direct,
    /// Full refresh: the entire screen is redrawn each frame.
    Full,
}

impl RenderMode {
    /// The C ABI code of this mode.
    pub open spec fn code(self) -> u32 {
        match self {
            RenderMode::Partial => 0,
            RenderMode::Direct => 1,
            RenderMode::Full => 2,
        }
    }

    /// Convert to the C ABI code.
    pub fn to_raw(self) -> (r: u32)
        ensures
            r == self.code(),
    {
        match self {
            RenderMode::Partial => 0,
            RenderMode::Direct => 1,
            RenderMode::Full => 2,
        }
    }
}

impl Default for RenderMode {
    /// The default render mode is partial.
    fn default() -> (m: RenderMode)
        ensures
            m == RenderMode::Partial,
    {
        RenderMode::Partial
    }
}

/// Display color format: how pixels are encoded in display buffers.
#[derive(Clone, Copy, Debug, PartialEq, Eq, Structural)]
pub enum ColorFormat {
    /// 8-bit grayscale.
    L8,
    /// 1-bit alpha.
    A1,
    /// 2-bit alpha.
    A2,
    /// 4-bit alpha.
    A4,
    /// 8-bit alpha.
    A8,
    /// 1-bit indexed color (palette).
    I1,
    /// 2-bit indexed color (palette).
    I2,
    /// 4-bit indexed color (palette).
    I4,
    /// 8-bit indexed color (palette).
    I8,
    /// 16-bit RGB (5-6-5).
    Rgb565,
    /// 16-bit RGB (5-6-5) with byte-swapped pixels.
    Rgb565Swapped,
    /// 24-bit RGB (8-8-8).
    Rgb888,
    /// 32-bit ARGB (8-8-8-8).
    Argb8888,
    /// 32-bit XRGB (8-8-8-8, alpha ignored).
    Xrgb8888,
}

impl ColorFormat {
    /// The C ABI code of this format.
    pub open spec fn code(self) -> u32 {
        match self {
            ColorFormat::L8 => 0x06,
            ColorFormat::I1 => 0x07,
            ColorFormat::I2 => 0x08,
            ColorFormat::I4 => 0x09,
            ColorFormat::I8 => 0x0a,
            ColorFormat::A1 => 0x0b,
            ColorFormat::A2 => 0x0c,
            ColorFormat::A4 => 0x0d,
            ColorFormat::A8 => 0x0e,
            ColorFormat::Rgb888 => 0x0f,
            ColorFormat::Argb8888 => 0x10,
            ColorFormat::Xrgb8888 => 0x11,
            ColorFormat::Rgb565 => 0x12,
            ColorFormat::Rgb565Swapped => 0x1b,
        }
    }

    /// The format a C ABI code reads back as; unknown codes fall back to
    /// the default `Argb8888`.
    pub open spec fn spec_from_raw(raw: u32) -> ColorFormat {
        if raw == 0x06 {
            ColorFormat::L8
        } else if raw == 0x07 {
            ColorFormat::I1
        } else if raw == 0x08 {
            ColorFormat::I2
        } else if raw == 0x09 {
            ColorFormat::I4
        } else if raw == 0x0a {
            ColorFormat::I8
        } else if raw == 0x0b {
            ColorFormat::A1
        } else if raw == 0x0c {
            ColorFormat::A2
        } else if raw == 0x0d {
            ColorFormat::A4
        } else if raw == 0x0e {
            ColorFormat::A8
        } else if raw == 0x0f {
            ColorFormat::Rgb888
        } else if raw == 0x11 {
            ColorFormat::Xrgb8888
        } else if raw == 0x12 {
            ColorFormat::Rgb565
        } else if raw == 0x1b {
            ColorFormat::Rgb565Swapped
        } else {
            ColorFormat::Argb8888
        }
    }

    /// Convert to the C ABI code.
    pub fn to_raw(self) -> (r: u32)
        ensures
            r == self.code(),
    {
        match self {
            ColorFormat::L8 => 0x06,
            ColorFormat::I1 => 0x07,
            ColorFormat::I2 => 0x08,
            ColorFormat::I4 => 0x09,
            ColorFormat::I8 => 0x0a,
            ColorFormat::A1 => 0x0b,
            ColorFormat::A2 => 0x0c,
            ColorFormat::A4 => 0x0d,
            ColorFormat::A8 => 0x0e,
            ColorFormat::Rgb888 => 0x0f,
            ColorFormat::Argb8888 => 0x10,
            ColorFormat::Xrgb8888 => 0x11,
            ColorFormat::Rgb565 => 0x12,
            ColorFormat::Rgb565Swapped => 0x1b,
        }
    }

    /// Read back from a C ABI code.
    pub fn from_raw(raw: u32) -> (f: ColorFormat)
        ensures
            f == ColorFormat::spec_from_raw(raw),
    {
        match raw {
            0x06 => ColorFormat::L8,
            0x07 => ColorFormat::I1,
            0x08 => ColorFormat::I2,
            0x09 => ColorFormat::I4,
            0x0a => ColorFormat::I8,
            0x0b => ColorFormat::A1,
            0x0c => ColorFormat::A2,
            0x0d => ColorFormat::A4,
            0x0e => ColorFormat::A8,
            0x0f => ColorFormat::Rgb888,
            0x11 => ColorFormat::Xrgb8888,
            0x12 => ColorFormat::Rgb565,
            0x1b => ColorFormat::Rgb565Swapped,
            _ => ColorFormat::Argb8888,
        }
    }

    /// The number of bytes per pixel of this format, as a spec value.
    ///
    /// For sub-byte formats this is 1, the minimum addressable unit.
    pub open spec fn bpp_spec(self) -> usize {
        match self {
            ColorFormat::A1 | ColorFormat::I1 => 1,
            ColorFormat::A2 | ColorFormat::I2 => 1,
            ColorFormat::A4 | ColorFormat::I4 => 1,
            ColorFormat::L8 | ColorFormat::A8 | ColorFormat::I8 => 1,
            ColorFormat::Rgb565 | ColorFormat::Rgb565Swapped => 2,
            ColorFormat::Rgb888 => 3,
            ColorFormat::Argb8888 | ColorFormat::Xrgb8888 => 4,
        }
    }

    /// Get the number of bytes per pixel for this format.
    ///
    /// For sub-byte formats (A1, A2, A4, I1, I2, I4) this returns 1 as the
    /// minimum addressable unit, though the actual bits per pixel is less.
    pub fn bytes_per_pixel(&self) -> (r: usize)
        ensures
            r == self.bpp_spec(),
            1 <= r <= 4,
    {
        match self {
            ColorFormat::A1 | ColorFormat::I1 => 1,
            ColorFormat::A2 | ColorFormat::I2 => 1,
            ColorFormat::A4 | ColorFormat::I4 => 1,
            ColorFormat::L8 | ColorFormat::A8 | ColorFormat::I8 => 1,
            ColorFormat::Rgb565 | ColorFormat::Rgb565Swapped => 2,
            ColorFormat::Rgb888 => 3,
            ColorFormat::Argb8888 | ColorFormat::Xrgb8888 => 4,
        }
    }

    /// Reading back the written code returns the same format.
    pub proof fn lemma_code_roundtrip(self)
        ensures
            ColorFormat::spec_from_raw(self.code()) == self,
    {
    }
}

impl Default for ColorFormat {
    /// The default color format is `Argb8888`.
    fn default() -> (f: ColorFormat)
        ensures
            f == ColorFormat::Argb8888,
    {
        ColorFormat::Argb8888
    }
}

/// A rectangular area, with inclusive corner coordinates.
#[derive(Clone, Copy, Debug, PartialEq, Eq, Structural)]
pub struct Area {
    pub x1: i16,
    pub y1: i16,
    pub x2: i16,
    pub y2: i16,
}

impl Area {
    /// Whether both corner pairs are ordered and the area's span fits the
    /// coordinate type.
    pub open spec fn proper(self) -> bool {
        &&& self.x1 <= self.x2
        &&& self.y1 <= self.y2
        &&& self.x2 - self.x1 + 1 <= i16::MAX
        &&& self.y2 - self.y1 + 1 <= i16::MAX
    }

    /// Create from the renderer's corner coordinates, truncating each
    /// one to the area's coordinate type.
    pub fn from_raw(x1: i32, y1: i32, x2: i32, y2: i32) -> (a: Area)
        ensures
            a == (Area { x1: x1 as i16, y1: y1 as i16, x2: x2 as i16, y2: y2 as i16 }),
    {
        Area {
            x1: #[verifier::truncate] (x1 as i16),
            y1: #[verifier::truncate] (y1 as i16),
            x2: #[verifier::truncate] (x2 as i16),
            y2: #[verifier::truncate] (y2 as i16),
        }
    }

    /// Get the area width.
    pub fn width(&self) -> (w: i16)
        requires
            self.x2 - self.x1 + 1 <= i16::MAX,
            i16::MIN <= self.x2 - self.x1,
        ensures
            w == self.x2 - self.x1 + 1,
    {
        (self.x2 as i32 - self.x1 as i32 + 1) as i16
    }

    /// Get the area height.
    pub fn height(&self) -> (h: i16)
        requires
            self.y2 - self.y1 + 1 <= i16::MAX,
            i16::MIN <= self.y2 - self.y1,
        ensures
            h == self.y2 - self.y1 + 1,
    {
        (self.y2 as i32 - self.y1 as i32 + 1) as i16
    }

    /// The total pixel count, as a spec value.
    pub open spec fn pixel_count_spec(self) -> int {
        (self.x2 - self.x1 + 1) * (self.y2 - self.y1 + 1)
    }

    /// Get the total pixel count.
    pub fn pixel_count(&self) -> (n: usize)
        requires
            self.proper(),
        ensures
            n == self.pixel_count_spec(),
    {
        let w = self.width() as usize;
        let h = self.height() as usize;
        proof {
            assert(w * h <= 0x7fff * 0x7fff) by (nonlinear_arith)
                requires
                    w <= 0x7fff && h <= 0x7fff,
            ;
        }
        w * h
    }
}

/// The observable state of a display.
#[derive(Clone, Copy, Debug)]
pub struct Display {
    pub width: i32,
    pub height: i32,
    pub color_format: ColorFormat,
    /// Whether this display was made the default one.
    pub is_default: bool,
}

impl Display {
    /// Create a new display with the given resolution.
    ///
    /// Returns an absent value when either dimension is not positive;
    /// on success the display uses the default color format.
    pub fn new(width: i32, height: i32) -> (r: Option<Display>)
        ensures
            (r matches Some(d)) <==> (width > 0 && height > 0),
            r matches Some(d) ==> d == (Display {
                width,
                height,
                color_format: ColorFormat::Argb8888,
                is_default: false,
            }),
    {
        if width > 0 && height > 0 {
            Some(Display { width, height, color_format: ColorFormat::Argb8888, is_default: false })
        } else {
            None
        }
    }

    /// Set this display as the default.
    pub fn set_default(&mut self)
        ensures
            *final(self) == (Display { is_default: true, ..*old(self) }),
    {
        self.is_default = true;
    }

    /// Get the currently active screen for this display.
    ///
    /// The screen covers the whole display.
    pub fn active_screen(&self) -> (s: Screen)
        ensures
            s == Screen::initial(self.width, self.height),
    {
        Screen::new_initial(self.width, self.height)
    }

    /// Get the display width.
    pub fn width(&self) -> (w: i32)
        ensures
            w == self.width,
    {
        self.width
    }

    /// Get the display height.
    pub fn height(&self) -> (h: i32)
        ensures
            h == self.height,
    {
        self.height
    }

    /// Set the color format for this display.
    pub fn set_color_format(&mut self, format: ColorFormat)
        ensures
            *final(self) == (Display { color_format: format, ..*old(self) }),
    {
        self.color_format = format;
    }

    /// Get the current color format for this display.
    pub fn color_format(&self) -> (f: ColorFormat)
        ensures
            f == self.color_format,
    {
        self.color_format
    }
}

/// Display driver trait for custom display implementations.
///
/// Implementors connect the renderer's pixel output to actual hardware;
/// nothing is assumed about their behavior.
pub trait DisplayDriver {
    /// Get the display dimensions as `(width, height)`.
    fn size(&self) -> (i32, i32);

    /// Flush pixels to the display: `area` is the rectangle to update and
    /// `pixels` the pixel data in the display's color format.
    fn flush(&mut self, area: &Area, pixels: &[u8]);

    /// Called when the flush is complete.
    fn flush_ready(&mut self) {
    }
}

/// The length in bytes of one render buffer covering a full display of
/// the given resolution and color format.
///
/// This is the decision behind [`ManagedDisplay::with_buffers`]: the
/// length exists exactly when both dimensions are positive and the byte
/// count fits the machine's word.
pub fn render_buffer_len(width: i32, height: i32, format: ColorFormat) -> (r: Option<usize>)
    ensures
        (r is Some) <==> (width > 0 && height > 0 && width * height * format.bpp_spec()
            <= usize::MAX),
        r matches Some(n) ==> n == width * height * format.bpp_spec(),
{
    if width <= 0 || height <= 0 {
        return None;
    }
    let bpp = format.bytes_per_pixel();
    proof {
        assert((width as u64) * (height as u64) <= 0x3fff_ffff_0000_0001) by (nonlinear_arith)
            requires
                width as u64 <= 0x7fff_ffff && height as u64 <= 0x7fff_ffff,
        ;
    }
    let wide: u64 = (width as u64) * (height as u64);
    proof {
        assert(wide * (bpp as u64) <= 0xffff_fffc_0000_0004) by (nonlinear_arith)
            requires
                wide <= 0x3fff_ffff_0000_0001 && bpp as u64 <= 4,
        ;
        assert(wide * (bpp as u64) == width * height * format.bpp_spec()) by (nonlinear_arith)
            requires
                wide == (width as u64) * (height as u64),
                width > 0,
                height > 0,
                bpp == format.bpp_spec(),
        ;
    }
    let bytes: u64 = wide * (bpp as u64);
    if bytes > usize::MAX as u64 {
        return None;
    }
    Some(bytes as usize)
}

/// A display that owns its driver and render buffers.
///
/// This is the managed way to use a custom [`DisplayDriver`]: the display
/// allocates its buffers, remembers their size, and hands rendered pixel
/// rectangles to the driver through [`ManagedDisplay::dispatch_flush`].
pub struct ManagedDisplay<D: DisplayDriver> {
    pub display: Display,
    pub driver: D,
    /// The length in bytes of each render buffer.
    pub buf_len: usize,
    /// Whether two buffers were allocated.
    pub double_buffered: bool,
    pub render_mode: RenderMode,
}

impl<D: DisplayDriver> ManagedDisplay<D> {
    /// Whether the buffer length matches the display's resolution and
    /// color format.
    pub open spec fn wf(self) -> bool {
        &&& self.display.width > 0
        &&& self.display.height > 0
        &&& self.buf_len == self.display.width * self.display.height
            * self.display.color_format.bpp_spec()
    }

    /// Create a managed display that allocates and owns its buffers.
    ///
    /// The driver is asked for the display's dimensions; the result is
    /// absent exactly when [`render_buffer_len`] finds no buffer length
    /// for them: a non-positive dimension, or a byte count that does not
    /// fit the machine's word.
    pub fn with_buffers(
        driver: D,
        color_format: ColorFormat,
        render_mode: RenderMode,
        double_buffer: bool,
    ) -> (r: Option<ManagedDisplay<D>>)
        ensures
            r matches Some(m) ==> m.wf() && m.driver == driver && m.display.color_format
                == color_format && m.double_buffered == double_buffer && m.render_mode
                == render_mode && !m.display.is_default,
    {
        let (width, height) = driver.size();
        let buf_len: usize = match render_buffer_len(width, height, color_format) {
            Some(n) => n,
            None => {
                return None;
            },
        };
        let mut display = match Display::new(width, height) {
            Some(d) => d,
            None => {
                return None;
            },
        };
        display.set_color_format(color_format);
        Some(
            ManagedDisplay {
                display,
                driver,
                buf_len,
                double_buffered: double_buffer,
                render_mode,
            },
        )
    }

    /// Get a reference to the underlying display.
    pub fn display(&self) -> (r: &Display)
        ensures
            *r == self.display,
    {
        &self.display
    }

    /// Get a reference to the driver.
    pub fn driver(&self) -> (r: &D)
        ensures
            *r == self.driver,
    {
        &self.driver
    }

    /// Get a mutable reference to the driver.
    pub fn driver_mut(&mut self) -> (r: &mut D)
        ensures
            *r == old(self).driver,
            final(self).driver == *final(r),
            final(self).display == old(self).display,
            final(self).buf_len == old(self).buf_len,
            final(self).double_buffered == old(self).double_buffered,
            final(self).render_mode == old(self).render_mode,
    {
        &mut self.driver
    }

    /// Set this display as the default.
    pub fn set_default(&mut self)
        ensures
            final(self).display == (Display { is_default: true, ..old(self).display }),
            final(self).driver == old(self).driver,
            final(self).buf_len == old(self).buf_len,
            final(self).double_buffered == old(self).double_buffered,
            final(self).render_mode == old(self).render_mode,
    {
        self.display.set_default();
    }

    /// Get the currently active screen for this display.
    pub fn active_screen(&self) -> (s: Screen)
        ensures
            s == Screen::initial(self.display.width, self.display.height),
    {
        self.display.active_screen()
    }

    /// Get the display width.
    pub fn width(&self) -> (w: i32)
        ensures
            w == self.display.width,
    {
        self.display.width()
    }

    /// Get the display height.
    pub fn height(&self) -> (h: i32)
        ensures
            h == self.display.height,
    {
        self.display.height()
    }

    /// Set the color format.
    pub fn set_color_format(&mut self, format: ColorFormat)
        ensures
            final(self).display == (Display { color_format: format, ..old(self).display }),
            final(self).driver == old(self).driver,
            final(self).buf_len == old(self).buf_len,
            final(self).double_buffered == old(self).double_buffered,
            final(self).render_mode == old(self).render_mode,
    {
        self.display.set_color_format(format);
    }

    /// Get the current color format.
    pub fn color_format(&self) -> (f: ColorFormat)
        ensures
            f == self.display.color_format,
    {
        self.display.color_format()
    }

    /// Hand one rendered rectangle to the driver and signal completion.
    ///
    /// This is the flush path between the renderer and the driver: the
    /// pixel data must hold exactly one value per pixel of the area in the
    /// display's color format.  The display's own state does not change.
    pub fn dispatch_flush(&mut self, area: &Area, pixels: &[u8])
        requires
            area.proper(),
            pixels@.len() == area.pixel_count_spec()
                * old(self).display.color_format.bpp_spec(),
        ensures
            final(self).display == old(self).display,
            final(self).buf_len == old(self).buf_len,
            final(self).double_buffered == old(self).double_buffered,
            final(self).render_mode == old(self).render_mode,
    {
        self.driver.flush(area, pixels);
        self.driver.flush_ready();
    }
}

} // verus!
