//! Fonts: built-in font references and runtime-loaded TTF fonts.

use vstd::prelude::*;

verus! {

/// The line height of the built-in default font.
pub const DEFAULT_FONT_LINE_HEIGHT: i32 = 16;

/// Reference to a font, modeled by its line height.
#[derive(Clone, Copy, Debug, PartialEq, Eq, Structural)]
pub struct Font {
    pub line_height: i32,
}

impl Font {
    /// Get the line height in pixels.
    pub fn line_height(&self) -> (r: i32)
        ensures
            r == self.line_height,
    {
        self.line_height
    }

    /// Get the built-in default font.
    pub fn default() -> (f: Font)
        ensures
            f == (Font { line_height: DEFAULT_FONT_LINE_HEIGHT }),
    {
        Font { line_height: DEFAULT_FONT_LINE_HEIGHT }
    }
}

/// Error type for font operations.
#[derive(Clone, Copy, Debug, PartialEq, Eq, Structural)]
pub enum FontError {
    /// Failed to load the font file.
    LoadFailed,
    /// Invalid font data.
    InvalidData,
    /// The feature is not enabled in the library's configuration.
    NotSupported,
}

/// A TTF font loaded at runtime, modeled by its nominal size.
#[derive(Clone, Copy, Debug)]
pub struct TtfFont {
    /// The font size in pixels; in this model it is also the line height.
    pub size: i32,
}

impl TtfFont {
    /// Create a font from TTF data in memory.
    ///
    /// Loading fails exactly when the data is empty or the size is not
    /// positive.
    pub fn from_data(data: &[u8], size: i32) -> (r: Result<TtfFont, FontError>)
        ensures
            (r matches Ok(f)) <==> (data@.len() > 0 && size > 0),
            r matches Ok(f) ==> f == (TtfFont { size }),
            r matches Err(e) ==> e == FontError::LoadFailed,
    {
        if data.len() > 0 && size > 0 {
            Ok(TtfFont { size })
        } else {
            Err(FontError::LoadFailed)
        }
    }

    /// Get this font as a [`Font`] reference for use with widgets.
    pub fn as_font(&self) -> (f: Font)
        ensures
            f == (Font { line_height: self.size }),
    {
        Font { line_height: self.size }
    }

    /// Set the font size, reusing the same font data.
    pub fn set_size(&mut self, size: i32)
        ensures
            *final(self) == (TtfFont { size }),
    {
        self.size = size;
    }

    /// Get the line height.
    pub fn line_height(&self) -> (r: i32)
        ensures
            r == self.size,
    {
        self.size
    }
}

} // verus!
