//! Image widget.

use super::{Obj, Widget};
use vstd::prelude::*;

verus! {

/// Image alignment within the widget.
#[derive(Clone, Copy, Debug, PartialEq, Eq, Structural)]
pub enum ImageAlign {
    Default,
    TopLeft,
    TopMid,
    TopRight,
    BottomLeft,
    BottomMid,
    BottomRight,
    LeftMid,
    RightMid,
    Center,
    Stretch,
    Tile,
    Contain,
    Cover,
}

impl ImageAlign {
    /// The C ABI code of this alignment.
    pub open spec fn code(self) -> u32 {
        match self {
            ImageAlign::Default => 0,
            ImageAlign::TopLeft => 1,
            ImageAlign::TopMid => 2,
            ImageAlign::TopRight => 3,
            ImageAlign::BottomLeft => 4,
            ImageAlign::BottomMid => 5,
            ImageAlign::BottomRight => 6,
            ImageAlign::LeftMid => 7,
            ImageAlign::RightMid => 8,
            ImageAlign::Center => 9,
            ImageAlign::Stretch => 11,
            ImageAlign::Tile => 12,
            ImageAlign::Contain => 13,
            ImageAlign::Cover => 14,
        }
    }

    /// The alignment a C ABI code reads back as; unknown codes fall back
    /// to `Default`.
    pub open spec fn spec_from_raw(raw: u32) -> ImageAlign {
        if raw == 1 {
            ImageAlign::TopLeft
        } else if raw == 2 {
            ImageAlign::TopMid
        } else if raw == 3 {
            ImageAlign::TopRight
        } else if raw == 4 {
            ImageAlign::BottomLeft
        } else if raw == 5 {
            ImageAlign::BottomMid
        } else if raw == 6 {
            ImageAlign::BottomRight
        } else if raw == 7 {
            ImageAlign::LeftMid
        } else if raw == 8 {
            ImageAlign::RightMid
        } else if raw == 9 {
            ImageAlign::Center
        } else if raw == 11 {
            ImageAlign::Stretch
        } else if raw == 12 {
            ImageAlign::Tile
        } else if raw == 13 {
            ImageAlign::Contain
        } else if raw == 14 {
            ImageAlign::Cover
        } else {
            ImageAlign::Default
        }
    }

    /// Convert to the C ABI code.
    pub fn to_raw(self) -> (r: u32)
        ensures
            r == self.code(),
    {
        match self {
            ImageAlign::Default => 0,
            ImageAlign::TopLeft => 1,
            ImageAlign::TopMid => 2,
            ImageAlign::TopRight => 3,
            ImageAlign::BottomLeft => 4,
            ImageAlign::BottomMid => 5,
            ImageAlign::BottomRight => 6,
            ImageAlign::LeftMid => 7,
            ImageAlign::RightMid => 8,
            ImageAlign::Center => 9,
            ImageAlign::Stretch => 11,
            ImageAlign::Tile => 12,
            ImageAlign::Contain => 13,
            ImageAlign::Cover => 14,
        }
    }

    /// Read back from a C ABI code.
    pub fn from_raw(raw: u32) -> (a: ImageAlign)
        ensures
            a == ImageAlign::spec_from_raw(raw),
    {
        match raw {
            1 => ImageAlign::TopLeft,
            2 => ImageAlign::TopMid,
            3 => ImageAlign::TopRight,
            4 => ImageAlign::BottomLeft,
            5 => ImageAlign::BottomMid,
            6 => ImageAlign::BottomRight,
            7 => ImageAlign::LeftMid,
            8 => ImageAlign::RightMid,
            9 => ImageAlign::Center,
            11 => ImageAlign::Stretch,
            12 => ImageAlign::Tile,
            13 => ImageAlign::Contain,
            14 => ImageAlign::Cover,
            _ => ImageAlign::Default,
        }
    }

    /// Reading the written code back returns the same alignment.
    pub proof fn lemma_code_roundtrip(self)
        ensures
            ImageAlign::spec_from_raw(self.code()) == self,
    {
    }
}

/// Scale factor as a percentage: 100 is normal size, 200 doubles,
/// 50 halves.
#[derive(Clone, Copy, Debug, PartialEq, Eq, Structural)]
pub struct Scale(pub u16);

impl Scale {
    /// Create a scale from a percentage (100 is normal size).
    pub fn percent(pct: u16) -> (s: Scale)
        ensures
            s == Scale(pct),
    {
        Scale(pct)
    }

    /// Get the scale as a percentage.
    pub fn as_percent(self) -> (r: u16)
        ensures
            r == self.0,
    {
        self.0
    }

    /// The C ABI scale value, where 256 is 100%.
    pub open spec fn code(self) -> u32 {
        (self.0 * 256) as u32 / 100
    }

    /// Convert to the C ABI scale value (256 is 100%).
    pub fn to_raw(self) -> (r: u32)
        ensures
            r == self.code(),
    {
        (self.0 as u32 * 256) / 100
    }

    /// Read back from a C ABI scale value (256 is 100%).
    pub fn from_raw(raw: u32) -> (s: Scale)
        requires
            raw * 100 / 256 <= u16::MAX,
        ensures
            s.0 == raw * 100 / 256,
    {
        proof {
            assert(raw as int * 100 <= u32::MAX as int * 100) by (nonlinear_arith)
                requires
                    raw <= u32::MAX,
            ;
        }
        Scale(((raw as u64 * 100) / 256) as u16)
    }
}

impl Default for Scale {
    /// The default scale is 100%.
    fn default() -> (s: Scale)
        ensures
            s == Scale(100),
    {
        Scale(100)
    }
}

/// Rotation in whole degrees.
#[derive(Clone, Copy, Debug, PartialEq, Eq, Structural)]
pub struct Rotation(pub i16);

impl Rotation {
    /// Create a rotation from degrees.
    pub fn degrees(deg: i16) -> (r: Rotation)
        ensures
            r == Rotation(deg),
    {
        Rotation(deg)
    }

    /// Get the rotation in degrees.
    pub fn as_degrees(self) -> (r: i16)
        ensures
            r == self.0,
    {
        self.0
    }

    /// Convert to the C ABI rotation in 0.1 degree units.
    pub fn to_raw(self) -> (r: i32)
        ensures
            r == self.0 * 10,
    {
        self.0 as i32 * 10
    }

    /// Read back from a C ABI rotation in 0.1 degree units, rounding
    /// toward zero.
    pub fn from_raw(raw: i32) -> (r: Rotation)
        requires
            -327680 <= raw <= 327670,
        ensures
            raw >= 0 ==> r.0 == raw / 10,
            raw < 0 ==> r.0 == -((-raw) / 10),
    {
        if raw >= 0 {
            Rotation((raw / 10) as i16)
        } else {
            Rotation((-((-raw) / 10)) as i16)
        }
    }
}

/// Image widget: displays a picture with optional transform.
#[derive(Clone, Copy, Debug)]
pub struct Image {
    pub base: Obj,
    pub rotation: Rotation,
    pub scale_x: Scale,
    pub scale_y: Scale,
    /// The transform pivot point.
    pub pivot_x: i32,
    pub pivot_y: i32,
    /// The drawing offset of the source within the widget.
    pub offset_x: i32,
    pub offset_y: i32,
    pub antialias: bool,
    pub inner_align: ImageAlign,
}

impl Image {
    /// A fresh image: no transform, antialiased, default alignment.
    pub open spec fn initial() -> Image {
        Image {
            base: Obj::initial(),
            rotation: Rotation(0),
            scale_x: Scale(100),
            scale_y: Scale(100),
            pivot_x: 0,
            pivot_y: 0,
            offset_x: 0,
            offset_y: 0,
            antialias: true,
            inner_align: ImageAlign::Default,
        }
    }

    /// Create a new image as a child of the given parent.
    pub fn new<W: Widget>(parent: &mut W) -> (r: Option<Image>)
        requires
            old(parent).base_spec().child_count < u64::MAX,
        ensures
            *final(parent) == old(parent).with_base_spec(
                old(parent).base_spec().with_child_inc(),
            ),
            r == Some(Image::initial()),
    {
        let pb = parent.base_mut();
        pb.child_count = pb.child_count + 1;
        Some(
            Image {
                base: Obj::new_initial(),
                rotation: Rotation(0),
                scale_x: Scale(100),
                scale_y: Scale(100),
                pivot_x: 0,
                pivot_y: 0,
                offset_x: 0,
                offset_y: 0,
                antialias: true,
                inner_align: ImageAlign::Default,
            },
        )
    }

    /// Set the drawing offset of the source within the widget.
    pub fn set_offset(&mut self, x: i32, y: i32)
        ensures
            *final(self) == (Image { offset_x: x, offset_y: y, ..*old(self) }),
    {
        self.offset_x = x;
        self.offset_y = y;
    }

    /// Set the rotation around the pivot point.
    pub fn set_rotation(&mut self, rotation: Rotation)
        ensures
            *final(self) == (Image { rotation, ..*old(self) }),
    {
        self.rotation = rotation;
    }

    /// Get the rotation.
    pub fn rotation(&self) -> (r: Rotation)
        ensures
            r == self.rotation,
    {
        self.rotation
    }

    /// Set the transform pivot point.
    pub fn set_pivot(&mut self, x: i32, y: i32)
        ensures
            *final(self) == (Image { pivot_x: x, pivot_y: y, ..*old(self) }),
    {
        self.pivot_x = x;
        self.pivot_y = y;
    }

    /// Set both scale factors.
    pub fn set_scale(&mut self, scale: Scale)
        ensures
            *final(self) == (Image { scale_x: scale, scale_y: scale, ..*old(self) }),
    {
        self.scale_x = scale;
        self.scale_y = scale;
    }

    /// Set the horizontal scale factor.
    pub fn set_scale_x(&mut self, scale: Scale)
        ensures
            *final(self) == (Image { scale_x: scale, ..*old(self) }),
    {
        self.scale_x = scale;
    }

    /// Set the vertical scale factor.
    pub fn set_scale_y(&mut self, scale: Scale)
        ensures
            *final(self) == (Image { scale_y: scale, ..*old(self) }),
    {
        self.scale_y = scale;
    }

    /// Get the horizontal scale factor.
    pub fn scale(&self) -> (r: Scale)
        ensures
            r == self.scale_x,
    {
        self.scale_x
    }

    /// Get the horizontal scale factor.
    pub fn scale_x(&self) -> (r: Scale)
        ensures
            r == self.scale_x,
    {
        self.scale_x
    }

    /// Get the vertical scale factor.
    pub fn scale_y(&self) -> (r: Scale)
        ensures
            r == self.scale_y,
    {
        self.scale_y
    }

    /// Enable or disable antialiasing of transforms.
    pub fn set_antialias(&mut self, en: bool)
        ensures
            *final(self) == (Image { antialias: en, ..*old(self) }),
    {
        self.antialias = en;
    }

    /// Whether transforms are antialiased.
    pub fn antialias(&self) -> (r: bool)
        ensures
            r == self.antialias,
    {
        self.antialias
    }

    /// Set how the source is aligned inside the widget.
    pub fn set_inner_align(&mut self, align: ImageAlign)
        ensures
            *final(self) == (Image { inner_align: align, ..*old(self) }),
    {
        self.inner_align = align;
    }

    /// How the source is aligned inside the widget.
    pub fn inner_align(&self) -> (r: ImageAlign)
        ensures
            r == self.inner_align,
    {
        self.inner_align
    }
}

impl Widget for Image {
    open spec fn base_spec(&self) -> Obj {
        self.base
    }

    open spec fn with_base_spec(&self, b: Obj) -> Image {
        Image { base: b, ..*self }
    }

    fn base(&self) -> (r: &Obj) {
        &self.base
    }

    fn base_mut(&mut self) -> (r: &mut Obj) {
        &mut self.base
    }
}

} // verus!
