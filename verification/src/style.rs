//! Style system for widgets.
//!
//! Styles define visual properties that can be applied to widgets.  A style
//! is modeled as a bag of optional property values: a property is `None`
//! until its setter runs.  The first setter also initializes the style.

use crate::color::{Color, Opacity};
use vstd::prelude::*;

verus! {

/// A reusable bag of visual property values.
///
/// Each field holds the last value set for that property, or `None` if the
/// property was never set since creation or the last [`Style::reset`].
#[derive(Clone, Copy, Debug)]
pub struct Style {
    pub initialized: bool,
    pub bg_color: Option<Color>,
    pub bg_opa: Option<Opacity>,
    pub bg_grad_color: Option<Color>,
    pub bg_grad_dir: Option<GradDir>,
    pub border_color: Option<Color>,
    pub border_opa: Option<Opacity>,
    pub border_width: Option<i32>,
    pub border_side: Option<BorderSide>,
    pub radius: Option<i32>,
    pub pad_top: Option<i32>,
    pub pad_bottom: Option<i32>,
    pub pad_left: Option<i32>,
    pub pad_right: Option<i32>,
    pub pad_row: Option<i32>,
    pub pad_column: Option<i32>,
    pub width: Option<i32>,
    pub min_width: Option<i32>,
    pub max_width: Option<i32>,
    pub height: Option<i32>,
    pub min_height: Option<i32>,
    pub max_height: Option<i32>,
    pub text_color: Option<Color>,
    pub text_opa: Option<Opacity>,
    pub text_letter_space: Option<i32>,
    pub text_line_space: Option<i32>,
    pub text_align: Option<TextAlign>,
    pub outline_color: Option<Color>,
    pub outline_opa: Option<Opacity>,
    pub outline_width: Option<i32>,
    pub outline_pad: Option<i32>,
    pub shadow_color: Option<Color>,
    pub shadow_opa: Option<Opacity>,
    pub shadow_width: Option<i32>,
    pub shadow_offset_x: Option<i32>,
    pub shadow_offset_y: Option<i32>,
    pub shadow_spread: Option<i32>,
    pub transform_rotation: Option<i32>,
    pub transform_scale_x: Option<i32>,
    pub transform_scale_y: Option<i32>,
    pub opa: Option<Opacity>,
    pub flex_flow: Option<FlexFlow>,
    pub flex_grow: Option<u8>,
}

impl Style {
    /// A style with no property set.
    pub open spec fn empty() -> Style {
        Style {
            initialized: false,
            bg_color: None,
            bg_opa: None,
            bg_grad_color: None,
            bg_grad_dir: None,
            border_color: None,
            border_opa: None,
            border_width: None,
            border_side: None,
            radius: None,
            pad_top: None,
            pad_bottom: None,
            pad_left: None,
            pad_right: None,
            pad_row: None,
            pad_column: None,
            width: None,
            min_width: None,
            max_width: None,
            height: None,
            min_height: None,
            max_height: None,
            text_color: None,
            text_opa: None,
            text_letter_space: None,
            text_line_space: None,
            text_align: None,
            outline_color: None,
            outline_opa: None,
            outline_width: None,
            outline_pad: None,
            shadow_color: None,
            shadow_opa: None,
            shadow_width: None,
            shadow_offset_x: None,
            shadow_offset_y: None,
            shadow_spread: None,
            transform_rotation: None,
            transform_scale_x: None,
            transform_scale_y: None,
            opa: None,
            flex_flow: None,
            flex_grow: None,
        }
    }

    /// Create a new style with no property set.
    pub fn new() -> (s: Style)
        ensures
            s == Style::empty(),
    {
        Style {
            initialized: false,
            bg_color: None,
            bg_opa: None,
            bg_grad_color: None,
            bg_grad_dir: None,
            border_color: None,
            border_opa: None,
            border_width: None,
            border_side: None,
            radius: None,
            pad_top: None,
            pad_bottom: None,
            pad_left: None,
            pad_right: None,
            pad_row: None,
            pad_column: None,
            width: None,
            min_width: None,
            max_width: None,
            height: None,
            min_height: None,
            max_height: None,
            text_color: None,
            text_opa: None,
            text_letter_space: None,
            text_line_space: None,
            text_align: None,
            outline_color: None,
            outline_opa: None,
            outline_width: None,
            outline_pad: None,
            shadow_color: None,
            shadow_opa: None,
            shadow_width: None,
            shadow_offset_x: None,
            shadow_offset_y: None,
            shadow_spread: None,
            transform_rotation: None,
            transform_scale_x: None,
            transform_scale_y: None,
            opa: None,
            flex_flow: None,
            flex_grow: None,
        }
    }

    /// Set background color.
    pub fn set_bg_color(&mut self, color: Color)
        ensures
            *final(self) == (Style { initialized: true, bg_color: Some(color), ..*old(self) }),
    {
        self.initialized = true;
        self.bg_color = Some(color);
    }

    /// Set background opacity.
    pub fn set_bg_opa(&mut self, opa: Opacity)
        ensures
            *final(self) == (Style { initialized: true, bg_opa: Some(opa), ..*old(self) }),
    {
        self.initialized = true;
        self.bg_opa = Some(opa);
    }

    /// Set background gradient color.
    pub fn set_bg_grad_color(&mut self, color: Color)
        ensures
            *final(self) == (Style {
                initialized: true,
                bg_grad_color: Some(color),
                ..*old(self)
            }),
    {
        self.initialized = true;
        self.bg_grad_color = Some(color);
    }

    /// Set background gradient direction.
    pub fn set_bg_grad_dir(&mut self, dir: GradDir)
        ensures
            *final(self) == (Style { initialized: true, bg_grad_dir: Some(dir), ..*old(self) }),
    {
        self.initialized = true;
        self.bg_grad_dir = Some(dir);
    }

    /// Set border color.
    pub fn set_border_color(&mut self, color: Color)
        ensures
            *final(self) == (Style { initialized: true, border_color: Some(color), ..*old(self) }),
    {
        self.initialized = true;
        self.border_color = Some(color);
    }

    /// Set border opacity.
    pub fn set_border_opa(&mut self, opa: Opacity)
        ensures
            *final(self) == (Style { initialized: true, border_opa: Some(opa), ..*old(self) }),
    {
        self.initialized = true;
        self.border_opa = Some(opa);
    }

    /// Set border width.
    pub fn set_border_width(&mut self, width: i32)
        ensures
            *final(self) == (Style { initialized: true, border_width: Some(width), ..*old(self) }),
    {
        self.initialized = true;
        self.border_width = Some(width);
    }

    /// Set which sides have borders.
    pub fn set_border_side(&mut self, side: BorderSide)
        ensures
            *final(self) == (Style { initialized: true, border_side: Some(side), ..*old(self) }),
    {
        self.initialized = true;
        self.border_side = Some(side);
    }

    /// Set corner radius.
    pub fn set_radius(&mut self, radius: i32)
        ensures
            *final(self) == (Style { initialized: true, radius: Some(radius), ..*old(self) }),
    {
        self.initialized = true;
        self.radius = Some(radius);
    }

    /// Set all four padding values.
    pub fn set_pad_all(&mut self, pad: i32)
        ensures
            *final(self) == (Style {
                initialized: true,
                pad_top: Some(pad),
                pad_bottom: Some(pad),
                pad_left: Some(pad),
                pad_right: Some(pad),
                ..*old(self)
            }),
    {
        self.set_pad_top(pad);
        self.set_pad_bottom(pad);
        self.set_pad_left(pad);
        self.set_pad_right(pad);
    }

    /// Set horizontal padding (left and right).
    pub fn set_pad_hor(&mut self, pad: i32)
        ensures
            *final(self) == (Style {
                initialized: true,
                pad_left: Some(pad),
                pad_right: Some(pad),
                ..*old(self)
            }),
    {
        self.set_pad_left(pad);
        self.set_pad_right(pad);
    }

    /// Set vertical padding (top and bottom).
    pub fn set_pad_ver(&mut self, pad: i32)
        ensures
            *final(self) == (Style {
                initialized: true,
                pad_top: Some(pad),
                pad_bottom: Some(pad),
                ..*old(self)
            }),
    {
        self.set_pad_top(pad);
        self.set_pad_bottom(pad);
    }

    /// Set top padding.
    pub fn set_pad_top(&mut self, pad: i32)
        ensures
            *final(self) == (Style { initialized: true, pad_top: Some(pad), ..*old(self) }),
    {
        self.initialized = true;
        self.pad_top = Some(pad);
    }

    /// Set bottom padding.
    pub fn set_pad_bottom(&mut self, pad: i32)
        ensures
            *final(self) == (Style { initialized: true, pad_bottom: Some(pad), ..*old(self) }),
    {
        self.initialized = true;
        self.pad_bottom = Some(pad);
    }

    /// Set left padding.
    pub fn set_pad_left(&mut self, pad: i32)
        ensures
            *final(self) == (Style { initialized: true, pad_left: Some(pad), ..*old(self) }),
    {
        self.initialized = true;
        self.pad_left = Some(pad);
    }

    /// Set right padding.
    pub fn set_pad_right(&mut self, pad: i32)
        ensures
            *final(self) == (Style { initialized: true, pad_right: Some(pad), ..*old(self) }),
    {
        self.initialized = true;
        self.pad_right = Some(pad);
    }

    /// Set padding between rows in flex and grid layouts.
    pub fn set_pad_row(&mut self, pad: i32)
        ensures
            *final(self) == (Style { initialized: true, pad_row: Some(pad), ..*old(self) }),
    {
        self.initialized = true;
        self.pad_row = Some(pad);
    }

    /// Set padding between columns in flex and grid layouts.
    pub fn set_pad_column(&mut self, pad: i32)
        ensures
            *final(self) == (Style { initialized: true, pad_column: Some(pad), ..*old(self) }),
    {
        self.initialized = true;
        self.pad_column = Some(pad);
    }

    /// Set width.
    pub fn set_width(&mut self, width: i32)
        ensures
            *final(self) == (Style { initialized: true, width: Some(width), ..*old(self) }),
    {
        self.initialized = true;
        self.width = Some(width);
    }

    /// Set minimum width.
    pub fn set_min_width(&mut self, width: i32)
        ensures
            *final(self) == (Style { initialized: true, min_width: Some(width), ..*old(self) }),
    {
        self.initialized = true;
        self.min_width = Some(width);
    }

    /// Set maximum width.
    pub fn set_max_width(&mut self, width: i32)
        ensures
            *final(self) == (Style { initialized: true, max_width: Some(width), ..*old(self) }),
    {
        self.initialized = true;
        self.max_width = Some(width);
    }

    /// Set height.
    pub fn set_height(&mut self, height: i32)
        ensures
            *final(self) == (Style { initialized: true, height: Some(height), ..*old(self) }),
    {
        self.initialized = true;
        self.height = Some(height);
    }

    /// Set minimum height.
    pub fn set_min_height(&mut self, height: i32)
        ensures
            *final(self) == (Style { initialized: true, min_height: Some(height), ..*old(self) }),
    {
        self.initialized = true;
        self.min_height = Some(height);
    }

    /// Set maximum height.
    pub fn set_max_height(&mut self, height: i32)
        ensures
            *final(self) == (Style { initialized: true, max_height: Some(height), ..*old(self) }),
    {
        self.initialized = true;
        self.max_height = Some(height);
    }

    /// Set text color.
    pub fn set_text_color(&mut self, color: Color)
        ensures
            *final(self) == (Style { initialized: true, text_color: Some(color), ..*old(self) }),
    {
        self.initialized = true;
        self.text_color = Some(color);
    }

    /// Set text opacity.
    pub fn set_text_opa(&mut self, opa: Opacity)
        ensures
            *final(self) == (Style { initialized: true, text_opa: Some(opa), ..*old(self) }),
    {
        self.initialized = true;
        self.text_opa = Some(opa);
    }

    /// Set text letter spacing.
    pub fn set_text_letter_space(&mut self, space: i32)
        ensures
            *final(self) == (Style {
                initialized: true,
                text_letter_space: Some(space),
                ..*old(self)
            }),
    {
        self.initialized = true;
        self.text_letter_space = Some(space);
    }

    /// Set text line spacing.
    pub fn set_text_line_space(&mut self, space: i32)
        ensures
            *final(self) == (Style {
                initialized: true,
                text_line_space: Some(space),
                ..*old(self)
            }),
    {
        self.initialized = true;
        self.text_line_space = Some(space);
    }

    /// Set text alignment.
    pub fn set_text_align(&mut self, align: TextAlign)
        ensures
            *final(self) == (Style { initialized: true, text_align: Some(align), ..*old(self) }),
    {
        self.initialized = true;
        self.text_align = Some(align);
    }

    /// Set outline color.
    pub fn set_outline_color(&mut self, color: Color)
        ensures
            *final(self) == (Style {
                initialized: true,
                outline_color: Some(color),
                ..*old(self)
            }),
    {
        self.initialized = true;
        self.outline_color = Some(color);
    }

    /// Set outline opacity.
    pub fn set_outline_opa(&mut self, opa: Opacity)
        ensures
            *final(self) == (Style { initialized: true, outline_opa: Some(opa), ..*old(self) }),
    {
        self.initialized = true;
        self.outline_opa = Some(opa);
    }

    /// Set outline width.
    pub fn set_outline_width(&mut self, width: i32)
        ensures
            *final(self) == (Style {
                initialized: true,
                outline_width: Some(width),
                ..*old(self)
            }),
    {
        self.initialized = true;
        self.outline_width = Some(width);
    }

    /// Set outline padding (offset from the widget).
    pub fn set_outline_pad(&mut self, pad: i32)
        ensures
            *final(self) == (Style { initialized: true, outline_pad: Some(pad), ..*old(self) }),
    {
        self.initialized = true;
        self.outline_pad = Some(pad);
    }

    /// Set shadow color.
    pub fn set_shadow_color(&mut self, color: Color)
        ensures
            *final(self) == (Style { initialized: true, shadow_color: Some(color), ..*old(self) }),
    {
        self.initialized = true;
        self.shadow_color = Some(color);
    }

    /// Set shadow opacity.
    pub fn set_shadow_opa(&mut self, opa: Opacity)
        ensures
            *final(self) == (Style { initialized: true, shadow_opa: Some(opa), ..*old(self) }),
    {
        self.initialized = true;
        self.shadow_opa = Some(opa);
    }

    /// Set shadow width (blur).
    pub fn set_shadow_width(&mut self, width: i32)
        ensures
            *final(self) == (Style { initialized: true, shadow_width: Some(width), ..*old(self) }),
    {
        self.initialized = true;
        self.shadow_width = Some(width);
    }

    /// Set shadow X offset.
    pub fn set_shadow_offset_x(&mut self, offset: i32)
        ensures
            *final(self) == (Style {
                initialized: true,
                shadow_offset_x: Some(offset),
                ..*old(self)
            }),
    {
        self.initialized = true;
        self.shadow_offset_x = Some(offset);
    }

    /// Set shadow Y offset.
    pub fn set_shadow_offset_y(&mut self, offset: i32)
        ensures
            *final(self) == (Style {
                initialized: true,
                shadow_offset_y: Some(offset),
                ..*old(self)
            }),
    {
        self.initialized = true;
        self.shadow_offset_y = Some(offset);
    }

    /// Set shadow spread.
    pub fn set_shadow_spread(&mut self, spread: i32)
        ensures
            *final(self) == (Style {
                initialized: true,
                shadow_spread: Some(spread),
                ..*old(self)
            }),
    {
        self.initialized = true;
        self.shadow_spread = Some(spread);
    }

    /// Set rotation angle in 0.1 degree units (450 is 45 degrees).
    pub fn set_transform_rotation(&mut self, angle: i32)
        ensures
            *final(self) == (Style {
                initialized: true,
                transform_rotation: Some(angle),
                ..*old(self)
            }),
    {
        self.initialized = true;
        self.transform_rotation = Some(angle);
    }

    /// Set horizontal scale (256 is 100%).
    pub fn set_transform_scale_x(&mut self, scale: i32)
        ensures
            *final(self) == (Style {
                initialized: true,
                transform_scale_x: Some(scale),
                ..*old(self)
            }),
    {
        self.initialized = true;
        self.transform_scale_x = Some(scale);
    }

    /// Set vertical scale (256 is 100%).
    pub fn set_transform_scale_y(&mut self, scale: i32)
        ensures
            *final(self) == (Style {
                initialized: true,
                transform_scale_y: Some(scale),
                ..*old(self)
            }),
    {
        self.initialized = true;
        self.transform_scale_y = Some(scale);
    }

    /// Set overall opacity.
    pub fn set_opa(&mut self, opa: Opacity)
        ensures
            *final(self) == (Style { initialized: true, opa: Some(opa), ..*old(self) }),
    {
        self.initialized = true;
        self.opa = Some(opa);
    }

    /// Set flex flow direction.
    pub fn set_flex_flow(&mut self, flow: FlexFlow)
        ensures
            *final(self) == (Style { initialized: true, flex_flow: Some(flow), ..*old(self) }),
    {
        self.initialized = true;
        self.flex_flow = Some(flow);
    }

    /// Set flex grow factor.
    pub fn set_flex_grow(&mut self, grow: u8)
        ensures
            *final(self) == (Style { initialized: true, flex_grow: Some(grow), ..*old(self) }),
    {
        self.initialized = true;
        self.flex_grow = Some(grow);
    }

    /// Reset the style to its default, unset values.
    pub fn reset(&mut self)
        ensures
            *final(self) == Style::empty(),
    {
        *self = Style::new();
    }
}

impl Default for Style {
    /// The default style has no property set.
    fn default() -> (s: Style)
        ensures
            s == Style::empty(),
    {
        Style::new()
    }
}

/// Style selector bits: the widget part in the upper bits, state bits in
/// the lower bits.
#[derive(Clone, Copy, Debug, PartialEq, Eq, Structural)]
pub struct StyleSelector(pub u32);

impl StyleSelector {
    /// The main part of the widget.
    pub fn main() -> (s: StyleSelector)
        ensures
            s.0 == 0,
    {
        StyleSelector(0)
    }

    /// The scrollbar part.
    pub fn scrollbar() -> (s: StyleSelector)
        ensures
            s.0 == 0x10000,
    {
        StyleSelector(0x10000)
    }

    /// The indicator part.
    pub fn indicator() -> (s: StyleSelector)
        ensures
            s.0 == 0x20000,
    {
        StyleSelector(0x20000)
    }

    /// The knob part.
    pub fn knob() -> (s: StyleSelector)
        ensures
            s.0 == 0x30000,
    {
        StyleSelector(0x30000)
    }

    /// The selected part.
    pub fn selected() -> (s: StyleSelector)
        ensures
            s.0 == 0x40000,
    {
        StyleSelector(0x40000)
    }

    /// The items part.
    pub fn items() -> (s: StyleSelector)
        ensures
            s.0 == 0x50000,
    {
        StyleSelector(0x50000)
    }

    /// The cursor part.
    pub fn cursor() -> (s: StyleSelector)
        ensures
            s.0 == 0x60000,
    {
        StyleSelector(0x60000)
    }

    /// A selector for the given widget state bits.
    pub fn for_state(state: crate::widgets::State) -> (s: StyleSelector)
        ensures
            s.0 == state.0,
    {
        StyleSelector(state.0)
    }

    /// The raw selector bits.
    pub fn bits(self) -> (r: u32)
        ensures
            r == self.0,
    {
        self.0
    }

    /// The union of two selectors.
    pub fn union(self, other: StyleSelector) -> (s: StyleSelector)
        ensures
            s.0 == self.0 | other.0,
    {
        StyleSelector(self.0 | other.0)
    }
}

impl Default for StyleSelector {
    /// The default selector targets the main part in the default state.
    fn default() -> (s: StyleSelector)
        ensures
            s.0 == 0,
    {
        StyleSelector(0)
    }
}

/// Gradient direction.
#[derive(Clone, Copy, Debug, PartialEq, Eq, Structural)]
pub enum GradDir {
    /// No gradient.
    NoGradient,
    /// Horizontal gradient.
    Horizontal,
    /// Vertical gradient.
    Vertical,
}

impl GradDir {
    /// The C ABI code of this direction.
    pub open spec fn code(self) -> u32 {
        match self {
            GradDir::NoGradient => 0,
            GradDir::Vertical => 1,
            GradDir::Horizontal => 2,
        }
    }

    /// Convert to the C ABI code.
    pub fn to_raw(self) -> (r: u32)
        ensures
            r == self.code(),
    {
        match self {
            GradDir::NoGradient => 0,
            GradDir::Vertical => 1,
            GradDir::Horizontal => 2,
        }
    }
}

/// Border sides.
#[derive(Clone, Copy, Debug, PartialEq, Eq, Structural)]
pub struct BorderSide(pub u8);

impl BorderSide {
    /// No border.
    pub fn none() -> (b: BorderSide)
        ensures
            b.0 == 0,
    {
        BorderSide(0)
    }

    /// Border at the bottom.
    pub fn bottom() -> (b: BorderSide)
        ensures
            b.0 == 1,
    {
        BorderSide(1)
    }

    /// Border at the top.
    pub fn top() -> (b: BorderSide)
        ensures
            b.0 == 2,
    {
        BorderSide(2)
    }

    /// Border on the left.
    pub fn left() -> (b: BorderSide)
        ensures
            b.0 == 4,
    {
        BorderSide(4)
    }

    /// Border on the right.
    pub fn right() -> (b: BorderSide)
        ensures
            b.0 == 8,
    {
        BorderSide(8)
    }

    /// Border on every side.
    pub fn full() -> (b: BorderSide)
        ensures
            b.0 == 0xf,
    {
        BorderSide(0xf)
    }

    /// The raw side bits.
    pub fn bits(self) -> (r: u8)
        ensures
            r == self.0,
    {
        self.0
    }

    /// The union of two side sets.
    pub fn union(self, other: BorderSide) -> (b: BorderSide)
        ensures
            b.0 == self.0 | other.0,
    {
        BorderSide(self.0 | other.0)
    }
}

/// Text alignment.
#[derive(Clone, Copy, Debug, PartialEq, Eq, Structural)]
pub enum TextAlign {
    Auto,
    Left,
    Center,
    Right,
}

impl TextAlign {
    /// The C ABI code of this alignment.
    pub open spec fn code(self) -> u32 {
        match self {
            TextAlign::Auto => 0,
            TextAlign::Left => 1,
            TextAlign::Center => 2,
            TextAlign::Right => 3,
        }
    }

    /// Convert to the C ABI code.
    pub fn to_raw(self) -> (r: u32)
        ensures
            r == self.code(),
    {
        match self {
            TextAlign::Auto => 0,
            TextAlign::Left => 1,
            TextAlign::Center => 2,
            TextAlign::Right => 3,
        }
    }
}

/// Flex layout flow direction, as a style property.
///
/// The codes match [`crate::layout::FlexFlow`].
#[derive(Clone, Copy, Debug, PartialEq, Eq, Structural)]
pub enum FlexFlow {
    Row,
    Column,
    RowWrap,
    RowReverse,
    RowWrapReverse,
    ColumnWrap,
    ColumnReverse,
    ColumnWrapReverse,
}

impl FlexFlow {
    /// The C ABI code of this flow.
    pub open spec fn code(self) -> u32 {
        match self {
            FlexFlow::Row => 0x0,
            FlexFlow::Column => 0x1,
            FlexFlow::RowWrap => 0x4,
            FlexFlow::RowReverse => 0x8,
            FlexFlow::RowWrapReverse => 0xc,
            FlexFlow::ColumnWrap => 0x5,
            FlexFlow::ColumnReverse => 0x9,
            FlexFlow::ColumnWrapReverse => 0xd,
        }
    }

    /// Convert to the C ABI code.
    pub fn to_raw(self) -> (r: u32)
        ensures
            r == self.code(),
    {
        match self {
            FlexFlow::Row => 0x0,
            FlexFlow::Column => 0x1,
            FlexFlow::RowWrap => 0x4,
            FlexFlow::RowReverse => 0x8,
            FlexFlow::RowWrapReverse => 0xc,
            FlexFlow::ColumnWrap => 0x5,
            FlexFlow::ColumnReverse => 0x9,
            FlexFlow::ColumnWrapReverse => 0xd,
        }
    }
}

} // verus!
