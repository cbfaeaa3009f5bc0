//! Widget types and the `Widget` trait.
//!
//! All UI elements are widgets.  This module provides:
//!
//! - [`Obj`] - the observable state of a base widget
//! - [`Widget`] - trait implemented by all widgets
//! - [`Screen`] - the root widget for a display
//! - Specific widget types: [`Button`], [`Label`], and the rest as submodules

pub mod arc;
pub mod bar;
pub mod button;
pub mod buttonmatrix;
pub mod calendar;
pub mod canvas;
pub mod chart;
pub mod checkbox;
pub mod dropdown;
pub mod image;
pub mod imagebutton;
pub mod keyboard;
pub mod label;
pub mod led;
pub mod line;
pub mod list;
pub mod menu;
pub mod msgbox;
pub mod roller;
pub mod scale;
pub mod slider;
pub mod span;
pub mod spinbox;
pub mod spinner;
pub mod switch;
pub mod table;
pub mod tabview;
pub mod textarea;
pub mod tileview;
pub mod window;

pub use button::Button;
pub use label::Label;
pub use line::Point;

use crate::layout::{Direction, FlexAlign, FlexFlow, GridAlign, GridCell};
use crate::scroll::{ScrollSnap, ScrollbarMode};
use crate::style::{Style, StyleSelector};
use vstd::prelude::*;

verus! {

/// The largest coordinate value the layout engine can represent.
pub const COORD_MAX: i32 = 0x1fff_ffff;

/// Special size value that makes a widget fit its content.
pub const SIZE_CONTENT: i32 = COORD_MAX | (1 << 29);

/// The widget state bit for `checked`.
pub const STATE_CHECKED: u32 = 0x0001;

/// The widget state bit for `disabled`.
pub const STATE_DISABLED: u32 = 0x0080;

/// The widget flag bit for `hidden`.
pub const FLAG_HIDDEN: u32 = 0x0001;

/// An `int` clamped into the `i32` range.
pub open spec fn saturate_i32(v: int) -> i32 {
    if v > i32::MAX {
        i32::MAX
    } else if v < i32::MIN {
        i32::MIN
    } else {
        v as i32
    }
}

/// Add two `i32` values, saturating at the type's limits.
pub fn sat_add_i32(a: i32, b: i32) -> (r: i32)
    ensures
        r == saturate_i32(a + b),
{
    let wide: i64 = a as i64 + b as i64;
    if wide > i32::MAX as i64 {
        i32::MAX
    } else if wide < i32::MIN as i64 {
        i32::MIN
    } else {
        wide as i32
    }
}

/// Widget state bits (checked, focused, pressed, and so on).
#[derive(Clone, Copy, Debug, PartialEq, Eq, Structural)]
pub struct State(pub u32);

impl State {
    /// The empty state set.
    pub fn empty() -> (s: State)
        ensures
            s.0 == 0,
    {
        State(0)
    }

    /// Toggled or checked.
    pub fn checked() -> (s: State)
        ensures
            s.0 == STATE_CHECKED,
    {
        State(STATE_CHECKED)
    }

    /// Focused via keypad, encoder or clicked via touchpad or mouse.
    pub fn focused() -> (s: State)
        ensures
            s.0 == 0x0002,
    {
        State(0x0002)
    }

    /// Focused via keypad or encoder, but not via touchpad or mouse.
    pub fn focus_key() -> (s: State)
        ensures
            s.0 == 0x0004,
    {
        State(0x0004)
    }

    /// Being edited by an encoder.
    pub fn edited() -> (s: State)
        ensures
            s.0 == 0x0008,
    {
        State(0x0008)
    }

    /// Hovered by a mouse.
    pub fn hovered() -> (s: State)
        ensures
            s.0 == 0x0010,
    {
        State(0x0010)
    }

    /// Being pressed.
    pub fn pressed() -> (s: State)
        ensures
            s.0 == 0x0020,
    {
        State(0x0020)
    }

    /// Being scrolled.
    pub fn scrolled() -> (s: State)
        ensures
            s.0 == 0x0040,
    {
        State(0x0040)
    }

    /// Disabled.
    pub fn disabled() -> (s: State)
        ensures
            s.0 == STATE_DISABLED,
    {
        State(STATE_DISABLED)
    }

    /// The raw state bits.
    pub fn bits(self) -> (r: u32)
        ensures
            r == self.0,
    {
        self.0
    }

    /// The union of two state sets.
    pub fn union(self, other: State) -> (s: State)
        ensures
            s.0 == self.0 | other.0,
    {
        State(self.0 | other.0)
    }

    /// Whether every bit of `other` is present in `self`.
    pub fn contains(self, other: State) -> (r: bool)
        ensures
            r == (self.0 & other.0 == other.0),
    {
        self.0 & other.0 == other.0
    }
}

/// Widget behavior flag bits (hidden, clickable, scrollable, and so on).
#[derive(Clone, Copy, Debug, PartialEq, Eq, Structural)]
pub struct Flag(pub u32);

impl Flag {
    /// Make the widget hidden, as if it were not there at all.
    pub fn hidden() -> (f: Flag)
        ensures
            f.0 == FLAG_HIDDEN,
    {
        Flag(FLAG_HIDDEN)
    }

    /// Make the widget clickable by input devices.
    pub fn clickable() -> (f: Flag)
        ensures
            f.0 == 0x0002,
    {
        Flag(0x0002)
    }

    /// Add focused state to the widget when clicked.
    pub fn click_focusable() -> (f: Flag)
        ensures
            f.0 == 0x0004,
    {
        Flag(0x0004)
    }

    /// Toggle checked state when the widget is clicked.
    pub fn checkable() -> (f: Flag)
        ensures
            f.0 == 0x0008,
    {
        Flag(0x0008)
    }

    /// Make the widget scrollable.
    pub fn scrollable() -> (f: Flag)
        ensures
            f.0 == 0x0010,
    {
        Flag(0x0010)
    }

    /// Allow scrolling inside but with slower speed.
    pub fn scroll_elastic() -> (f: Flag)
        ensures
            f.0 == 0x0020,
    {
        Flag(0x0020)
    }

    /// Make the widget scroll further when "thrown".
    pub fn scroll_momentum() -> (f: Flag)
        ensures
            f.0 == 0x0040,
    {
        Flag(0x0040)
    }

    /// Allow scrolling only one snappable child.
    pub fn scroll_one() -> (f: Flag)
        ensures
            f.0 == 0x0080,
    {
        Flag(0x0080)
    }

    /// Allow propagating horizontal scroll to a parent.
    pub fn scroll_chain_hor() -> (f: Flag)
        ensures
            f.0 == 0x0100,
    {
        Flag(0x0100)
    }

    /// Allow propagating vertical scroll to a parent.
    pub fn scroll_chain_ver() -> (f: Flag)
        ensures
            f.0 == 0x0200,
    {
        Flag(0x0200)
    }

    /// Automatically scroll the widget into view when focused.
    pub fn scroll_on_focus() -> (f: Flag)
        ensures
            f.0 == 0x0400,
    {
        Flag(0x0400)
    }

    /// Allow scrolling the focused widget with arrow keys.
    pub fn scroll_with_arrow() -> (f: Flag)
        ensures
            f.0 == 0x0800,
    {
        Flag(0x0800)
    }

    /// Make the widget snappable during parent scrolling.
    pub fn snappable() -> (f: Flag)
        ensures
            f.0 == 0x1000,
    {
        Flag(0x1000)
    }

    /// Keep the pressed state even if the press moves off the widget.
    pub fn press_lock() -> (f: Flag)
        ensures
            f.0 == 0x2000,
    {
        Flag(0x2000)
    }

    /// Propagate events to the parent.
    pub fn event_bubble() -> (f: Flag)
        ensures
            f.0 == 0x4000,
    {
        Flag(0x4000)
    }

    /// Propagate gestures to the parent.
    pub fn gesture_bubble() -> (f: Flag)
        ensures
            f.0 == 0x8000,
    {
        Flag(0x8000)
    }

    /// Allow performing a more accurate hit test.
    pub fn adv_hittest() -> (f: Flag)
        ensures
            f.0 == 0x10000,
    {
        Flag(0x10000)
    }

    /// Make the widget invisible to layouts.
    pub fn ignore_layout() -> (f: Flag)
        ensures
            f.0 == 0x20000,
    {
        Flag(0x20000)
    }

    /// Do not scroll the widget when the parent scrolls, and ignore layout.
    pub fn floating() -> (f: Flag)
        ensures
            f.0 == 0x40000,
    {
        Flag(0x40000)
    }

    /// Send draw task events for the widget.
    pub fn send_draw_task_events() -> (f: Flag)
        ensures
            f.0 == 0x80000,
    {
        Flag(0x80000)
    }

    /// Do not clip children to the widget's boundary.
    pub fn overflow_visible() -> (f: Flag)
        ensures
            f.0 == 0x100000,
    {
        Flag(0x100000)
    }

    /// Start a new flex track on this item.
    pub fn flex_in_new_track() -> (f: Flag)
        ensures
            f.0 == 0x200000,
    {
        Flag(0x200000)
    }

    /// The raw flag bits.
    pub fn bits(self) -> (r: u32)
        ensures
            r == self.0,
    {
        self.0
    }

    /// The union of two flag sets.
    pub fn union(self, other: Flag) -> (f: Flag)
        ensures
            f.0 == self.0 | other.0,
    {
        Flag(self.0 | other.0)
    }

    /// Whether every bit of `other` is present in `self`.
    pub fn contains(self, other: Flag) -> (r: bool)
        ensures
            r == (self.0 & other.0 == other.0),
    {
        self.0 & other.0 == other.0
    }
}

/// Alignment options.
#[derive(Clone, Copy, Debug, PartialEq, Eq, Structural)]
pub enum Align {
    Default,
    TopLeft,
    TopMid,
    TopRight,
    BottomLeft,
    BottomMid,
    BottomRight,
    LeftMid,
    RightMid,
    Center,
    OutTopLeft,
    OutTopMid,
    OutTopRight,
    OutBottomLeft,
    OutBottomMid,
    OutBottomRight,
    OutLeftTop,
    OutLeftMid,
    OutLeftBottom,
    OutRightTop,
    OutRightMid,
    OutRightBottom,
}

impl Align {
    /// The C ABI code of this alignment.
    pub open spec fn code(self) -> u32 {
        match self {
            Align::Default => 0,
            Align::TopLeft => 1,
            Align::TopMid => 2,
            Align::TopRight => 3,
            Align::BottomLeft => 4,
            Align::BottomMid => 5,
            Align::BottomRight => 6,
            Align::LeftMid => 7,
            Align::RightMid => 8,
            Align::Center => 9,
            Align::OutTopLeft => 10,
            Align::OutTopMid => 11,
            Align::OutTopRight => 12,
            Align::OutBottomLeft => 13,
            Align::OutBottomMid => 14,
            Align::OutBottomRight => 15,
            Align::OutLeftTop => 16,
            Align::OutLeftMid => 17,
            Align::OutLeftBottom => 18,
            Align::OutRightTop => 19,
            Align::OutRightMid => 20,
            Align::OutRightBottom => 21,
        }
    }

    /// Convert to the C ABI code.
    pub fn to_raw(self) -> (r: u32)
        ensures
            r == self.code(),
    {
        match self {
            Align::Default => 0,
            Align::TopLeft => 1,
            Align::TopMid => 2,
            Align::TopRight => 3,
            Align::BottomLeft => 4,
            Align::BottomMid => 5,
            Align::BottomRight => 6,
            Align::LeftMid => 7,
            Align::RightMid => 8,
            Align::Center => 9,
            Align::OutTopLeft => 10,
            Align::OutTopMid => 11,
            Align::OutTopRight => 12,
            Align::OutBottomLeft => 13,
            Align::OutBottomMid => 14,
            Align::OutBottomRight => 15,
            Align::OutLeftTop => 16,
            Align::OutLeftMid => 17,
            Align::OutLeftBottom => 18,
            Align::OutRightTop => 19,
            Align::OutRightMid => 20,
            Align::OutRightBottom => 21,
        }
    }
}

/// Screen load animation types.
#[derive(Clone, Copy, Debug, PartialEq, Eq, Structural)]
pub enum ScreenLoadAnim {
    NoAnim,
    OverLeft,
    OverRight,
    OverTop,
    OverBottom,
    MoveLeft,
    MoveRight,
    MoveTop,
    MoveBottom,
    FadeIn,
    FadeOut,
    OutLeft,
    OutRight,
    OutTop,
    OutBottom,
}

impl ScreenLoadAnim {
    /// The C ABI code of this animation.
    pub open spec fn code(self) -> u32 {
        match self {
            ScreenLoadAnim::NoAnim => 0,
            ScreenLoadAnim::OverLeft => 1,
            ScreenLoadAnim::OverRight => 2,
            ScreenLoadAnim::OverTop => 3,
            ScreenLoadAnim::OverBottom => 4,
            ScreenLoadAnim::MoveLeft => 5,
            ScreenLoadAnim::MoveRight => 6,
            ScreenLoadAnim::MoveTop => 7,
            ScreenLoadAnim::MoveBottom => 8,
            ScreenLoadAnim::FadeIn => 9,
            ScreenLoadAnim::FadeOut => 10,
            ScreenLoadAnim::OutLeft => 11,
            ScreenLoadAnim::OutRight => 12,
            ScreenLoadAnim::OutTop => 13,
            ScreenLoadAnim::OutBottom => 14,
        }
    }

    /// Convert to the C ABI code.
    pub fn to_raw(self) -> (r: u32)
        ensures
            r == self.code(),
    {
        match self {
            ScreenLoadAnim::NoAnim => 0,
            ScreenLoadAnim::OverLeft => 1,
            ScreenLoadAnim::OverRight => 2,
            ScreenLoadAnim::OverTop => 3,
            ScreenLoadAnim::OverBottom => 4,
            ScreenLoadAnim::MoveLeft => 5,
            ScreenLoadAnim::MoveRight => 6,
            ScreenLoadAnim::MoveTop => 7,
            ScreenLoadAnim::MoveBottom => 8,
            ScreenLoadAnim::FadeIn => 9,
            ScreenLoadAnim::FadeOut => 10,
            ScreenLoadAnim::OutLeft => 11,
            ScreenLoadAnim::OutRight => 12,
            ScreenLoadAnim::OutTop => 13,
            ScreenLoadAnim::OutBottom => 14,
        }
    }
}

/// The observable state of a base widget.
///
/// Every widget owns one `Obj` record holding the attributes that the API
/// can set and read back: position, size, state and flag bits, alignment,
/// attached styles, scrolling and layout configuration.  A freshly created
/// widget starts from [`Obj::initial`].
#[derive(Clone, Copy, Debug)]
pub struct Obj {
    pub x: i32,
    pub y: i32,
    /// How many children were created under this widget.
    pub child_count: u64,
    pub width: i32,
    pub height: i32,
    pub state: u32,
    pub flags: u32,
    pub align: Align,
    pub align_x: i32,
    pub align_y: i32,
    pub style_count: u64,
    pub scroll_x: i32,
    pub scroll_y: i32,
    pub scrolling: bool,
    pub scrollbar_mode: ScrollbarMode,
    pub scroll_dir: Direction,
    pub snap_x: ScrollSnap,
    pub snap_y: ScrollSnap,
    pub flex_flow: Option<FlexFlow>,
    pub flex_grow: u8,
    pub flex_main: FlexAlign,
    pub flex_cross: FlexAlign,
    pub flex_track: FlexAlign,
    pub grid_cell: Option<GridCell>,
    pub grid_col_align: GridAlign,
    pub grid_row_align: GridAlign,
}

impl Obj {
    /// The state of a freshly created widget: at the origin with zero size,
    /// no state or flag bits, no styles, scrollable in all directions with
    /// an automatic scrollbar, and no layout configured.
    pub open spec fn initial() -> Obj {
        Obj {
            x: 0,
            y: 0,
            child_count: 0,
            width: 0,
            height: 0,
            state: 0,
            flags: 0,
            align: Align::Default,
            align_x: 0,
            align_y: 0,
            style_count: 0,
            scroll_x: 0,
            scroll_y: 0,
            scrolling: false,
            scrollbar_mode: ScrollbarMode::Auto,
            scroll_dir: Direction(15),
            snap_x: ScrollSnap::NoSnap,
            snap_y: ScrollSnap::NoSnap,
            flex_flow: None,
            flex_grow: 0,
            flex_main: FlexAlign::Start,
            flex_cross: FlexAlign::Start,
            flex_track: FlexAlign::Start,
            grid_cell: None,
            grid_col_align: GridAlign::Start,
            grid_row_align: GridAlign::Start,
        }
    }

    /// Build the state of a freshly created widget.
    pub fn new_initial() -> (o: Obj)
        ensures
            o == Obj::initial(),
    {
        Obj {
            x: 0,
            y: 0,
            child_count: 0,
            width: 0,
            height: 0,
            state: 0,
            flags: 0,
            align: Align::Default,
            align_x: 0,
            align_y: 0,
            style_count: 0,
            scroll_x: 0,
            scroll_y: 0,
            scrolling: false,
            scrollbar_mode: ScrollbarMode::Auto,
            scroll_dir: Direction(15),
            snap_x: ScrollSnap::NoSnap,
            snap_y: ScrollSnap::NoSnap,
            flex_flow: None,
            flex_grow: 0,
            flex_main: FlexAlign::Start,
            flex_cross: FlexAlign::Start,
            flex_track: FlexAlign::Start,
            grid_cell: None,
            grid_col_align: GridAlign::Start,
            grid_row_align: GridAlign::Start,
        }
    }

    pub open spec fn with_child_inc(self) -> Obj {
        Obj { child_count: (self.child_count + 1) as u64, ..self }
    }

    pub open spec fn with_pos(self, x: i32, y: i32) -> Obj {
        Obj { x, y, ..self }
    }

    pub open spec fn with_x(self, x: i32) -> Obj {
        Obj { x, ..self }
    }

    pub open spec fn with_y(self, y: i32) -> Obj {
        Obj { y, ..self }
    }

    pub open spec fn with_size(self, width: i32, height: i32) -> Obj {
        Obj { width, height, ..self }
    }

    pub open spec fn with_width(self, width: i32) -> Obj {
        Obj { width, ..self }
    }

    pub open spec fn with_height(self, height: i32) -> Obj {
        Obj { height, ..self }
    }

    pub open spec fn with_state(self, state: u32) -> Obj {
        Obj { state, ..self }
    }

    pub open spec fn with_flags(self, flags: u32) -> Obj {
        Obj { flags, ..self }
    }

    pub open spec fn with_align(self, align: Align, align_x: i32, align_y: i32) -> Obj {
        Obj { align, align_x, align_y, ..self }
    }

    pub open spec fn with_style_count(self, style_count: u64) -> Obj {
        Obj { style_count, ..self }
    }

    pub open spec fn with_scroll(self, sx: int, sy: int) -> Obj {
        Obj { scroll_x: saturate_i32(sx), scroll_y: saturate_i32(sy), ..self }
    }

    pub open spec fn with_scrolling(self, scrolling: bool) -> Obj {
        Obj { scrolling, ..self }
    }

    pub open spec fn with_scrollbar_mode(self, scrollbar_mode: ScrollbarMode) -> Obj {
        Obj { scrollbar_mode, ..self }
    }

    pub open spec fn with_scroll_dir(self, scroll_dir: Direction) -> Obj {
        Obj { scroll_dir, ..self }
    }

    pub open spec fn with_snap_x(self, snap_x: ScrollSnap) -> Obj {
        Obj { snap_x, ..self }
    }

    pub open spec fn with_snap_y(self, snap_y: ScrollSnap) -> Obj {
        Obj { snap_y, ..self }
    }

    pub open spec fn with_flex_flow(self, flex_flow: Option<FlexFlow>) -> Obj {
        Obj { flex_flow, ..self }
    }

    pub open spec fn with_flex_grow(self, flex_grow: u8) -> Obj {
        Obj { flex_grow, ..self }
    }

    pub open spec fn with_flex_align(
        self,
        flex_main: FlexAlign,
        flex_cross: FlexAlign,
        flex_track: FlexAlign,
    ) -> Obj {
        Obj { flex_main, flex_cross, flex_track, ..self }
    }

    pub open spec fn with_grid_cell(self, grid_cell: Option<GridCell>) -> Obj {
        Obj { grid_cell, ..self }
    }

    pub open spec fn with_grid_align(
        self,
        grid_col_align: GridAlign,
        grid_row_align: GridAlign,
    ) -> Obj {
        Obj { grid_col_align, grid_row_align, ..self }
    }

    /// Create a new generic widget, not attached to any parent.
    pub fn new_root() -> (o: Obj)
        ensures
            o == Obj::initial(),
    {
        Obj::new_initial()
    }

    /// Create a new generic widget as a child of this one; the child is
    /// counted on this widget.
    ///
    /// Creation in this model always succeeds; the underlying library
    /// reports allocation failure through an absent value, so the same
    /// shape is kept.
    pub fn create_child(&mut self) -> (r: Option<Obj>)
        requires
            old(self).child_count < u64::MAX,
        ensures
            *final(self) == old(self).with_child_inc(),
            r == Some(Obj::initial()),
    {
        self.child_count = self.child_count + 1;
        Some(Obj::new_initial())
    }
}

/// Trait implemented by all widgets.
///
/// Provides common operations like positioning, sizing, state and flag
/// manipulation, and styling.  Each widget exposes its base [`Obj`] record
/// through [`Widget::base`] and [`Widget::base_mut`]; the remaining methods
/// have default implementations with exact contracts over that record.
pub trait Widget: Sized {
    /// The observable state of the widget's base object.
    spec fn base_spec(&self) -> Obj;

    /// The widget with its base object replaced and all widget-specific
    /// state kept.
    spec fn with_base_spec(&self, b: Obj) -> Self;

    /// Borrow the base object.
    fn base(&self) -> (r: &Obj)
        ensures
            *r == self.base_spec(),
    ;

    /// Mutably borrow the base object.
    fn base_mut(&mut self) -> (r: &mut Obj)
        ensures
            *r == old(self).base_spec(),
            *final(self) == old(self).with_base_spec(*final(r)),
    ;

    /// Set the widget position.
    fn set_pos(&mut self, x: i32, y: i32)
        ensures
            *final(self) == old(self).with_base_spec(old(self).base_spec().with_pos(x, y)),
    {
        let b = self.base_mut();
        b.x = x;
        b.y = y;
    }

    /// Set the X position.
    fn set_x(&mut self, x: i32)
        ensures
            *final(self) == old(self).with_base_spec(old(self).base_spec().with_x(x)),
    {
        let b = self.base_mut();
        b.x = x;
    }

    /// Set the Y position.
    fn set_y(&mut self, y: i32)
        ensures
            *final(self) == old(self).with_base_spec(old(self).base_spec().with_y(y)),
    {
        let b = self.base_mut();
        b.y = y;
    }

    /// Get the X position.
    fn x(&self) -> (r: i32)
        ensures
            r == self.base_spec().x,
    {
        self.base().x
    }

    /// Get the Y position.
    fn y(&self) -> (r: i32)
        ensures
            r == self.base_spec().y,
    {
        self.base().y
    }

    /// Set the widget size.
    fn set_size(&mut self, width: i32, height: i32)
        ensures
            *final(self) == old(self).with_base_spec(
                old(self).base_spec().with_size(width, height),
            ),
    {
        let b = self.base_mut();
        b.width = width;
        b.height = height;
    }

    /// Set the widget width.
    fn set_width(&mut self, width: i32)
        ensures
            *final(self) == old(self).with_base_spec(old(self).base_spec().with_width(width)),
    {
        let b = self.base_mut();
        b.width = width;
    }

    /// Set the widget height.
    fn set_height(&mut self, height: i32)
        ensures
            *final(self) == old(self).with_base_spec(old(self).base_spec().with_height(height)),
    {
        let b = self.base_mut();
        b.height = height;
    }

    /// Get the widget width.
    fn width(&self) -> (r: i32)
        ensures
            r == self.base_spec().width,
    {
        self.base().width
    }

    /// Get the widget height.
    fn height(&self) -> (r: i32)
        ensures
            r == self.base_spec().height,
    {
        self.base().height
    }

    /// Make the width fit the content.
    fn set_content_width(&mut self)
        ensures
            *final(self) == old(self).with_base_spec(
                old(self).base_spec().with_width(SIZE_CONTENT),
            ),
    {
        let b = self.base_mut();
        b.width = SIZE_CONTENT;
    }

    /// Make the height fit the content.
    fn set_content_height(&mut self)
        ensures
            *final(self) == old(self).with_base_spec(
                old(self).base_spec().with_height(SIZE_CONTENT),
            ),
    {
        let b = self.base_mut();
        b.height = SIZE_CONTENT;
    }

    /// Center the widget in its parent.
    fn center(&mut self)
        ensures
            *final(self) == old(self).with_base_spec(
                old(self).base_spec().with_align(Align::Center, 0, 0),
            ),
    {
        let b = self.base_mut();
        b.align = Align::Center;
        b.align_x = 0;
        b.align_y = 0;
    }

    /// Align the widget relative to its parent.
    fn align(&mut self, align: Align, x_offset: i32, y_offset: i32)
        ensures
            *final(self) == old(self).with_base_spec(
                old(self).base_spec().with_align(align, x_offset, y_offset),
            ),
    {
        let b = self.base_mut();
        b.align = align;
        b.align_x = x_offset;
        b.align_y = y_offset;
    }

    /// Add a style to this widget for the given part and state selector.
    fn add_style(&mut self, _style: &Style, _selector: StyleSelector)
        requires
            old(self).base_spec().style_count < u64::MAX,
        ensures
            *final(self) == old(self).with_base_spec(
                old(self).base_spec().with_style_count(
                    (old(self).base_spec().style_count + 1) as u64,
                ),
            ),
    {
        let b = self.base_mut();
        b.style_count = b.style_count + 1;
    }

    /// Remove all styles from this widget.
    fn remove_all_styles(&mut self)
        ensures
            *final(self) == old(self).with_base_spec(
                old(self).base_spec().with_style_count(0),
            ),
    {
        let b = self.base_mut();
        b.style_count = 0;
    }

    /// Refresh the style after modifying a shared style; the observable
    /// state does not change.
    fn refresh_style(&mut self)
        ensures
            *final(self) == *old(self),
    {
    }

    /// Add state bits.
    fn add_state(&mut self, state: State)
        ensures
            *final(self) == old(self).with_base_spec(
                old(self).base_spec().with_state(old(self).base_spec().state | state.0),
            ),
    {
        let s = state.0;
        let b = self.base_mut();
        b.state = b.state | s;
    }

    /// Remove state bits.
    fn remove_state(&mut self, state: State)
        ensures
            *final(self) == old(self).with_base_spec(
                old(self).base_spec().with_state(old(self).base_spec().state & !state.0),
            ),
    {
        let s = state.0;
        let b = self.base_mut();
        b.state = b.state & !s;
    }

    /// Whether all the given state bits are active.
    fn has_state(&self, state: State) -> (r: bool)
        ensures
            r == (self.base_spec().state & state.0 == state.0),
    {
        self.base().state & state.0 == state.0
    }

    /// Add flag bits.
    fn add_flag(&mut self, flag: Flag)
        ensures
            *final(self) == old(self).with_base_spec(
                old(self).base_spec().with_flags(old(self).base_spec().flags | flag.0),
            ),
    {
        let f = flag.0;
        let b = self.base_mut();
        b.flags = b.flags | f;
    }

    /// Remove flag bits.
    fn remove_flag(&mut self, flag: Flag)
        ensures
            *final(self) == old(self).with_base_spec(
                old(self).base_spec().with_flags(old(self).base_spec().flags & !flag.0),
            ),
    {
        let f = flag.0;
        let b = self.base_mut();
        b.flags = b.flags & !f;
    }

    /// Whether all the given flag bits are set.
    fn has_flag(&self, flag: Flag) -> (r: bool)
        ensures
            r == (self.base_spec().flags & flag.0 == flag.0),
    {
        self.base().flags & flag.0 == flag.0
    }

    /// Set widget visibility.
    fn set_hidden(&mut self, hidden: bool)
        ensures
            *final(self) == old(self).with_base_spec(
                old(self).base_spec().with_flags(
                    if hidden {
                        old(self).base_spec().flags | FLAG_HIDDEN
                    } else {
                        old(self).base_spec().flags & !FLAG_HIDDEN
                    },
                ),
            ),
    {
        if hidden {
            self.add_flag(Flag::hidden());
        } else {
            self.remove_flag(Flag::hidden());
        }
    }

    /// Whether the widget is hidden.
    fn is_hidden(&self) -> (r: bool)
        ensures
            r == (self.base_spec().flags & FLAG_HIDDEN == FLAG_HIDDEN),
    {
        self.has_flag(Flag::hidden())
    }

    /// Enable or disable the widget.
    fn set_disabled(&mut self, disabled: bool)
        ensures
            *final(self) == old(self).with_base_spec(
                old(self).base_spec().with_state(
                    if disabled {
                        old(self).base_spec().state | STATE_DISABLED
                    } else {
                        old(self).base_spec().state & !STATE_DISABLED
                    },
                ),
            ),
    {
        if disabled {
            self.add_state(State::disabled());
        } else {
            self.remove_state(State::disabled());
        }
    }

    /// Whether the widget is disabled.
    fn is_disabled(&self) -> (r: bool)
        ensures
            r == (self.base_spec().state & STATE_DISABLED == STATE_DISABLED),
    {
        self.has_state(State::disabled())
    }

    /// Trigger a redraw of the widget; the observable state does not change.
    fn invalidate(&mut self)
        ensures
            *final(self) == *old(self),
    {
    }
}

impl Widget for Obj {
    open spec fn base_spec(&self) -> Obj {
        *self
    }

    open spec fn with_base_spec(&self, b: Obj) -> Obj {
        b
    }

    fn base(&self) -> (r: &Obj) {
        self
    }

    fn base_mut(&mut self) -> (r: &mut Obj) {
        self
    }
}

/// Screen widget: the root of a widget tree.
#[derive(Clone, Copy, Debug)]
pub struct Screen {
    pub base: Obj,
    /// Whether this screen has been made the active one.
    pub loaded: bool,
}

impl Screen {
    /// The screen of a freshly created display with the given size.
    pub open spec fn initial(width: i32, height: i32) -> Screen {
        Screen { base: Obj::initial().with_size(width, height), loaded: false }
    }

    /// Build the screen of a freshly created display.
    pub fn new_initial(width: i32, height: i32) -> (s: Screen)
        ensures
            s == Screen::initial(width, height),
    {
        let mut base = Obj::new_initial();
        base.width = width;
        base.height = height;
        Screen { base, loaded: false }
    }

    /// Create a button on this screen; the child is counted.
    pub fn create_button(&mut self) -> (r: Option<Button>)
        requires
            old(self).base.child_count < u64::MAX,
        ensures
            *final(self) == (Screen { base: old(self).base.with_child_inc(), ..*old(self) }),
            r == Some(Button { base: Obj::initial() }),
    {
        Button::new(self)
    }

    /// Create a label on this screen; the child is counted.
    pub fn create_label(&mut self) -> (r: Option<Label>)
        requires
            old(self).base.child_count < u64::MAX,
        ensures
            *final(self) == (Screen { base: old(self).base.with_child_inc(), ..*old(self) }),
            r matches Some(l) && l.base == Obj::initial() && l.text@ == Seq::<u8>::empty(),
    {
        Label::new(self)
    }

    /// Load this screen (make it active).
    pub fn load(&mut self)
        ensures
            *final(self) == (Screen { loaded: true, ..*old(self) }),
    {
        self.loaded = true;
    }

    /// Load this screen with an animation.
    pub fn load_anim(
        &mut self,
        _anim: ScreenLoadAnim,
        _time_ms: u32,
        _delay_ms: u32,
        _auto_delete: bool,
    )
        ensures
            *final(self) == (Screen { loaded: true, ..*old(self) }),
    {
        self.loaded = true;
    }
}

impl Widget for Screen {
    open spec fn base_spec(&self) -> Obj {
        self.base
    }

    open spec fn with_base_spec(&self, b: Obj) -> Screen {
        Screen { base: b, ..*self }
    }

    fn base(&self) -> (r: &Obj) {
        &self.base
    }

    fn base_mut(&mut self) -> (r: &mut Obj) {
        &mut self.base
    }
}

} // verus!
