//! Scrolling support for widget containers.

use crate::layout::Direction;
use crate::widgets::{Point, Widget};
use vstd::prelude::*;

verus! {

/// Scrollbar visibility mode.
#[derive(Clone, Copy, Debug, PartialEq, Eq, Structural)]
pub enum ScrollbarMode {
    /// Never show scrollbars.
    Off,
    /// Always show scrollbars.
    On,
    /// Show scrollbars while actively scrolling.
    Active,
    /// Show scrollbars when content is scrollable.
    Auto,
}

impl ScrollbarMode {
    /// The C ABI code of this mode.
    pub open spec fn code(self) -> u32 {
        match self {
            ScrollbarMode::Off => 0,
            ScrollbarMode::On => 1,
            ScrollbarMode::Active => 2,
            ScrollbarMode::Auto => 3,
        }
    }

    /// Convert to the C ABI code.
    pub fn to_raw(self) -> (r: u32)
        ensures
            r == self.code(),
    {
        match self {
            ScrollbarMode::Off => 0,
            ScrollbarMode::On => 1,
            ScrollbarMode::Active => 2,
            ScrollbarMode::Auto => 3,
        }
    }

    /// Read back from a C ABI code; unknown codes fall back to `Auto`,
    /// so that every code maps to some mode.
    pub fn from_raw(raw: u32) -> (m: ScrollbarMode)
        ensures
            raw == 0 ==> m == ScrollbarMode::Off,
            raw == 1 ==> m == ScrollbarMode::On,
            raw == 2 ==> m == ScrollbarMode::Active,
            raw >= 3 ==> m == ScrollbarMode::Auto,
            m.code() <= 3,
    {
        match raw {
            0 => ScrollbarMode::Off,
            1 => ScrollbarMode::On,
            2 => ScrollbarMode::Active,
            _ => ScrollbarMode::Auto,
        }
    }
}

/// Scroll snap behavior.
#[derive(Clone, Copy, Debug, PartialEq, Eq, Structural)]
pub enum ScrollSnap {
    /// No snapping.
    NoSnap,
    /// Snap children to the start edge.
    Start,
    /// Snap children to the end edge.
    End,
    /// Snap children to the center.
    Center,
}

impl ScrollSnap {
    /// The C ABI code of this snap behavior.
    pub open spec fn code(self) -> u32 {
        match self {
            ScrollSnap::NoSnap => 0,
            ScrollSnap::Start => 1,
            ScrollSnap::End => 2,
            ScrollSnap::Center => 3,
        }
    }

    /// Convert to the C ABI code.
    pub fn to_raw(self) -> (r: u32)
        ensures
            r == self.code(),
    {
        match self {
            ScrollSnap::NoSnap => 0,
            ScrollSnap::Start => 1,
            ScrollSnap::End => 2,
            ScrollSnap::Center => 3,
        }
    }

    /// Read back from a C ABI code; unknown codes fall back to `Center`,
    /// so that every code maps to some behavior.
    pub fn from_raw(raw: u32) -> (s: ScrollSnap)
        ensures
            raw == 0 ==> s == ScrollSnap::NoSnap,
            raw == 1 ==> s == ScrollSnap::Start,
            raw == 2 ==> s == ScrollSnap::End,
            raw >= 3 ==> s == ScrollSnap::Center,
    {
        match raw {
            0 => ScrollSnap::NoSnap,
            1 => ScrollSnap::Start,
            2 => ScrollSnap::End,
            _ => ScrollSnap::Center,
        }
    }
}

/// Scrolling extension trait for widgets.
pub trait ScrollExt: Widget {
    /// Set the scrollbar visibility mode.
    fn set_scrollbar_mode(&mut self, mode: ScrollbarMode)
        ensures
            *final(self) == old(self).with_base_spec(
                old(self).base_spec().with_scrollbar_mode(mode),
            ),
    {
        let b = self.base_mut();
        b.scrollbar_mode = mode;
    }

    /// Get the current scrollbar mode.
    fn scrollbar_mode(&self) -> (m: ScrollbarMode)
        ensures
            m == self.base_spec().scrollbar_mode,
    {
        self.base().scrollbar_mode
    }

    /// Set which directions the widget can be scrolled.
    fn set_scroll_dir(&mut self, dir: Direction)
        ensures
            *final(self) == old(self).with_base_spec(
                old(self).base_spec().with_scroll_dir(dir),
            ),
    {
        let b = self.base_mut();
        b.scroll_dir = dir;
    }

    /// Get the allowed scroll directions.
    fn scroll_dir(&self) -> (d: Direction)
        ensures
            d == self.base_spec().scroll_dir,
    {
        self.base().scroll_dir
    }

    /// Set horizontal scroll snapping behavior.
    fn set_scroll_snap_x(&mut self, snap: ScrollSnap)
        ensures
            *final(self) == old(self).with_base_spec(
                old(self).base_spec().with_snap_x(snap),
            ),
    {
        let b = self.base_mut();
        b.snap_x = snap;
    }

    /// Get horizontal scroll snapping behavior.
    fn scroll_snap_x(&self) -> (s: ScrollSnap)
        ensures
            s == self.base_spec().snap_x,
    {
        self.base().snap_x
    }

    /// Set vertical scroll snapping behavior.
    fn set_scroll_snap_y(&mut self, snap: ScrollSnap)
        ensures
            *final(self) == old(self).with_base_spec(
                old(self).base_spec().with_snap_y(snap),
            ),
    {
        let b = self.base_mut();
        b.snap_y = snap;
    }

    /// Get vertical scroll snapping behavior.
    fn scroll_snap_y(&self) -> (s: ScrollSnap)
        ensures
            s == self.base_spec().snap_y,
    {
        self.base().snap_y
    }

    /// Get the current horizontal scroll position.
    fn scroll_x(&self) -> (x: i32)
        ensures
            x == self.base_spec().scroll_x,
    {
        self.base().scroll_x
    }

    /// Get the current vertical scroll position.
    fn scroll_y(&self) -> (y: i32)
        ensures
            y == self.base_spec().scroll_y,
    {
        self.base().scroll_y
    }

    /// Scroll by the given amount, saturating at the coordinate limits.
    fn scroll_by(&mut self, dx: i32, dy: i32, _animate: bool)
        ensures
            *final(self) == old(self).with_base_spec(
                old(self).base_spec().with_scroll(
                    old(self).base_spec().scroll_x + dx,
                    old(self).base_spec().scroll_y + dy,
                ),
            ),
    {
        let b = self.base_mut();
        b.scroll_x = crate::widgets::sat_add_i32(b.scroll_x, dx);
        b.scroll_y = crate::widgets::sat_add_i32(b.scroll_y, dy);
    }

    /// Scroll to an absolute position.
    fn scroll_to(&mut self, x: i32, y: i32, _animate: bool)
        ensures
            *final(self) == old(self).with_base_spec(
                old(self).base_spec().with_scroll(x as int, y as int),
            ),
    {
        let b = self.base_mut();
        b.scroll_x = x;
        b.scroll_y = y;
    }

    /// Scroll to a horizontal position.
    fn scroll_to_x(&mut self, x: i32, _animate: bool)
        ensures
            *final(self) == old(self).with_base_spec(
                old(self).base_spec().with_scroll(x as int, old(self).base_spec().scroll_y as int),
            ),
    {
        let b = self.base_mut();
        b.scroll_x = x;
    }

    /// Scroll to a vertical position.
    fn scroll_to_y(&mut self, y: i32, _animate: bool)
        ensures
            *final(self) == old(self).with_base_spec(
                old(self).base_spec().with_scroll(old(self).base_spec().scroll_x as int, y as int),
            ),
    {
        let b = self.base_mut();
        b.scroll_y = y;
    }

    /// Whether the widget is currently being scrolled.
    fn is_scrolling(&self) -> (r: bool)
        ensures
            r == self.base_spec().scrolling,
    {
        self.base().scrolling
    }

    /// Stop any ongoing scroll animation.
    fn stop_scroll_anim(&mut self)
        ensures
            *final(self) == old(self).with_base_spec(
                old(self).base_spec().with_scrolling(false),
            ),
    {
        let b = self.base_mut();
        b.scrolling = false;
    }

    /// Get the final scroll position after any ongoing animation.
    fn scroll_end(&self) -> (p: Point)
        ensures
            p.x == self.base_spec().scroll_x,
            p.y == self.base_spec().scroll_y,
    {
        Point { x: self.base().scroll_x, y: self.base().scroll_y }
    }
}

impl<T: Widget> ScrollExt for T {
}

} // verus!
