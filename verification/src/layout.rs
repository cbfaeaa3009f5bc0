//! Flexbox and grid layout support for arranging widgets.

use crate::widgets::{Obj, Widget, COORD_MAX};
use vstd::prelude::*;

verus! {

/// Flex flow direction.
///
/// The C ABI encodes these as a bit set: bit 0 selects column flow,
/// bit 2 enables wrapping and bit 3 reverses the order.
#[derive(Clone, Copy, Debug, PartialEq, Eq, Structural)]
pub enum FlexFlow {
    /// Arrange children in a row (horizontal).
    Row,
    /// Arrange children in a column (vertical).
    Column,
    /// Row with wrapping to next line.
    RowWrap,
    /// Row in reverse order.
    RowReverse,
    /// Row with wrap in reverse.
    RowWrapReverse,
    /// Column with wrapping.
    ColumnWrap,
    /// Column in reverse order.
    ColumnReverse,
    /// Column with wrap in reverse.
    ColumnWrapReverse,
}

impl FlexFlow {
    /// The C ABI code of this flow.
    pub open spec fn code(self) -> u32 {
        match self {
            FlexFlow::Row => 0x0,
            FlexFlow::Column => 0x1,
            FlexFlow::RowWrap => 0x4,
            FlexFlow::RowReverse => 0x8,
            FlexFlow::RowWrapReverse => 0xc,
            FlexFlow::ColumnWrap => 0x5,
            FlexFlow::ColumnReverse => 0x9,
            FlexFlow::ColumnWrapReverse => 0xd,
        }
    }

    /// Convert to the C ABI code.
    pub fn to_raw(self) -> (r: u32)
        ensures
            r == self.code(),
    {
        match self {
            FlexFlow::Row => 0x0,
            FlexFlow::Column => 0x1,
            FlexFlow::RowWrap => 0x4,
            FlexFlow::RowReverse => 0x8,
            FlexFlow::RowWrapReverse => 0xc,
            FlexFlow::ColumnWrap => 0x5,
            FlexFlow::ColumnReverse => 0x9,
            FlexFlow::ColumnWrapReverse => 0xd,
        }
    }
}

/// Flex alignment.
#[derive(Clone, Copy, Debug, PartialEq, Eq, Structural)]
pub enum FlexAlign {
    /// Align to the start.
    Start,
    /// Align to the end.
    End,
    /// Align to the center.
    Center,
    /// Distribute with equal space around items.
    SpaceEvenly,
    /// Distribute with space around items (half space at edges).
    SpaceAround,
    /// Distribute with space between items only.
    SpaceBetween,
}

impl FlexAlign {
    /// The C ABI code of this alignment.
    pub open spec fn code(self) -> u32 {
        match self {
            FlexAlign::Start => 0,
            FlexAlign::End => 1,
            FlexAlign::Center => 2,
            FlexAlign::SpaceEvenly => 3,
            FlexAlign::SpaceAround => 4,
            FlexAlign::SpaceBetween => 5,
        }
    }

    /// Convert to the C ABI code.
    pub fn to_raw(self) -> (r: u32)
        ensures
            r == self.code(),
    {
        match self {
            FlexAlign::Start => 0,
            FlexAlign::End => 1,
            FlexAlign::Center => 2,
            FlexAlign::SpaceEvenly => 3,
            FlexAlign::SpaceAround => 4,
            FlexAlign::SpaceBetween => 5,
        }
    }
}

/// Grid alignment.
#[derive(Clone, Copy, Debug, PartialEq, Eq, Structural)]
pub enum GridAlign {
    /// Align to the start.
    Start,
    /// Align to the center.
    Center,
    /// Align to the end.
    End,
    /// Stretch to fill the cell.
    Stretch,
    /// Distribute with equal space around items.
    SpaceEvenly,
    /// Distribute with space around items.
    SpaceAround,
    /// Distribute with space between items.
    SpaceBetween,
}

impl GridAlign {
    /// The C ABI code of this alignment.
    pub open spec fn code(self) -> u32 {
        match self {
            GridAlign::Start => 0,
            GridAlign::Center => 1,
            GridAlign::End => 2,
            GridAlign::Stretch => 3,
            GridAlign::SpaceEvenly => 4,
            GridAlign::SpaceAround => 5,
            GridAlign::SpaceBetween => 6,
        }
    }

    /// Convert to the C ABI code.
    pub fn to_raw(self) -> (r: u32)
        ensures
            r == self.code(),
    {
        match self {
            GridAlign::Start => 0,
            GridAlign::Center => 1,
            GridAlign::End => 2,
            GridAlign::Stretch => 3,
            GridAlign::SpaceEvenly => 4,
            GridAlign::SpaceAround => 5,
            GridAlign::SpaceBetween => 6,
        }
    }
}

/// Direction bits for scrolling and other directional operations.
///
/// Bit 0 is left, bit 1 right, bit 2 top and bit 3 bottom.
#[derive(Clone, Copy, Debug, PartialEq, Eq, Structural)]
pub struct Direction(pub u8);

impl Direction {
    /// No direction.
    pub fn none() -> (d: Direction)
        ensures
            d.0 == 0,
    {
        Direction(0)
    }

    /// Left direction.
    pub fn left() -> (d: Direction)
        ensures
            d.0 == 1,
    {
        Direction(1)
    }

    /// Right direction.
    pub fn right() -> (d: Direction)
        ensures
            d.0 == 2,
    {
        Direction(2)
    }

    /// Top direction.
    pub fn top() -> (d: Direction)
        ensures
            d.0 == 4,
    {
        Direction(4)
    }

    /// Bottom direction.
    pub fn bottom() -> (d: Direction)
        ensures
            d.0 == 8,
    {
        Direction(8)
    }

    /// Horizontal (left and right).
    pub fn hor() -> (d: Direction)
        ensures
            d.0 == 3,
    {
        Direction(3)
    }

    /// Vertical (top and bottom).
    pub fn ver() -> (d: Direction)
        ensures
            d.0 == 12,
    {
        Direction(12)
    }

    /// All directions.
    pub fn all() -> (d: Direction)
        ensures
            d.0 == 15,
    {
        Direction(15)
    }

    /// The raw direction bits.
    pub fn bits(self) -> (r: u8)
        ensures
            r == self.0,
    {
        self.0
    }

    /// The union of two direction sets.
    pub fn union(self, other: Direction) -> (d: Direction)
        ensures
            d.0 == self.0 | other.0,
    {
        Direction(self.0 | other.0)
    }

    /// Whether every direction of `other` is present in `self`.
    pub fn contains(self, other: Direction) -> (r: bool)
        ensures
            r == (self.0 & other.0 == other.0),
    {
        self.0 & other.0 == other.0
    }

    /// Convert to the C ABI code.
    pub fn to_raw(self) -> (r: u8)
        ensures
            r == self.0,
    {
        self.0
    }

    /// Read back from a C ABI code, keeping only the four direction bits.
    pub fn from_raw(raw: u8) -> (d: Direction)
        ensures
            d.0 == raw & 0xf,
    {
        Direction(raw & 0xf)
    }
}

/// Placement of a widget inside a grid: alignment, position and span
/// on each axis.
#[derive(Clone, Copy, Debug, PartialEq, Eq, Structural)]
pub struct GridCell {
    pub col_align: GridAlign,
    pub col_pos: u8,
    pub col_span: u8,
    pub row_align: GridAlign,
    pub row_pos: u8,
    pub row_span: u8,
}

/// Marker for the end of grid template arrays.
pub const GRID_TEMPLATE_LAST: i32 = COORD_MAX;

/// Grid content size: the row or column is sized to fit its content.
pub const GRID_CONTENT: i32 = COORD_MAX - 101;

/// Grid fractional unit: `grid_fr(1)` is one share of the free space.
pub fn grid_fr(x: u8) -> (r: i32)
    ensures
        r == COORD_MAX - 100 + x,
{
    COORD_MAX - 100 + x as i32
}

/// Layout extension trait for widgets.
///
/// Provides flexbox and grid layout methods for any widget.
pub trait LayoutExt: Widget {
    /// Set the flex flow direction for this container.
    fn set_flex_flow(&mut self, flow: FlexFlow)
        ensures
            *final(self) == old(self).with_base_spec(
                old(self).base_spec().with_flex_flow(Some(flow)),
            ),
    {
        let b = self.base_mut();
        b.flex_flow = Some(flow);
    }

    /// Set flex alignment of the main axis, the cross axis, and the
    /// tracks along the cross axis.
    fn set_flex_align(
        &mut self,
        main_place: FlexAlign,
        cross_place: FlexAlign,
        track_cross_place: FlexAlign,
    )
        ensures
            *final(self) == old(self).with_base_spec(
                old(self).base_spec().with_flex_align(main_place, cross_place, track_cross_place),
            ),
    {
        let b = self.base_mut();
        b.flex_main = main_place;
        b.flex_cross = cross_place;
        b.flex_track = track_cross_place;
    }

    /// Set the flex grow factor for this widget.
    ///
    /// Widgets with higher grow values take more of the available space;
    /// zero means the widget does not grow.
    fn set_flex_grow(&mut self, grow: u8)
        ensures
            *final(self) == old(self).with_base_spec(
                old(self).base_spec().with_flex_grow(grow),
            ),
    {
        let b = self.base_mut();
        b.flex_grow = grow;
    }

    /// Set grid alignment for the container.
    fn set_grid_align(&mut self, column_align: GridAlign, row_align: GridAlign)
        ensures
            *final(self) == old(self).with_base_spec(
                old(self).base_spec().with_grid_align(column_align, row_align),
            ),
    {
        let b = self.base_mut();
        b.grid_col_align = column_align;
        b.grid_row_align = row_align;
    }

    /// Place this widget in a grid cell.
    fn set_grid_cell(
        &mut self,
        col_align: GridAlign,
        col_pos: u8,
        col_span: u8,
        row_align: GridAlign,
        row_pos: u8,
        row_span: u8,
    )
        ensures
            *final(self) == old(self).with_base_spec(
                old(self).base_spec().with_grid_cell(
                    Some(
                        GridCell {
                            col_align,
                            col_pos,
                            col_span,
                            row_align,
                            row_pos,
                            row_span,
                        },
                    ),
                ),
            ),
    {
        let b = self.base_mut();
        b.grid_cell = Some(
            GridCell { col_align, col_pos, col_span, row_align, row_pos, row_span },
        );
    }

    /// Recalculate the layout of this widget; the observable state does
    /// not change.
    fn update_layout(&mut self)
        ensures
            *final(self) == *old(self),
    {
    }
}

impl<T: Widget> LayoutExt for T {
}

} // verus!
