//! Table widget.

use super::{Obj, Widget};
use vstd::prelude::*;

verus! {

/// Per-cell control bits of a table.
#[derive(Clone, Copy, Debug, PartialEq, Eq, Structural)]
pub struct TableCellCtrl(pub u32);

impl TableCellCtrl {
    /// Merge the cell with the one to its right.
    pub fn merge_right() -> (c: TableCellCtrl)
        ensures
            c.0 == 1,
    {
        TableCellCtrl(1)
    }

    /// Crop the cell's text instead of wrapping it.
    pub fn text_crop() -> (c: TableCellCtrl)
        ensures
            c.0 == 2,
    {
        TableCellCtrl(2)
    }

    /// The first custom bit.
    pub fn custom_1() -> (c: TableCellCtrl)
        ensures
            c.0 == 4,
    {
        TableCellCtrl(4)
    }

    /// The second custom bit.
    pub fn custom_2() -> (c: TableCellCtrl)
        ensures
            c.0 == 8,
    {
        TableCellCtrl(8)
    }

    /// The third custom bit.
    pub fn custom_3() -> (c: TableCellCtrl)
        ensures
            c.0 == 16,
    {
        TableCellCtrl(16)
    }

    /// The fourth custom bit.
    pub fn custom_4() -> (c: TableCellCtrl)
        ensures
            c.0 == 32,
    {
        TableCellCtrl(32)
    }

    /// The raw control bits.
    pub fn bits(self) -> (r: u32)
        ensures
            r == self.0,
    {
        self.0
    }

    /// The union of two control bit sets.
    pub fn union(self, other: TableCellCtrl) -> (c: TableCellCtrl)
        ensures
            c.0 == self.0 | other.0,
    {
        TableCellCtrl(self.0 | other.0)
    }
}

/// Table widget: a grid of text cells.
///
/// The table is modeled by its row and column counts and the selected
/// cell; writing a cell beyond the current size grows the table to
/// reach it.
#[derive(Clone, Copy, Debug)]
pub struct Table {
    pub base: Obj,
    pub rows: u32,
    pub cols: u32,
    /// The selected cell as `(row, column)`.
    pub selected: (u32, u32),
}

impl Table {
    /// Create a new, empty table as a child of the given parent.
    pub fn new<W: Widget>(parent: &mut W) -> (r: Option<Table>)
        requires
            old(parent).base_spec().child_count < u64::MAX,
        ensures
            *final(parent) == old(parent).with_base_spec(
                old(parent).base_spec().with_child_inc(),
            ),
            r == Some(Table { base: Obj::initial(), rows: 0, cols: 0, selected: (0, 0) }),
    {
        let pb = parent.base_mut();
        pb.child_count = pb.child_count + 1;
        Some(Table { base: Obj::new_initial(), rows: 0, cols: 0, selected: (0, 0) })
    }

    /// Write a cell's text; the table grows to include the cell.
    pub fn set_cell_value(&mut self, row: u32, col: u32, _text: &[u8])
        requires
            row < u32::MAX,
            col < u32::MAX,
        ensures
            *final(self) == (Table {
                rows: if row + 1 > old(self).rows {
                    (row + 1) as u32
                } else {
                    old(self).rows
                },
                cols: if col + 1 > old(self).cols {
                    (col + 1) as u32
                } else {
                    old(self).cols
                },
                ..*old(self)
            }),
    {
        if row + 1 > self.rows {
            self.rows = row + 1;
        }
        if col + 1 > self.cols {
            self.cols = col + 1;
        }
    }

    /// Set the number of rows.
    pub fn set_row_count(&mut self, count: u32)
        ensures
            *final(self) == (Table { rows: count, ..*old(self) }),
    {
        self.rows = count;
    }

    /// The number of rows.
    pub fn row_count(&self) -> (r: u32)
        ensures
            r == self.rows,
    {
        self.rows
    }

    /// Set the number of columns.
    pub fn set_column_count(&mut self, count: u32)
        ensures
            *final(self) == (Table { cols: count, ..*old(self) }),
    {
        self.cols = count;
    }

    /// The number of columns.
    pub fn column_count(&self) -> (r: u32)
        ensures
            r == self.cols,
    {
        self.cols
    }

    /// The selected cell as `(row, column)`.
    pub fn selected_cell(&self) -> (r: (u32, u32))
        ensures
            r == self.selected,
    {
        self.selected
    }
}

impl Widget for Table {
    open spec fn base_spec(&self) -> Obj {
        self.base
    }

    open spec fn with_base_spec(&self, b: Obj) -> Table {
        Table { base: b, ..*self }
    }

    fn base(&self) -> (r: &Obj) {
        &self.base
    }

    fn base_mut(&mut self) -> (r: &mut Obj) {
        &mut self.base
    }
}

} // verus!
