//! Tile view widget.

use super::{Obj, Widget};
use vstd::prelude::*;

verus! {

/// One tile of a tile view: its grid position and the directions it may
/// be left in (as direction bits).
#[derive(Clone, Copy, Debug, PartialEq, Eq, Structural)]
pub struct TileViewTile {
    pub col: u32,
    pub row: u32,
    /// The allowed move directions, as direction bits.
    pub dir: u8,
}

/// Tile view widget: a grid of screens scrolled tile by tile.
#[derive(Clone, Copy, Debug)]
pub struct TileView {
    pub base: Obj,
    /// How many tiles were added.
    pub tile_count: u64,
    /// The active tile, if one was activated.
    pub active: Option<TileViewTile>,
}

impl TileView {
    /// Create a new, empty tile view as a child of the given parent.
    pub fn new<W: Widget>(parent: &mut W) -> (r: Option<TileView>)
        requires
            old(parent).base_spec().child_count < u64::MAX,
        ensures
            *final(parent) == old(parent).with_base_spec(
                old(parent).base_spec().with_child_inc(),
            ),
            r == Some(TileView { base: Obj::initial(), tile_count: 0, active: None }),
    {
        let pb = parent.base_mut();
        pb.child_count = pb.child_count + 1;
        Some(TileView { base: Obj::new_initial(), tile_count: 0, active: None })
    }

    /// Add a tile at the given grid position, reachable in the given
    /// directions.
    pub fn add_tile(&mut self, col: u32, row: u32, dir: u8) -> (r: Option<TileViewTile>)
        requires
            old(self).tile_count < u64::MAX,
        ensures
            *final(self) == (TileView {
                tile_count: (old(self).tile_count + 1) as u64,
                ..*old(self)
            }),
            r == Some(TileViewTile { col, row, dir }),
    {
        self.tile_count = self.tile_count + 1;
        Some(TileViewTile { col, row, dir })
    }

    /// Activate a tile.
    pub fn set_tile(&mut self, tile: &TileViewTile, _anim: bool)
        ensures
            *final(self) == (TileView { active: Some(*tile), ..*old(self) }),
    {
        self.active = Some(*tile);
    }

    /// Activate the tile at the given grid position.
    pub fn set_tile_by_index(&mut self, col: u32, row: u32, _anim: bool)
        ensures
            *final(self) == (TileView {
                active: Some(TileViewTile { col, row, dir: 0 }),
                ..*old(self)
            }),
    {
        self.active = Some(TileViewTile { col, row, dir: 0 });
    }

    /// The active tile, if one was activated.
    pub fn active_tile(&self) -> (r: Option<TileViewTile>)
        ensures
            r == self.active,
    {
        self.active
    }
}

impl Widget for TileView {
    open spec fn base_spec(&self) -> Obj {
        self.base
    }

    open spec fn with_base_spec(&self, b: Obj) -> TileView {
        TileView { base: b, ..*self }
    }

    fn base(&self) -> (r: &Obj) {
        &self.base
    }

    fn base_mut(&mut self) -> (r: &mut Obj) {
        &mut self.base
    }
}

} // verus!
