//! Tab view widget.

use super::{Obj, Widget};
use vstd::prelude::*;

verus! {

/// Where the tab bar sits.
#[derive(Clone, Copy, Debug, PartialEq, Eq, Structural)]
pub enum TabViewPos {
    Top,
    Bottom,
    Left,
    Right,
}

impl TabViewPos {
    /// The C ABI direction code of this position.
    pub open spec fn code(self) -> u32 {
        match self {
            TabViewPos::Left => 1,
            TabViewPos::Right => 2,
            TabViewPos::Top => 4,
            TabViewPos::Bottom => 8,
        }
    }

    /// Convert to the C ABI direction code.
    pub fn to_raw(self) -> (r: u32)
        ensures
            r == self.code(),
    {
        match self {
            TabViewPos::Left => 1,
            TabViewPos::Right => 2,
            TabViewPos::Top => 4,
            TabViewPos::Bottom => 8,
        }
    }
}

/// Tab view widget: pages switched through a tab bar.
#[derive(Clone, Copy, Debug)]
pub struct TabView {
    pub base: Obj,
    /// Where the tab bar sits.
    pub pos: TabViewPos,
    /// The tab bar size in pixels.
    pub tab_size: i32,
    /// How many tabs were added.
    pub tab_count: u32,
    /// The index of the active tab.
    pub active: u32,
}

impl TabView {
    /// Create a new tab view as a child of the given parent.
    pub fn new<W: Widget>(parent: &mut W, pos: TabViewPos, tab_size: i32) -> (r: Option<TabView>)
        requires
            old(parent).base_spec().child_count < u64::MAX,
        ensures
            *final(parent) == old(parent).with_base_spec(
                old(parent).base_spec().with_child_inc(),
            ),
            r == Some(
                TabView { base: Obj::initial(), pos, tab_size, tab_count: 0, active: 0 },
            ),
    {
        let pb = parent.base_mut();
        pb.child_count = pb.child_count + 1;
        Some(TabView { base: Obj::new_initial(), pos, tab_size, tab_count: 0, active: 0 })
    }

    /// Add a tab; returns its content container.
    pub fn add_tab(&mut self, _name: &[u8]) -> (r: Option<Obj>)
        requires
            old(self).tab_count < u32::MAX,
        ensures
            *final(self) == (TabView {
                tab_count: (old(self).tab_count + 1) as u32,
                ..*old(self)
            }),
            r == Some(Obj::initial()),
    {
        self.tab_count = self.tab_count + 1;
        Some(Obj::new_initial())
    }

    /// Activate a tab.
    pub fn set_active(&mut self, index: u32, _anim: bool)
        requires
            index < old(self).tab_count,
        ensures
            *final(self) == (TabView { active: index, ..*old(self) }),
    {
        self.active = index;
    }

    /// The index of the active tab.
    pub fn active(&self) -> (r: u32)
        ensures
            r == self.active,
    {
        self.active
    }

    /// How many tabs the view holds.
    pub fn tab_count(&self) -> (r: u32)
        ensures
            r == self.tab_count,
    {
        self.tab_count
    }

    /// Move the tab bar.
    pub fn set_tab_bar_position(&mut self, pos: TabViewPos)
        ensures
            *final(self) == (TabView { pos, ..*old(self) }),
    {
        self.pos = pos;
    }

    /// Resize the tab bar.
    pub fn set_tab_bar_size(&mut self, size: i32)
        ensures
            *final(self) == (TabView { tab_size: size, ..*old(self) }),
    {
        self.tab_size = size;
    }
}

impl Widget for TabView {
    open spec fn base_spec(&self) -> Obj {
        self.base
    }

    open spec fn with_base_spec(&self, b: Obj) -> TabView {
        TabView { base: b, ..*self }
    }

    fn base(&self) -> (r: &Obj) {
        &self.base
    }

    fn base_mut(&mut self) -> (r: &mut Obj) {
        &mut self.base
    }
}

} // verus!
