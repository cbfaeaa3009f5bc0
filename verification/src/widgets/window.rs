//! Window widget.

use super::{Obj, Widget};
use vstd::prelude::*;

verus! {

/// Window widget: a header with titles and buttons above a content area.
#[derive(Clone, Copy, Debug)]
pub struct Window {
    pub base: Obj,
    /// The header height in pixels.
    pub header_height: i32,
    /// How many titles were added to the header.
    pub title_count: u64,
    /// How many buttons were added to the header.
    pub button_count: u64,
}

impl Window {
    /// Create a new window as a child of the given parent, with a header
    /// of the given height.
    pub fn new<W: Widget>(parent: &mut W, header_height: i32) -> (r: Option<Window>)
        requires
            old(parent).base_spec().child_count < u64::MAX,
        ensures
            *final(parent) == old(parent).with_base_spec(
                old(parent).base_spec().with_child_inc(),
            ),
            r == Some(
                Window { base: Obj::initial(), header_height, title_count: 0, button_count: 0 },
            ),
    {
        let pb = parent.base_mut();
        pb.child_count = pb.child_count + 1;
        Some(Window { base: Obj::new_initial(), header_height, title_count: 0, button_count: 0 })
    }

    /// Add a title to the header.
    pub fn add_title(&mut self, _title: &[u8]) -> (r: Option<Obj>)
        requires
            old(self).title_count < u64::MAX,
        ensures
            *final(self) == (Window {
                title_count: (old(self).title_count + 1) as u64,
                ..*old(self)
            }),
            r == Some(Obj::initial()),
    {
        self.title_count = self.title_count + 1;
        Some(Obj::new_initial())
    }

    /// Add a button of the given width to the header.
    pub fn add_button(&mut self, _icon: &[u8], width: i32) -> (r: Option<Obj>)
        requires
            old(self).button_count < u64::MAX,
        ensures
            *final(self) == (Window {
                button_count: (old(self).button_count + 1) as u64,
                ..*old(self)
            }),
            r == Some(Obj::initial().with_width(width)),
    {
        self.button_count = self.button_count + 1;
        let mut o = Obj::new_initial();
        o.width = width;
        Some(o)
    }
}

impl Widget for Window {
    open spec fn base_spec(&self) -> Obj {
        self.base
    }

    open spec fn with_base_spec(&self, b: Obj) -> Window {
        Window { base: b, ..*self }
    }

    fn base(&self) -> (r: &Obj) {
        &self.base
    }

    fn base_mut(&mut self) -> (r: &mut Obj) {
        &mut self.base
    }
}

} // verus!
