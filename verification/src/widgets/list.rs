//! List widget.

use super::{Obj, Widget};
use crate::copy_bytes;
use vstd::prelude::*;

verus! {

/// A button entry of a list.
#[derive(Debug)]
pub struct ListButton {
    pub base: Obj,
    /// The button text, as bytes.
    pub text: Vec<u8>,
    /// Whether the entry carries an icon.
    pub has_icon: bool,
}

impl ListButton {
    /// Get the button text.
    pub fn text(&self) -> (r: &Vec<u8>)
        ensures
            r@ == self.text@,
    {
        &self.text
    }
}

impl Widget for ListButton {
    open spec fn base_spec(&self) -> Obj {
        self.base
    }

    open spec fn with_base_spec(&self, b: Obj) -> ListButton {
        ListButton { base: b, ..*self }
    }

    fn base(&self) -> (r: &Obj) {
        &self.base
    }

    fn base_mut(&mut self) -> (r: &mut Obj) {
        &mut self.base
    }
}

/// A text entry of a list.
#[derive(Debug)]
pub struct ListText {
    pub base: Obj,
    /// The entry text, as bytes.
    pub text: Vec<u8>,
}

impl ListText {
    /// Get the entry text.
    pub fn text(&self) -> (r: &Vec<u8>)
        ensures
            r@ == self.text@,
    {
        &self.text
    }
}

impl Widget for ListText {
    open spec fn base_spec(&self) -> Obj {
        self.base
    }

    open spec fn with_base_spec(&self, b: Obj) -> ListText {
        ListText { base: b, ..*self }
    }

    fn base(&self) -> (r: &Obj) {
        &self.base
    }

    fn base_mut(&mut self) -> (r: &mut Obj) {
        &mut self.base
    }
}

/// List widget: a scrollable column of text and button entries.
#[derive(Clone, Copy, Debug)]
pub struct List {
    pub base: Obj,
    /// How many entries the list holds.
    pub item_count: u64,
}

impl List {
    /// Create a new, empty list as a child of the given parent.
    pub fn new<W: Widget>(parent: &mut W) -> (r: Option<List>)
        requires
            old(parent).base_spec().child_count < u64::MAX,
        ensures
            *final(parent) == old(parent).with_base_spec(
                old(parent).base_spec().with_child_inc(),
            ),
            r == Some(List { base: Obj::initial(), item_count: 0 }),
    {
        let pb = parent.base_mut();
        pb.child_count = pb.child_count + 1;
        Some(List { base: Obj::new_initial(), item_count: 0 })
    }

    /// Add a text entry at the end.
    pub fn add_text(&mut self, text: &[u8]) -> (r: Option<ListText>)
        requires
            old(self).item_count < u64::MAX,
        ensures
            *final(self) == (List {
                item_count: (old(self).item_count + 1) as u64,
                ..*old(self)
            }),
            r matches Some(t) && t.base == Obj::initial() && t.text@ == text@,
    {
        self.item_count = self.item_count + 1;
        Some(ListText { base: Obj::new_initial(), text: copy_bytes(text) })
    }

    /// Add a button entry at the end.
    pub fn add_button(&mut self, text: &[u8]) -> (r: Option<ListButton>)
        requires
            old(self).item_count < u64::MAX,
        ensures
            *final(self) == (List {
                item_count: (old(self).item_count + 1) as u64,
                ..*old(self)
            }),
            r matches Some(b) && b.base == Obj::initial() && b.text@ == text@ && !b.has_icon,
    {
        self.item_count = self.item_count + 1;
        Some(ListButton { base: Obj::new_initial(), text: copy_bytes(text), has_icon: false })
    }

    /// Add a button entry with an icon at the end.
    pub fn add_button_with_icon(&mut self, _icon: &[u8], text: &[u8]) -> (r: Option<ListButton>)
        requires
            old(self).item_count < u64::MAX,
        ensures
            *final(self) == (List {
                item_count: (old(self).item_count + 1) as u64,
                ..*old(self)
            }),
            r matches Some(b) && b.base == Obj::initial() && b.text@ == text@ && b.has_icon,
    {
        self.item_count = self.item_count + 1;
        Some(ListButton { base: Obj::new_initial(), text: copy_bytes(text), has_icon: true })
    }

    /// Get a button entry's text.
    pub fn button_text<'b>(button: &'b ListButton) -> (r: &'b Vec<u8>)
        ensures
            r@ == button.text@,
    {
        &button.text
    }
}

impl Widget for List {
    open spec fn base_spec(&self) -> Obj {
        self.base
    }

    open spec fn with_base_spec(&self, b: Obj) -> List {
        List { base: b, ..*self }
    }

    fn base(&self) -> (r: &Obj) {
        &self.base
    }

    fn base_mut(&mut self) -> (r: &mut Obj) {
        &mut self.base
    }
}

} // verus!
