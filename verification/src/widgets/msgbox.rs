//! Message box widget.

use super::{Obj, Widget};
use crate::copy_bytes;
use vstd::prelude::*;

verus! {

/// Message box widget: a dialog with a title, a message and buttons.
#[derive(Debug)]
pub struct MsgBox {
    pub base: Obj,
    /// The title, as bytes.
    pub title: Vec<u8>,
    /// The message text, as bytes.
    pub message: Vec<u8>,
    /// How many footer buttons were added.
    pub button_count: u64,
    /// Whether a close button is in the header.
    pub has_close_button: bool,
}

impl MsgBox {
    /// Create a new message box as a child of the given parent.
    pub fn new<W: Widget>(
        parent: &mut W,
        title: &[u8],
        message: &[u8],
        add_close_button: bool,
    ) -> (r: Option<MsgBox>)
        requires
            old(parent).base_spec().child_count < u64::MAX,
        ensures
            *final(parent) == old(parent).with_base_spec(
                old(parent).base_spec().with_child_inc(),
            ),
            r matches Some(m) && m.base == Obj::initial() && m.title@ == title@ && m.message@
                == message@ && m.button_count == 0 && m.has_close_button == add_close_button,
    {
        let pb = parent.base_mut();
        pb.child_count = pb.child_count + 1;
        Some(
            MsgBox {
                base: Obj::new_initial(),
                title: copy_bytes(title),
                message: copy_bytes(message),
                button_count: 0,
                has_close_button: add_close_button,
            },
        )
    }

    /// Add a button to the footer.
    pub fn add_button(&mut self, _text: &[u8]) -> (r: Option<Obj>)
        requires
            old(self).button_count < u64::MAX,
        ensures
            final(self).button_count == old(self).button_count + 1,
            final(self).base == old(self).base,
            final(self).title@ == old(self).title@,
            final(self).message@ == old(self).message@,
            final(self).has_close_button == old(self).has_close_button,
            r == Some(Obj::initial()),
    {
        self.button_count = self.button_count + 1;
        Some(Obj::new_initial())
    }

    /// Get the message text.
    pub fn text(&self) -> (r: &Vec<u8>)
        ensures
            r@ == self.message@,
    {
        &self.message
    }

    /// Get the title text.
    pub fn title(&self) -> (r: &Vec<u8>)
        ensures
            r@ == self.title@,
    {
        &self.title
    }

    /// Close the message box, consuming it.
    pub fn close(self) {
    }
}

impl Widget for MsgBox {
    open spec fn base_spec(&self) -> Obj {
        self.base
    }

    open spec fn with_base_spec(&self, b: Obj) -> MsgBox {
        MsgBox { base: b, ..*self }
    }

    fn base(&self) -> (r: &Obj) {
        &self.base
    }

    fn base_mut(&mut self) -> (r: &mut Obj) {
        &mut self.base
    }
}

} // verus!
