//! Checkbox widget.

use super::{Obj, Widget, STATE_CHECKED};
use crate::copy_bytes;
use vstd::prelude::*;

verus! {

/// Checkbox widget: a tick box with a text label.
#[derive(Debug)]
pub struct Checkbox {
    pub base: Obj,
    /// The label text, as bytes.
    pub text: Vec<u8>,
}

impl Checkbox {
    /// Create a new checkbox as a child of the given parent, with an
    /// empty label.
    pub fn new<W: Widget>(parent: &mut W) -> (r: Option<Checkbox>)
        requires
            old(parent).base_spec().child_count < u64::MAX,
        ensures
            *final(parent) == old(parent).with_base_spec(
                old(parent).base_spec().with_child_inc(),
            ),
            r matches Some(c) && c.base == Obj::initial() && c.text@ == Seq::<u8>::empty(),
    {
        let pb = parent.base_mut();
        pb.child_count = pb.child_count + 1;
        Some(Checkbox { base: Obj::new_initial(), text: Vec::new() })
    }

    /// Set the checkbox text.
    pub fn set_text(&mut self, text: &[u8])
        ensures
            final(self).text@ == text@,
            final(self).base == old(self).base,
    {
        self.text = copy_bytes(text);
    }

    /// Get the checkbox text.
    pub fn text(&self) -> (r: &Vec<u8>)
        ensures
            r@ == self.text@,
    {
        &self.text
    }

    /// Whether the checkbox is checked: its checked state bit is set.
    pub fn is_checked(&self) -> (r: bool)
        ensures
            r == (self.base.state & STATE_CHECKED == STATE_CHECKED),
    {
        self.has_state(super::State::checked())
    }

    /// Check or uncheck the box by setting or clearing its checked state
    /// bit.
    pub fn set_checked(&mut self, checked: bool)
        ensures
            final(self).base == old(self).base.with_state(
                if checked {
                    old(self).base.state | STATE_CHECKED
                } else {
                    old(self).base.state & !STATE_CHECKED
                },
            ),
            final(self).text@ == old(self).text@,
    {
        if checked {
            self.add_state(super::State::checked());
        } else {
            self.remove_state(super::State::checked());
        }
    }
}

impl Widget for Checkbox {
    open spec fn base_spec(&self) -> Obj {
        self.base
    }

    open spec fn with_base_spec(&self, b: Obj) -> Checkbox {
        Checkbox { base: b, ..*self }
    }

    fn base(&self) -> (r: &Obj) {
        &self.base
    }

    fn base_mut(&mut self) -> (r: &mut Obj) {
        &mut self.base
    }
}

} // verus!
