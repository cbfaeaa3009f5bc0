//! Button widget.

use super::label::Label;
use super::{Obj, Widget};
use vstd::prelude::*;

verus! {

/// Button widget: a clickable widget that can contain other widgets.
#[derive(Clone, Copy, Debug)]
pub struct Button {
    pub base: Obj,
}

impl Button {
    /// Create a new button as a child of the given parent.
    pub fn new<W: Widget>(parent: &mut W) -> (r: Option<Button>)
        requires
            old(parent).base_spec().child_count < u64::MAX,
        ensures
            *final(parent) == old(parent).with_base_spec(
                old(parent).base_spec().with_child_inc(),
            ),
            r == Some(Button { base: Obj::initial() }),
    {
        let pb = parent.base_mut();
        pb.child_count = pb.child_count + 1;
        Some(Button { base: Obj::new_initial() })
    }

    /// Create a label inside this button; the child is counted.
    pub fn create_label(&mut self) -> (r: Option<Label>)
        requires
            old(self).base.child_count < u64::MAX,
        ensures
            final(self).base == old(self).base.with_child_inc(),
            r matches Some(l) && l.base == Obj::initial() && l.text@ == Seq::<u8>::empty(),
    {
        Label::new(self)
    }
}

impl Widget for Button {
    open spec fn base_spec(&self) -> Obj {
        self.base
    }

    open spec fn with_base_spec(&self, b: Obj) -> Button {
        Button { base: b }
    }

    fn base(&self) -> (r: &Obj) {
        &self.base
    }

    fn base_mut(&mut self) -> (r: &mut Obj) {
        &mut self.base
    }
}

} // verus!
