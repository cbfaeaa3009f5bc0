//! Spinner widget.

use super::{Obj, Widget};
use vstd::prelude::*;

verus! {

/// Spinner widget: a spinning arc used as a busy indicator.
#[derive(Clone, Copy, Debug)]
pub struct Spinner {
    pub base: Obj,
    /// The time of one revolution, in milliseconds.
    pub duration: u32,
    /// The length of the spinning arc, in degrees.
    pub arc_length: u32,
}

impl Spinner {
    /// Create a new spinner as a child of the given parent: one second
    /// per revolution with a 270 degree arc.
    pub fn new<W: Widget>(parent: &mut W) -> (r: Option<Spinner>)
        requires
            old(parent).base_spec().child_count < u64::MAX,
        ensures
            *final(parent) == old(parent).with_base_spec(
                old(parent).base_spec().with_child_inc(),
            ),
            r == Some(Spinner { base: Obj::initial(), duration: 1000, arc_length: 270 }),
    {
        let pb = parent.base_mut();
        pb.child_count = pb.child_count + 1;
        Some(Spinner { base: Obj::new_initial(), duration: 1000, arc_length: 270 })
    }

    /// Set the revolution time and the arc length.
    pub fn set_anim_params(&mut self, duration_ms: u32, arc_length: u32)
        ensures
            *final(self) == (Spinner {
                duration: duration_ms,
                arc_length,
                ..*old(self)
            }),
    {
        self.duration = duration_ms;
        self.arc_length = arc_length;
    }
}

impl Widget for Spinner {
    open spec fn base_spec(&self) -> Obj {
        self.base
    }

    open spec fn with_base_spec(&self, b: Obj) -> Spinner {
        Spinner { base: b, ..*self }
    }

    fn base(&self) -> (r: &Obj) {
        &self.base
    }

    fn base_mut(&mut self) -> (r: &mut Obj) {
        &mut self.base
    }
}

} // verus!
