//! Switch widget.

use super::{Obj, Widget, STATE_CHECKED};
use vstd::prelude::*;

verus! {

/// Switch orientation.
#[derive(Clone, Copy, Debug, PartialEq, Eq, Structural)]
pub enum SwitchOrientation {
    /// Automatically determined from the widget's size.
    Auto,
    /// Horizontal switch.
    Horizontal,
    /// Vertical switch.
    Vertical,
}

impl SwitchOrientation {
    /// The C ABI code of this orientation.
    pub open spec fn code(self) -> u32 {
        match self {
            SwitchOrientation::Auto => 0,
            SwitchOrientation::Horizontal => 1,
            SwitchOrientation::Vertical => 2,
        }
    }

    /// Convert to the C ABI code.
    pub fn to_raw(self) -> (r: u32)
        ensures
            r == self.code(),
    {
        match self {
            SwitchOrientation::Auto => 0,
            SwitchOrientation::Horizontal => 1,
            SwitchOrientation::Vertical => 2,
        }
    }

    /// Read back from a C ABI code; unknown codes fall back to `Auto`.
    pub fn from_raw(raw: u32) -> (o: SwitchOrientation)
        ensures
            raw == 0 ==> o == SwitchOrientation::Auto,
            raw == 1 ==> o == SwitchOrientation::Horizontal,
            raw == 2 ==> o == SwitchOrientation::Vertical,
            raw >= 3 ==> o == SwitchOrientation::Auto,
    {
        match raw {
            1 => SwitchOrientation::Horizontal,
            2 => SwitchOrientation::Vertical,
            _ => SwitchOrientation::Auto,
        }
    }
}

/// Switch widget: an on-off toggle.
#[derive(Clone, Copy, Debug)]
pub struct Switch {
    pub base: Obj,
    pub orientation: SwitchOrientation,
}

impl Switch {
    /// A fresh switch: off, automatic orientation.
    pub open spec fn initial() -> Switch {
        Switch { base: Obj::initial(), orientation: SwitchOrientation::Auto }
    }

    /// Create a new switch as a child of the given parent.
    pub fn new<W: Widget>(parent: &mut W) -> (r: Option<Switch>)
        requires
            old(parent).base_spec().child_count < u64::MAX,
        ensures
            *final(parent) == old(parent).with_base_spec(
                old(parent).base_spec().with_child_inc(),
            ),
            r == Some(Switch::initial()),
    {
        let pb = parent.base_mut();
        pb.child_count = pb.child_count + 1;
        Some(Switch { base: Obj::new_initial(), orientation: SwitchOrientation::Auto })
    }

    /// Whether the switch is on: its checked state bit is set.
    pub fn is_checked(&self) -> (r: bool)
        ensures
            r == (self.base.state & STATE_CHECKED == STATE_CHECKED),
    {
        self.has_state(super::State::checked())
    }

    /// Turn the switch on or off by setting or clearing its checked
    /// state bit.
    pub fn set_checked(&mut self, checked: bool)
        ensures
            final(self).base == old(self).base.with_state(
                if checked {
                    old(self).base.state | STATE_CHECKED
                } else {
                    old(self).base.state & !STATE_CHECKED
                },
            ),
            final(self).orientation == old(self).orientation,
    {
        if checked {
            self.add_state(super::State::checked());
        } else {
            self.remove_state(super::State::checked());
        }
    }

    /// Set the switch orientation.
    pub fn set_orientation(&mut self, orientation: SwitchOrientation)
        ensures
            *final(self) == (Switch { orientation, ..*old(self) }),
    {
        self.orientation = orientation;
    }

    /// Get the switch orientation.
    pub fn orientation(&self) -> (r: SwitchOrientation)
        ensures
            r == self.orientation,
    {
        self.orientation
    }
}

impl Widget for Switch {
    open spec fn base_spec(&self) -> Obj {
        self.base
    }

    open spec fn with_base_spec(&self, b: Obj) -> Switch {
        Switch { base: b, ..*self }
    }

    fn base(&self) -> (r: &Obj) {
        &self.base
    }

    fn base_mut(&mut self) -> (r: &mut Obj) {
        &mut self.base
    }
}

} // verus!
