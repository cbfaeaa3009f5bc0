//! Button matrix widget.

use super::{Obj, Widget};
use vstd::prelude::*;

verus! {

/// Per-button control bits of a button matrix.
#[derive(Clone, Copy, Debug, PartialEq, Eq, Structural)]
pub struct ButtonMatrixCtrl(pub u16);

impl ButtonMatrixCtrl {
    /// Hide the button.
    pub fn hidden() -> (c: ButtonMatrixCtrl)
        ensures
            c.0 == 0x0010,
    {
        ButtonMatrixCtrl(0x0010)
    }

    /// Do not repeat the button on long press.
    pub fn no_repeat() -> (c: ButtonMatrixCtrl)
        ensures
            c.0 == 0x0020,
    {
        ButtonMatrixCtrl(0x0020)
    }

    /// Disable the button.
    pub fn disabled() -> (c: ButtonMatrixCtrl)
        ensures
            c.0 == 0x0040,
    {
        ButtonMatrixCtrl(0x0040)
    }

    /// Make the button toggle its checked state when clicked.
    pub fn checkable() -> (c: ButtonMatrixCtrl)
        ensures
            c.0 == 0x0080,
    {
        ButtonMatrixCtrl(0x0080)
    }

    /// Mark the button checked.
    pub fn checked() -> (c: ButtonMatrixCtrl)
        ensures
            c.0 == 0x0100,
    {
        ButtonMatrixCtrl(0x0100)
    }

    /// Send value-changed on click instead of on release.
    pub fn click_trig() -> (c: ButtonMatrixCtrl)
        ensures
            c.0 == 0x0200,
    {
        ButtonMatrixCtrl(0x0200)
    }

    /// Show a popover when the button is pressed.
    pub fn popover() -> (c: ButtonMatrixCtrl)
        ensures
            c.0 == 0x0400,
    {
        ButtonMatrixCtrl(0x0400)
    }

    /// The first custom bit.
    pub fn custom_1() -> (c: ButtonMatrixCtrl)
        ensures
            c.0 == 0x4000,
    {
        ButtonMatrixCtrl(0x4000)
    }

    /// The second custom bit.
    pub fn custom_2() -> (c: ButtonMatrixCtrl)
        ensures
            c.0 == 0x8000,
    {
        ButtonMatrixCtrl(0x8000)
    }

    /// The raw control bits.
    pub fn bits(self) -> (r: u16)
        ensures
            r == self.0,
    {
        self.0
    }

    /// The union of two control bit sets.
    pub fn union(self, other: ButtonMatrixCtrl) -> (c: ButtonMatrixCtrl)
        ensures
            c.0 == self.0 | other.0,
    {
        ButtonMatrixCtrl(self.0 | other.0)
    }

    /// Whether every bit of `other` is present in `self`.
    pub fn contains(self, other: ButtonMatrixCtrl) -> (r: bool)
        ensures
            r == (self.0 & other.0 == other.0),
    {
        self.0 & other.0 == other.0
    }
}

/// Button matrix widget: a grid of lightweight buttons.
///
/// The matrix is modeled by the control bits of each button, the
/// selected button and the one-checked rule.
#[derive(Debug)]
pub struct ButtonMatrix {
    pub base: Obj,
    /// The control bits of each button.
    pub ctrl: Vec<u16>,
    /// The index of the selected button.
    pub selected: u32,
    /// Whether at most one button may be checked.
    pub one_checked: bool,
}

impl ButtonMatrix {
    /// Create a new button matrix as a child of the given parent, with
    /// the default map of buttons.
    pub fn new<W: Widget>(parent: &mut W) -> (r: Option<ButtonMatrix>)
        requires
            old(parent).base_spec().child_count < u64::MAX,
        ensures
            *final(parent) == old(parent).with_base_spec(
                old(parent).base_spec().with_child_inc(),
            ),
            r matches Some(m) && m.base == Obj::initial() && m.ctrl@ == Seq::<u16>::empty()
                && m.selected == 0 && !m.one_checked,
    {
        let pb = parent.base_mut();
        pb.child_count = pb.child_count + 1;
        Some(
            ButtonMatrix {
                base: Obj::new_initial(),
                ctrl: Vec::new(),
                selected: 0,
                one_checked: false,
            },
        )
    }

    /// Set how many buttons the matrix holds; new buttons start with no
    /// control bits.
    pub fn set_button_count(&mut self, count: usize)
        ensures
            final(self).ctrl@.len() == count,
            forall|j: int|
                0 <= j < count ==> final(self).ctrl@[j] == if j < old(self).ctrl@.len() {
                    old(self).ctrl@[j]
                } else {
                    0u16
                },
            final(self).base == old(self).base,
            final(self).selected == old(self).selected,
            final(self).one_checked == old(self).one_checked,
    {
        let mut v: Vec<u16> = Vec::new();
        let mut i: usize = 0;
        while i < count
            invariant
                i <= count,
                v@.len() == i,
                self.ctrl@ == old(self).ctrl@,
                forall|j: int|
                    0 <= j < i ==> #[trigger] v@[j] == if j < old(self).ctrl@.len() {
                        old(self).ctrl@[j]
                    } else {
                        0u16
                    },
            decreases count - i,
        {
            if i < self.ctrl.len() {
                let bits = self.ctrl[i];
                v.push(bits);
            } else {
                v.push(0);
            }
            i = i + 1;
        }
        self.ctrl = v;
    }

    /// Add control bits to one button.
    pub fn set_button_ctrl(&mut self, btn_id: usize, ctrl: ButtonMatrixCtrl)
        requires
            btn_id < old(self).ctrl@.len(),
        ensures
            final(self).ctrl@ == old(self).ctrl@.update(
                btn_id as int,
                old(self).ctrl@[btn_id as int] | ctrl.0,
            ),
            final(self).base == old(self).base,
            final(self).selected == old(self).selected,
            final(self).one_checked == old(self).one_checked,
    {
        let bits = self.ctrl[btn_id] | ctrl.0;
        self.ctrl.set(btn_id, bits);
    }

    /// Remove control bits from one button.
    pub fn clear_button_ctrl(&mut self, btn_id: usize, ctrl: ButtonMatrixCtrl)
        requires
            btn_id < old(self).ctrl@.len(),
        ensures
            final(self).ctrl@ == old(self).ctrl@.update(
                btn_id as int,
                old(self).ctrl@[btn_id as int] & !ctrl.0,
            ),
            final(self).base == old(self).base,
            final(self).selected == old(self).selected,
            final(self).one_checked == old(self).one_checked,
    {
        let bits = self.ctrl[btn_id] & !ctrl.0;
        self.ctrl.set(btn_id, bits);
    }

    /// Whether one button has all the given control bits.
    pub fn has_button_ctrl(&self, btn_id: usize, ctrl: ButtonMatrixCtrl) -> (r: bool)
        requires
            btn_id < self.ctrl@.len(),
        ensures
            r == (self.ctrl@[btn_id as int] & ctrl.0 == ctrl.0),
    {
        self.ctrl[btn_id] & ctrl.0 == ctrl.0
    }

    /// Select a button.
    pub fn set_selected(&mut self, btn_id: u32)
        ensures
            *final(self) == (ButtonMatrix { selected: btn_id, ..*old(self) }),
    {
        self.selected = btn_id;
    }

    /// The index of the selected button.
    pub fn selected(&self) -> (r: u32)
        ensures
            r == self.selected,
    {
        self.selected
    }

    /// Allow at most one checked button.
    pub fn set_one_checked(&mut self, en: bool)
        ensures
            *final(self) == (ButtonMatrix { one_checked: en, ..*old(self) }),
    {
        self.one_checked = en;
    }

    /// Whether at most one button may be checked.
    pub fn one_checked(&self) -> (r: bool)
        ensures
            r == self.one_checked,
    {
        self.one_checked
    }
}

impl Widget for ButtonMatrix {
    open spec fn base_spec(&self) -> Obj {
        self.base
    }

    open spec fn with_base_spec(&self, b: Obj) -> ButtonMatrix {
        ButtonMatrix { base: b, ..*self }
    }

    fn base(&self) -> (r: &Obj) {
        &self.base
    }

    fn base_mut(&mut self) -> (r: &mut Obj) {
        &mut self.base
    }
}

} // verus!
