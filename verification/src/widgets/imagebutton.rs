//! Image button widget.

use super::{Obj, Widget};
use vstd::prelude::*;

verus! {

/// The displayed state of an image button.
#[derive(Clone, Copy, Debug, PartialEq, Eq, Structural)]
pub enum ImageButtonState {
    Released,
    Pressed,
    Disabled,
    CheckedReleased,
    CheckedPressed,
    CheckedDisabled,
}

impl ImageButtonState {
    /// The C ABI code of this state.
    pub open spec fn code(self) -> u32 {
        match self {
            ImageButtonState::Released => 0,
            ImageButtonState::Pressed => 1,
            ImageButtonState::Disabled => 2,
            ImageButtonState::CheckedReleased => 3,
            ImageButtonState::CheckedPressed => 4,
            ImageButtonState::CheckedDisabled => 5,
        }
    }

    /// Convert to the C ABI code.
    pub fn to_raw(self) -> (r: u32)
        ensures
            r == self.code(),
    {
        match self {
            ImageButtonState::Released => 0,
            ImageButtonState::Pressed => 1,
            ImageButtonState::Disabled => 2,
            ImageButtonState::CheckedReleased => 3,
            ImageButtonState::CheckedPressed => 4,
            ImageButtonState::CheckedDisabled => 5,
        }
    }
}

/// Image button widget: a button drawn from per-state images.
#[derive(Clone, Copy, Debug)]
pub struct ImageButton {
    pub base: Obj,
    /// The state whose image is displayed.
    pub state: ImageButtonState,
}

impl ImageButton {
    /// Create a new image button as a child of the given parent.
    pub fn new<W: Widget>(parent: &mut W) -> (r: Option<ImageButton>)
        requires
            old(parent).base_spec().child_count < u64::MAX,
        ensures
            *final(parent) == old(parent).with_base_spec(
                old(parent).base_spec().with_child_inc(),
            ),
            r == Some(ImageButton { base: Obj::initial(), state: ImageButtonState::Released }),
    {
        let pb = parent.base_mut();
        pb.child_count = pb.child_count + 1;
        Some(ImageButton { base: Obj::new_initial(), state: ImageButtonState::Released })
    }

    /// Set the displayed state.
    pub fn set_state(&mut self, state: ImageButtonState)
        ensures
            *final(self) == (ImageButton { state, ..*old(self) }),
    {
        self.state = state;
    }
}

impl Widget for ImageButton {
    open spec fn base_spec(&self) -> Obj {
        self.base
    }

    open spec fn with_base_spec(&self, b: Obj) -> ImageButton {
        ImageButton { base: b, ..*self }
    }

    fn base(&self) -> (r: &Obj) {
        &self.base
    }

    fn base_mut(&mut self) -> (r: &mut Obj) {
        &mut self.base
    }
}

} // verus!
