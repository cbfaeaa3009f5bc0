//! On-screen keyboard widget.

use super::{Obj, Widget};
use vstd::prelude::*;

verus! {

/// Keyboard mode: which key map is shown.
#[derive(Clone, Copy, Debug, PartialEq, Eq, Structural)]
pub enum KeyboardMode {
    /// Lower-case text keys.
    TextLower,
    /// Upper-case text keys.
    TextUpper,
    /// Special character keys.
    Special,
    /// Number keys.
    Number,
    /// A user-defined key map.
    UserDefined,
}

impl KeyboardMode {
    /// The C ABI code of this mode.
    pub open spec fn code(self) -> u32 {
        match self {
            KeyboardMode::TextLower => 0,
            KeyboardMode::TextUpper => 1,
            KeyboardMode::Special => 2,
            KeyboardMode::Number => 3,
            KeyboardMode::UserDefined => 4,
        }
    }

    /// Convert to the C ABI code.
    pub fn to_raw(self) -> (r: u32)
        ensures
            r == self.code(),
    {
        match self {
            KeyboardMode::TextLower => 0,
            KeyboardMode::TextUpper => 1,
            KeyboardMode::Special => 2,
            KeyboardMode::Number => 3,
            KeyboardMode::UserDefined => 4,
        }
    }

    /// Read back from a C ABI code; unknown codes fall back to
    /// `TextLower`.
    pub fn from_raw(raw: u32) -> (m: KeyboardMode)
        ensures
            raw == 0 ==> m == KeyboardMode::TextLower,
            raw == 1 ==> m == KeyboardMode::TextUpper,
            raw == 2 ==> m == KeyboardMode::Special,
            raw == 3 ==> m == KeyboardMode::Number,
            raw == 4 ==> m == KeyboardMode::UserDefined,
            raw >= 5 ==> m == KeyboardMode::TextLower,
    {
        match raw {
            1 => KeyboardMode::TextUpper,
            2 => KeyboardMode::Special,
            3 => KeyboardMode::Number,
            4 => KeyboardMode::UserDefined,
            _ => KeyboardMode::TextLower,
        }
    }
}

/// On-screen keyboard widget.
#[derive(Clone, Copy, Debug)]
pub struct Keyboard {
    pub base: Obj,
    pub mode: KeyboardMode,
    /// Whether key popovers are shown on press.
    pub popovers: bool,
    /// Whether a text area is attached to receive the input.
    pub has_textarea: bool,
}

impl Keyboard {
    /// Create a new keyboard as a child of the given parent.
    pub fn new<W: Widget>(parent: &mut W) -> (r: Option<Keyboard>)
        requires
            old(parent).base_spec().child_count < u64::MAX,
        ensures
            *final(parent) == old(parent).with_base_spec(
                old(parent).base_spec().with_child_inc(),
            ),
            r == Some(
                Keyboard {
                    base: Obj::initial(),
                    mode: KeyboardMode::TextLower,
                    popovers: false,
                    has_textarea: false,
                },
            ),
    {
        let pb = parent.base_mut();
        pb.child_count = pb.child_count + 1;
        Some(
            Keyboard {
                base: Obj::new_initial(),
                mode: KeyboardMode::TextLower,
                popovers: false,
                has_textarea: false,
            },
        )
    }

    /// Attach a text area to receive the keyboard's input.
    pub fn set_textarea(&mut self, _textarea: &super::textarea::TextArea)
        ensures
            *final(self) == (Keyboard { has_textarea: true, ..*old(self) }),
    {
        self.has_textarea = true;
    }

    /// Set the keyboard mode.
    pub fn set_mode(&mut self, mode: KeyboardMode)
        ensures
            *final(self) == (Keyboard { mode, ..*old(self) }),
    {
        self.mode = mode;
    }

    /// Get the keyboard mode.
    pub fn mode(&self) -> (r: KeyboardMode)
        ensures
            r == self.mode,
    {
        self.mode
    }

    /// Enable or disable key popovers on press.
    pub fn set_popovers(&mut self, enable: bool)
        ensures
            *final(self) == (Keyboard { popovers: enable, ..*old(self) }),
    {
        self.popovers = enable;
    }
}

impl Widget for Keyboard {
    open spec fn base_spec(&self) -> Obj {
        self.base
    }

    open spec fn with_base_spec(&self, b: Obj) -> Keyboard {
        Keyboard { base: b, ..*self }
    }

    fn base(&self) -> (r: &Obj) {
        &self.base
    }

    fn base_mut(&mut self) -> (r: &mut Obj) {
        &mut self.base
    }
}

} // verus!
