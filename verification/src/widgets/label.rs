//! Label widget.

use super::{Obj, Widget};
use crate::copy_bytes;
use vstd::prelude::*;

verus! {

/// How a label handles text that does not fit.
#[derive(Clone, Copy, Debug, PartialEq, Eq, Structural)]
pub enum LabelLongMode {
    /// Wrap text to the next line (default).
    Wrap,
    /// Truncate and show dots at the end.
    Dots,
    /// Scroll the text horizontally.
    Scroll,
    /// Scroll the text circularly.
    ScrollCircular,
    /// Keep the object size and clip the text.
    Clip,
}

impl LabelLongMode {
    /// The C ABI code of this mode.
    pub open spec fn code(self) -> u32 {
        match self {
            LabelLongMode::Wrap => 0,
            LabelLongMode::Dots => 1,
            LabelLongMode::Scroll => 2,
            LabelLongMode::ScrollCircular => 3,
            LabelLongMode::Clip => 4,
        }
    }

    /// Convert to the C ABI code.
    pub fn to_raw(self) -> (r: u32)
        ensures
            r == self.code(),
    {
        match self {
            LabelLongMode::Wrap => 0,
            LabelLongMode::Dots => 1,
            LabelLongMode::Scroll => 2,
            LabelLongMode::ScrollCircular => 3,
            LabelLongMode::Clip => 4,
        }
    }
}

impl Default for LabelLongMode {
    /// The default long mode wraps the text.
    fn default() -> (m: LabelLongMode)
        ensures
            m == LabelLongMode::Wrap,
    {
        LabelLongMode::Wrap
    }
}

/// Label widget: displays a text.
#[derive(Debug)]
pub struct Label {
    pub base: Obj,
    /// The displayed text, as bytes.
    pub text: Vec<u8>,
    /// How text that does not fit is handled.
    pub long_mode: LabelLongMode,
    /// Whether inline recolor commands are interpreted.
    pub recolor: bool,
}

impl Label {
    /// Create a new label as a child of the given parent.
    ///
    /// The label starts with an empty text, wrap mode and no recoloring.
    pub fn new<W: Widget>(parent: &mut W) -> (r: Option<Label>)
        requires
            old(parent).base_spec().child_count < u64::MAX,
        ensures
            *final(parent) == old(parent).with_base_spec(
                old(parent).base_spec().with_child_inc(),
            ),
            r matches Some(l) && l.base == Obj::initial() && l.text@ == Seq::<u8>::empty()
                && l.long_mode == LabelLongMode::Wrap && !l.recolor,
    {
        let pb = parent.base_mut();
        pb.child_count = pb.child_count + 1;
        Some(
            Label {
                base: Obj::new_initial(),
                text: Vec::new(),
                long_mode: LabelLongMode::Wrap,
                recolor: false,
            },
        )
    }

    /// Set the label text.
    pub fn set_text(&mut self, text: &[u8])
        ensures
            final(self).text@ == text@,
            final(self).base == old(self).base,
            final(self).long_mode == old(self).long_mode,
            final(self).recolor == old(self).recolor,
    {
        self.text = copy_bytes(text);
    }

    /// Get the current text.
    pub fn text(&self) -> (r: &Vec<u8>)
        ensures
            r@ == self.text@,
    {
        &self.text
    }

    /// Set the long mode (how to handle text that does not fit).
    pub fn set_long_mode(&mut self, mode: LabelLongMode)
        ensures
            *final(self) == (Label { long_mode: mode, ..*old(self) }),
    {
        self.long_mode = mode;
    }

    /// Enable or disable text recoloring.
    pub fn set_recolor(&mut self, enable: bool)
        ensures
            *final(self) == (Label { recolor: enable, ..*old(self) }),
    {
        self.recolor = enable;
    }
}

impl Widget for Label {
    open spec fn base_spec(&self) -> Obj {
        self.base
    }

    open spec fn with_base_spec(&self, b: Obj) -> Label {
        Label { base: b, ..*self }
    }

    fn base(&self) -> (r: &Obj) {
        &self.base
    }

    fn base_mut(&mut self) -> (r: &mut Obj) {
        &mut self.base
    }
}

} // verus!
