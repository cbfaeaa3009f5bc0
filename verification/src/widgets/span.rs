//! Span group widget: rich text assembled from styled fragments.

use super::{Obj, Widget};
use crate::copy_bytes;
use vstd::prelude::*;

verus! {

/// How text overflowing the group is handled.
#[derive(Clone, Copy, Debug, PartialEq, Eq, Structural)]
pub enum SpanOverflow {
    /// Clip the overflowing text.
    Clip,
    /// End the visible text with an ellipsis.
    Ellipsis,
}

impl SpanOverflow {
    /// The C ABI code of this overflow behavior.
    pub open spec fn code(self) -> u32 {
        match self {
            SpanOverflow::Clip => 0,
            SpanOverflow::Ellipsis => 1,
        }
    }

    /// Convert to the C ABI code.
    pub fn to_raw(self) -> (r: u32)
        ensures
            r == self.code(),
    {
        match self {
            SpanOverflow::Clip => 0,
            SpanOverflow::Ellipsis => 1,
        }
    }
}

/// How the span group sizes itself.
#[derive(Clone, Copy, Debug, PartialEq, Eq, Structural)]
pub enum SpanMode {
    /// Fixed size.
    Fixed,
    /// Expand to the text's size.
    Expand,
    /// Keep the width and break lines.
    Break,
}

impl SpanMode {
    /// The C ABI code of this mode.
    pub open spec fn code(self) -> u32 {
        match self {
            SpanMode::Fixed => 0,
            SpanMode::Expand => 1,
            SpanMode::Break => 2,
        }
    }

    /// Convert to the C ABI code.
    pub fn to_raw(self) -> (r: u32)
        ensures
            r == self.code(),
    {
        match self {
            SpanMode::Fixed => 0,
            SpanMode::Expand => 1,
            SpanMode::Break => 2,
        }
    }
}

/// One styled text fragment of a span group.
#[derive(Debug)]
pub struct Span {
    /// The fragment text, as bytes.
    pub text: Vec<u8>,
}

impl Span {
    /// Set the fragment text.
    pub fn set_text(&mut self, text: &[u8])
        ensures
            final(self).text@ == text@,
    {
        self.text = copy_bytes(text);
    }

    /// Get the fragment text.
    pub fn text(&self) -> (r: &Vec<u8>)
        ensures
            r@ == self.text@,
    {
        &self.text
    }
}

/// Span group widget.
#[derive(Clone, Copy, Debug)]
pub struct SpanGroup {
    pub base: Obj,
    /// How many fragments the group holds.
    pub span_count: u64,
    pub overflow: SpanOverflow,
    pub mode: SpanMode,
    /// First-line indent in pixels.
    pub indent: i32,
    /// The maximum number of lines shown, or `-1` for no limit.
    pub max_lines: i32,
}

impl SpanGroup {
    /// Create a new, empty span group as a child of the given parent.
    pub fn new<W: Widget>(parent: &mut W) -> (r: Option<SpanGroup>)
        requires
            old(parent).base_spec().child_count < u64::MAX,
        ensures
            *final(parent) == old(parent).with_base_spec(
                old(parent).base_spec().with_child_inc(),
            ),
            r == Some(
                SpanGroup {
                    base: Obj::initial(),
                    span_count: 0,
                    overflow: SpanOverflow::Clip,
                    mode: SpanMode::Expand,
                    indent: 0,
                    max_lines: -1i32,
                },
            ),
    {
        let pb = parent.base_mut();
        pb.child_count = pb.child_count + 1;
        Some(
            SpanGroup {
                base: Obj::new_initial(),
                span_count: 0,
                overflow: SpanOverflow::Clip,
                mode: SpanMode::Expand,
                indent: 0,
                max_lines: -1i32,
            },
        )
    }

    /// Add an empty fragment at the end.
    pub fn add_span(&mut self) -> (r: Option<Span>)
        requires
            old(self).span_count < u64::MAX,
        ensures
            *final(self) == (SpanGroup {
                span_count: (old(self).span_count + 1) as u64,
                ..*old(self)
            }),
            r matches Some(s) && s.text@ == Seq::<u8>::empty(),
    {
        self.span_count = self.span_count + 1;
        Some(Span { text: Vec::new() })
    }

    /// Delete a fragment.
    pub fn delete_span(&mut self, _span: Span)
        requires
            old(self).span_count > 0,
        ensures
            *final(self) == (SpanGroup {
                span_count: (old(self).span_count - 1) as u64,
                ..*old(self)
            }),
    {
        self.span_count = self.span_count - 1;
    }

    /// Set the overflow behavior.
    pub fn set_overflow(&mut self, overflow: SpanOverflow)
        ensures
            *final(self) == (SpanGroup { overflow, ..*old(self) }),
    {
        self.overflow = overflow;
    }

    /// Set the first-line indent in pixels.
    pub fn set_indent(&mut self, indent: i32)
        ensures
            *final(self) == (SpanGroup { indent, ..*old(self) }),
    {
        self.indent = indent;
    }

    /// Set how the group sizes itself.
    pub fn set_mode(&mut self, mode: SpanMode)
        ensures
            *final(self) == (SpanGroup { mode, ..*old(self) }),
    {
        self.mode = mode;
    }

    /// Limit the number of lines shown, or lift the limit.
    pub fn set_max_lines(&mut self, lines: Option<i32>)
        ensures
            *final(self) == (SpanGroup {
                max_lines: match lines {
                    Some(n) => n,
                    None => -1i32,
                },
                ..*old(self)
            }),
    {
        self.max_lines = match lines {
            Some(n) => n,
            None => -1i32,
        };
    }

    /// How many fragments the group holds.
    pub fn span_count(&self) -> (r: u64)
        ensures
            r == self.span_count,
    {
        self.span_count
    }
}

impl Widget for SpanGroup {
    open spec fn base_spec(&self) -> Obj {
        self.base
    }

    open spec fn with_base_spec(&self, b: Obj) -> SpanGroup {
        SpanGroup { base: b, ..*self }
    }

    fn base(&self) -> (r: &Obj) {
        &self.base
    }

    fn base_mut(&mut self) -> (r: &mut Obj) {
        &mut self.base
    }
}

} // verus!
