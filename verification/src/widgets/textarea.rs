//! Text area widget.

use super::{Obj, Widget};
use crate::copy_bytes;
use vstd::prelude::*;

verus! {

/// The C ABI cursor position that means `after the last character`.
pub const TEXTAREA_CURSOR_LAST: i32 = 0x7fff;

/// Cursor position.
#[derive(Clone, Copy, Debug, PartialEq, Eq, Structural)]
pub enum CursorPos {
    /// A specific index position.
    Index(u32),
    /// After the last character.
    Last,
}

impl CursorPos {
    /// The C ABI code of this position.
    pub open spec fn code(self) -> int {
        match self {
            CursorPos::Index(i) => i as int,
            CursorPos::Last => TEXTAREA_CURSOR_LAST as int,
        }
    }

    /// Convert to the C ABI code.
    pub fn to_raw(self) -> (r: i64)
        ensures
            r == self.code(),
    {
        match self {
            CursorPos::Index(i) => i as i64,
            CursorPos::Last => TEXTAREA_CURSOR_LAST as i64,
        }
    }
}

/// The prefix of a byte sequence that fits under an optional length
/// limit.
pub open spec fn limit_text(s: Seq<u8>, max_length: Option<u32>) -> Seq<u8> {
    match max_length {
        Some(m) => if s.len() <= m {
            s
        } else {
            s.subrange(0, m as int)
        },
        None => s,
    }
}

/// Text under a limit never exceeds it.
pub proof fn lemma_limit_text_len(s: Seq<u8>, max_length: Option<u32>)
    ensures
        max_length matches Some(m) ==> limit_text(s, max_length).len() <= m,
        max_length is None ==> limit_text(s, max_length) == s,
{
}

/// The prefix of `extra` that a text of length `len` still has room
/// for under an optional length limit.
pub open spec fn room_for(len: nat, extra: Seq<u8>, max_length: Option<u32>) -> Seq<u8> {
    match max_length {
        Some(m) => if len >= m {
            Seq::<u8>::empty()
        } else if len + extra.len() <= m {
            extra
        } else {
            extra.subrange(0, m - len)
        },
        None => extra,
    }
}

/// Text area widget: editable text with a cursor.
#[derive(Debug)]
pub struct TextArea {
    pub base: Obj,
    /// The text content, as bytes.
    pub text: Vec<u8>,
    /// The placeholder shown while the text is empty.
    pub placeholder: Vec<u8>,
    /// The cursor position, as an index into the text.
    pub cursor: u32,
    /// Whether the cursor may be moved by clicking.
    pub cursor_click: bool,
    pub one_line: bool,
    pub password_mode: bool,
    /// How long typed characters stay visible in password mode, in
    /// milliseconds.
    pub password_show_time: u32,
    /// The maximum text length in bytes, if limited.
    pub max_length: Option<u32>,
    /// Whether text selection is enabled.
    pub selection_enabled: bool,
}

impl TextArea {
    /// Whether the cursor sits inside the text and the text respects the
    /// length limit.
    pub open spec fn wf(self) -> bool {
        &&& self.cursor <= self.text@.len()
        &&& self.text@.len() <= u32::MAX
        &&& (self.max_length matches Some(m) ==> self.text@.len() <= m)
    }

    /// Create a new text area as a child of the given parent, empty and
    /// unlimited.
    pub fn new<W: Widget>(parent: &mut W) -> (r: Option<TextArea>)
        requires
            old(parent).base_spec().child_count < u64::MAX,
        ensures
            *final(parent) == old(parent).with_base_spec(
                old(parent).base_spec().with_child_inc(),
            ),
            r matches Some(t) && t.base == Obj::initial() && t.text@ == Seq::<u8>::empty()
                && t.placeholder@ == Seq::<u8>::empty() && t.cursor == 0 && t.cursor_click
                && !t.one_line && !t.password_mode && t.password_show_time == 1500
                && t.max_length is None && !t.selection_enabled && t.wf(),
    {
        let pb = parent.base_mut();
        pb.child_count = pb.child_count + 1;
        Some(
            TextArea {
                base: Obj::new_initial(),
                text: Vec::new(),
                placeholder: Vec::new(),
                cursor: 0,
                cursor_click: true,
                one_line: false,
                password_mode: false,
                password_show_time: 1500,
                max_length: None,
                selection_enabled: false,
            },
        )
    }

    /// Insert one character at the cursor, unless the length limit is
    /// reached; the cursor moves past the inserted character.
    pub fn add_char(&mut self, c: u8)
        requires
            old(self).wf(),
            old(self).text@.len() < u32::MAX,
        ensures
            final(self).text@ == if old(self).max_length matches Some(m)
                && old(self).text@.len() >= m {
                old(self).text@
            } else {
                old(self).text@.insert(old(self).cursor as int, c)
            },
            final(self).cursor == if old(self).max_length matches Some(m)
                && old(self).text@.len() >= m {
                old(self).cursor as int
            } else {
                old(self).cursor + 1
            },
            final(self).base == old(self).base,
            final(self).placeholder@ == old(self).placeholder@,
            final(self).max_length == old(self).max_length,
            final(self).wf(),
    {
        let full = match self.max_length {
            Some(m) => self.text.len() >= m as usize,
            None => false,
        };
        if !full {
            self.text.insert(self.cursor as usize, c);
            self.cursor = self.cursor + 1;
        }
    }

    /// Insert text at the cursor.  Only as much as the length limit
    /// leaves room for is inserted; the cursor moves past the inserted
    /// text.
    pub fn add_text(&mut self, text: &[u8])
        requires
            old(self).wf(),
            old(self).text@.len() + text@.len() < u32::MAX,
        ensures
            ({
                let ins = room_for(old(self).text@.len(), text@, old(self).max_length);
                &&& final(self).text@ == old(self).text@.subrange(0, old(self).cursor as int)
                    + ins + old(self).text@.subrange(
                    old(self).cursor as int,
                    old(self).text@.len() as int,
                )
                &&& final(self).cursor == old(self).cursor + ins.len()
            }),
            final(self).base == old(self).base,
            final(self).placeholder@ == old(self).placeholder@,
            final(self).max_length == old(self).max_length,
            final(self).wf(),
    {
        let n: usize = match self.max_length {
            Some(m) => {
                let m = m as usize;
                if self.text.len() >= m {
                    0
                } else if text.len() <= m - self.text.len() {
                    text.len()
                } else {
                    m - self.text.len()
                }
            },
            None => text.len(),
        };
        proof {
            assert(text@.subrange(0, n as int) == room_for(
                old(self).text@.len(),
                text@,
                old(self).max_length,
            ));
        }
        let ghost cur0 = old(self).cursor as int;
        let ghost old_text = old(self).text@;
        let mut j: usize = 0;
        while j < n
            invariant
                j <= n,
                n <= text@.len(),
                old_text.len() + text@.len() < u32::MAX,
                0 <= cur0 <= old_text.len(),
                self.text@ == old_text.subrange(0, cur0) + text@.subrange(0, j as int)
                    + old_text.subrange(cur0, old_text.len() as int),
                self.cursor == cur0 + j,
                self.base == old(self).base,
                self.placeholder@ == old(self).placeholder@,
                self.max_length == old(self).max_length,
                self.cursor_click == old(self).cursor_click,
                self.one_line == old(self).one_line,
                self.password_mode == old(self).password_mode,
                self.password_show_time == old(self).password_show_time,
                self.selection_enabled == old(self).selection_enabled,
            decreases n - j,
        {
            proof {
                let prev = old_text.subrange(0, cur0) + text@.subrange(0, j as int)
                    + old_text.subrange(cur0, old_text.len() as int);
                assert(prev.len() == old_text.len() + j);
                assert(prev.insert(cur0 + j, text@[j as int]) =~= old_text.subrange(0, cur0)
                    + text@.subrange(0, j + 1) + old_text.subrange(
                    cur0,
                    old_text.len() as int,
                ));
            }
            self.text.insert(self.cursor as usize, text[j]);
            self.cursor = self.cursor + 1;
            j = j + 1;
        }
    }

    /// Delete the character before the cursor, if any.
    pub fn delete_char(&mut self)
        requires
            old(self).wf(),
        ensures
            final(self).text@ == if old(self).cursor > 0 {
                old(self).text@.subrange(0, old(self).cursor - 1) + old(self).text@.subrange(
                    old(self).cursor as int,
                    old(self).text@.len() as int,
                )
            } else {
                old(self).text@
            },
            final(self).cursor == if old(self).cursor > 0 {
                old(self).cursor - 1
            } else {
                0int
            },
            final(self).base == old(self).base,
            final(self).max_length == old(self).max_length,
            final(self).wf(),
    {
        if self.cursor > 0 {
            let _ = self.text.remove(self.cursor as usize - 1);
            self.cursor = self.cursor - 1;
            proof {
                assert(self.text@ =~= old(self).text@.subrange(0, old(self).cursor - 1) + old(
                    self,
                ).text@.subrange(old(self).cursor as int, old(self).text@.len() as int));
            }
        }
    }

    /// Set the whole text, cut to the length limit; the cursor moves to
    /// the end.
    pub fn set_text(&mut self, text: &[u8])
        requires
            text@.len() < u32::MAX,
        ensures
            final(self).text@ == limit_text(text@, old(self).max_length),
            final(self).cursor == final(self).text@.len(),
            final(self).base == old(self).base,
            final(self).placeholder@ == old(self).placeholder@,
            final(self).max_length == old(self).max_length,
            final(self).wf(),
    {
        let limited: Vec<u8> = match self.max_length {
            Some(m) => {
                if text.len() <= m as usize {
                    copy_bytes(text)
                } else {
                    let mut v: Vec<u8> = Vec::new();
                    let mut i: usize = 0;
                    let n: usize = m as usize;
                    while i < n
                        invariant
                            i <= n,
                            n <= text@.len(),
                            v@ == text@.subrange(0, i as int),
                        decreases n - i,
                    {
                        v.push(text[i]);
                        i = i + 1;
                        proof {
                            assert(v@ == text@.subrange(0, i as int));
                        }
                    }
                    v
                }
            },
            None => copy_bytes(text),
        };
        self.text = limited;
        self.cursor = self.text.len() as u32;
    }

    /// Get the text content.
    pub fn text(&self) -> (r: &Vec<u8>)
        ensures
            r@ == self.text@,
    {
        &self.text
    }

    /// Set the placeholder shown while the text is empty.
    pub fn set_placeholder(&mut self, text: &[u8])
        ensures
            final(self).placeholder@ == text@,
            final(self).text@ == old(self).text@,
            final(self).cursor == old(self).cursor,
            final(self).base == old(self).base,
            final(self).max_length == old(self).max_length,
    {
        self.placeholder = copy_bytes(text);
    }

    /// Get the placeholder.
    pub fn placeholder(&self) -> (r: &Vec<u8>)
        ensures
            r@ == self.placeholder@,
    {
        &self.placeholder
    }

    /// Move the cursor: to an index cut to the text length, or to the
    /// end.
    pub fn set_cursor_pos(&mut self, pos: CursorPos)
        requires
            old(self).wf(),
        ensures
            final(self).cursor == match pos {
                CursorPos::Index(i) => if i <= old(self).text@.len() {
                    i as int
                } else {
                    old(self).text@.len() as int
                },
                CursorPos::Last => old(self).text@.len() as int,
            },
            final(self).text@ == old(self).text@,
            final(self).base == old(self).base,
            final(self).max_length == old(self).max_length,
            final(self).wf(),
    {
        let len: u32 = self.text.len() as u32;
        self.cursor = match pos {
            CursorPos::Index(i) => if i <= len {
                i
            } else {
                len
            },
            CursorPos::Last => len,
        };
    }

    /// The cursor position.
    pub fn cursor_pos(&self) -> (r: u32)
        ensures
            r == self.cursor,
    {
        self.cursor
    }

    /// Allow or forbid moving the cursor by clicking.
    pub fn set_cursor_click_pos(&mut self, en: bool)
        ensures
            *final(self) == (TextArea { cursor_click: en, ..*old(self) }),
    {
        self.cursor_click = en;
    }

    /// Whether the cursor may be moved by clicking.
    pub fn cursor_click_pos(&self) -> (r: bool)
        ensures
            r == self.cursor_click,
    {
        self.cursor_click
    }

    /// Enable or disable password mode.
    pub fn set_password_mode(&mut self, en: bool)
        ensures
            *final(self) == (TextArea { password_mode: en, ..*old(self) }),
    {
        self.password_mode = en;
    }

    /// Whether password mode is on.
    pub fn password_mode(&self) -> (r: bool)
        ensures
            r == self.password_mode,
    {
        self.password_mode
    }

    /// Set how long typed characters stay visible in password mode.
    pub fn set_password_show_time(&mut self, time_ms: u32)
        ensures
            *final(self) == (TextArea { password_show_time: time_ms, ..*old(self) }),
    {
        self.password_show_time = time_ms;
    }

    /// How long typed characters stay visible in password mode.
    pub fn password_show_time(&self) -> (r: u32)
        ensures
            r == self.password_show_time,
    {
        self.password_show_time
    }

    /// Keep the text on a single line.
    pub fn set_one_line(&mut self, en: bool)
        ensures
            *final(self) == (TextArea { one_line: en, ..*old(self) }),
    {
        self.one_line = en;
    }

    /// Whether the text is kept on a single line.
    pub fn one_line(&self) -> (r: bool)
        ensures
            r == self.one_line,
    {
        self.one_line
    }

    /// Limit the text length in bytes, or lift the limit.  The stored
    /// text is not changed; the limit applies to later edits.
    pub fn set_max_length(&mut self, len: Option<u32>)
        ensures
            *final(self) == (TextArea { max_length: len, ..*old(self) }),
    {
        self.max_length = len;
    }

    /// The maximum text length in bytes, if limited.
    pub fn max_length(&self) -> (r: Option<u32>)
        ensures
            r == self.max_length,
    {
        self.max_length
    }

    /// Enable or disable text selection.
    pub fn set_text_selection(&mut self, en: bool)
        ensures
            *final(self) == (TextArea { selection_enabled: en, ..*old(self) }),
    {
        self.selection_enabled = en;
    }

    /// Whether text selection is enabled.
    pub fn text_selection(&self) -> (r: bool)
        ensures
            r == self.selection_enabled,
    {
        self.selection_enabled
    }

    /// Move the cursor one character right, stopping at the end.
    pub fn cursor_right(&mut self)
        requires
            old(self).wf(),
        ensures
            final(self).cursor == if old(self).cursor < old(self).text@.len() {
                old(self).cursor + 1
            } else {
                old(self).cursor as int
            },
            final(self).text@ == old(self).text@,
            final(self).base == old(self).base,
            final(self).max_length == old(self).max_length,
            final(self).wf(),
    {
        if (self.cursor as usize) < self.text.len() {
            self.cursor = self.cursor + 1;
        }
    }

    /// Move the cursor one character left, stopping at the start.
    pub fn cursor_left(&mut self)
        ensures
            final(self).cursor == if old(self).cursor > 0 {
                old(self).cursor - 1
            } else {
                0int
            },
            final(self).text@ == old(self).text@,
            final(self).base == old(self).base,
            final(self).max_length == old(self).max_length,
    {
        if self.cursor > 0 {
            self.cursor = self.cursor - 1;
        }
    }
}

impl Widget for TextArea {
    open spec fn base_spec(&self) -> Obj {
        self.base
    }

    open spec fn with_base_spec(&self, b: Obj) -> TextArea {
        TextArea { base: b, ..*self }
    }

    fn base(&self) -> (r: &Obj) {
        &self.base
    }

    fn base_mut(&mut self) -> (r: &mut Obj) {
        &mut self.base
    }
}

} // verus!
