//! Dropdown widget.

use super::{Obj, Widget};
use crate::copy_bytes;
use vstd::prelude::*;

verus! {

/// The C ABI option position that means `at the end`.
pub const DROPDOWN_POS_LAST: u32 = 0xffff;

/// Position for adding options.
#[derive(Clone, Copy, Debug, PartialEq, Eq, Structural)]
pub enum OptionPos {
    /// Add at a specific index.
    Index(u32),
    /// Add at the end.
    Last,
}

impl OptionPos {
    /// The C ABI code of this position.
    pub open spec fn code(self) -> u32 {
        match self {
            OptionPos::Index(i) => i,
            OptionPos::Last => DROPDOWN_POS_LAST,
        }
    }

    /// Convert to the C ABI code.
    pub fn to_raw(self) -> (r: u32)
        ensures
            r == self.code(),
    {
        match self {
            OptionPos::Index(i) => i,
            OptionPos::Last => DROPDOWN_POS_LAST,
        }
    }
}

/// The direction a dropdown list opens in.
#[derive(Clone, Copy, Debug, PartialEq, Eq, Structural)]
pub enum DropdownDir {
    /// Open downward (default).
    Bottom,
    /// Open upward.
    Top,
    /// Open to the left.
    Left,
    /// Open to the right.
    Right,
}

impl DropdownDir {
    /// The C ABI direction code of this direction.
    pub open spec fn code(self) -> u32 {
        match self {
            DropdownDir::Left => 1,
            DropdownDir::Right => 2,
            DropdownDir::Top => 4,
            DropdownDir::Bottom => 8,
        }
    }

    /// Convert to the C ABI direction code.
    pub fn to_raw(self) -> (r: u32)
        ensures
            r == self.code(),
    {
        match self {
            DropdownDir::Left => 1,
            DropdownDir::Right => 2,
            DropdownDir::Top => 4,
            DropdownDir::Bottom => 8,
        }
    }

    /// Read back from a C ABI direction code; unknown codes fall back to
    /// `Bottom`.
    pub fn from_raw(raw: u32) -> (d: DropdownDir)
        ensures
            raw == 1 ==> d == DropdownDir::Left,
            raw == 2 ==> d == DropdownDir::Right,
            raw == 4 ==> d == DropdownDir::Top,
            raw != 1 && raw != 2 && raw != 4 ==> d == DropdownDir::Bottom,
    {
        match raw {
            1 => DropdownDir::Left,
            2 => DropdownDir::Right,
            4 => DropdownDir::Top,
            _ => DropdownDir::Bottom,
        }
    }
}

/// The number of newline bytes in a byte sequence.
pub open spec fn newline_count(s: Seq<u8>) -> int
    decreases s.len(),
{
    if s.len() == 0 {
        0
    } else {
        newline_count(s.drop_last()) + if s.last() == 10 {
            1int
        } else {
            0int
        }
    }
}

/// The number of options in a newline-separated option string: an empty
/// string holds none, otherwise one more than its newline count.
pub open spec fn option_line_count(s: Seq<u8>) -> int {
    if s.len() == 0 {
        0
    } else {
        newline_count(s) + 1
    }
}

/// Count the options in a newline-separated option string.
pub fn count_option_lines(blob: &[u8]) -> (r: u32)
    requires
        option_line_count(blob@) <= u32::MAX,
    ensures
        r == option_line_count(blob@),
{
    if blob.len() == 0 {
        return 0;
    }
    let mut count: u64 = 0;
    let mut i: usize = 0;
    while i < blob.len()
        invariant
            i <= blob@.len(),
            count == newline_count(blob@.subrange(0, i as int)),
            count <= i,
        decreases blob@.len() - i,
    {
        proof {
            assert(blob@.subrange(0, i + 1).drop_last() =~= blob@.subrange(0, i as int));
            assert(blob@.subrange(0, i + 1).last() == blob@[i as int]);
        }
        if blob[i] == 10 {
            count = count + 1;
        }
        i = i + 1;
    }
    proof {
        assert(blob@.subrange(0, blob@.len() as int) =~= blob@);
    }
    (count + 1) as u32
}

/// Appending one byte adds its newline to the count.
proof fn lemma_newline_count_push(s: Seq<u8>, c: u8)
    ensures
        newline_count(s.push(c)) == newline_count(s) + if c == 10 {
            1int
        } else {
            0int
        },
{
    assert(s.push(c).drop_last() =~= s);
}

/// Dropdown widget: a selector with a newline-separated list of options.
#[derive(Debug)]
pub struct Dropdown {
    pub base: Obj,
    /// The options, separated by newline bytes.
    pub options: Vec<u8>,
    /// The number of options in `options`.
    pub option_count: u32,
    /// The index of the selected option.
    pub selected: u32,
    /// The direction the list opens in.
    pub dir: DropdownDir,
    /// The fixed button text, if any; otherwise the selected option is
    /// shown.
    pub text: Option<Vec<u8>>,
    /// Whether the selected option is highlighted in the open list.
    pub selected_highlight: bool,
    /// Whether the list is open.
    pub list_open: bool,
}

impl Dropdown {
    /// Whether the stored option count matches the option string.
    pub open spec fn wf(self) -> bool {
        self.option_count == option_line_count(self.options@)
    }

    /// Create a new dropdown as a child of the given parent, with no
    /// options.
    pub fn new<W: Widget>(parent: &mut W) -> (r: Option<Dropdown>)
        requires
            old(parent).base_spec().child_count < u64::MAX,
        ensures
            *final(parent) == old(parent).with_base_spec(
                old(parent).base_spec().with_child_inc(),
            ),
            r matches Some(d) && d.base == Obj::initial() && d.options@ == Seq::<u8>::empty()
                && d.option_count == 0 && d.selected == 0 && d.dir == DropdownDir::Bottom
                && d.text is None && d.selected_highlight && !d.list_open && d.wf(),
    {
        let pb = parent.base_mut();
        pb.child_count = pb.child_count + 1;
        Some(
            Dropdown {
                base: Obj::new_initial(),
                options: Vec::new(),
                option_count: 0,
                selected: 0,
                dir: DropdownDir::Bottom,
                text: None,
                selected_highlight: true,
                list_open: false,
            },
        )
    }

    /// Set the options from a newline-separated string; the first option
    /// becomes selected.
    pub fn set_options(&mut self, options: &[u8])
        requires
            option_line_count(options@) <= u32::MAX,
        ensures
            final(self).options@ == options@,
            final(self).option_count == option_line_count(options@),
            final(self).selected == 0,
            final(self).base == old(self).base,
            final(self).dir == old(self).dir,
            final(self).text == old(self).text,
            final(self).selected_highlight == old(self).selected_highlight,
            final(self).list_open == old(self).list_open,
            final(self).wf(),
    {
        self.option_count = count_option_lines(options);
        self.options = copy_bytes(options);
        self.selected = 0;
    }

    /// Add one option at the end.
    ///
    /// The option may not contain the separator byte and may not be
    /// empty; a position index at or past the end appends, like
    /// [`OptionPos::Last`].  Positions inside the list are not supported
    /// by this model.
    pub fn add_option(&mut self, option: &[u8], pos: OptionPos)
        requires
            old(self).wf(),
            option@.len() > 0,
            forall|k: int| 0 <= k < option@.len() ==> option@[k] != 10,
            old(self).option_count < u32::MAX,
            pos matches OptionPos::Index(i) ==> i >= old(self).option_count,
        ensures
            final(self).options@ == if old(self).options@.len() == 0 {
                option@
            } else {
                old(self).options@ + seq![10u8] + option@
            },
            final(self).option_count == old(self).option_count + 1,
            final(self).selected == old(self).selected,
            final(self).base == old(self).base,
            final(self).dir == old(self).dir,
            final(self).text == old(self).text,
            final(self).selected_highlight == old(self).selected_highlight,
            final(self).list_open == old(self).list_open,
            final(self).wf(),
    {
        let was_empty = self.options.len() == 0;
        if !was_empty {
            self.options.push(10);
            proof {
                lemma_newline_count_push(old(self).options@, 10);
            }
        }
        let ghost mid = self.options@;
        let mut i: usize = 0;
        while i < option.len()
            invariant
                i <= option@.len(),
                self.options@ == mid + option@.subrange(0, i as int),
                newline_count(self.options@) == newline_count(mid),
                forall|k: int| 0 <= k < option@.len() ==> option@[k] != 10,
                self.option_count == old(self).option_count,
                self.selected == old(self).selected,
                self.base == old(self).base,
                self.dir == old(self).dir,
                self.text == old(self).text,
                self.selected_highlight == old(self).selected_highlight,
                self.list_open == old(self).list_open,
            decreases option@.len() - i,
        {
            proof {
                lemma_newline_count_push(self.options@, option@[i as int]);
                assert((mid + option@.subrange(0, i as int)).push(option@[i as int]) =~= mid
                    + option@.subrange(0, i + 1));
            }
            self.options.push(option[i]);
            i = i + 1;
        }
        proof {
            assert(option@.subrange(0, option@.len() as int) =~= option@);
            if old(self).options@.len() > 0 {
                assert(mid =~= old(self).options@ + seq![10u8]);
                assert(self.options@ =~= old(self).options@ + seq![10u8] + option@);
                assert(newline_count(mid) == newline_count(old(self).options@) + 1) by {
                    assert(mid.drop_last() =~= old(self).options@);
                }
            } else {
                assert(self.options@ =~= option@);
            }
        }
        self.option_count = self.option_count + 1;
    }

    /// Remove all options.
    pub fn clear_options(&mut self)
        ensures
            final(self).options@ == Seq::<u8>::empty(),
            final(self).option_count == 0,
            final(self).selected == 0,
            final(self).base == old(self).base,
            final(self).dir == old(self).dir,
            final(self).text == old(self).text,
            final(self).selected_highlight == old(self).selected_highlight,
            final(self).list_open == old(self).list_open,
            final(self).wf(),
    {
        self.options = Vec::new();
        self.option_count = 0;
        self.selected = 0;
    }

    /// Select an option; an index beyond the last option selects the
    /// last one, and an empty dropdown keeps index 0.
    pub fn set_selected(&mut self, index: u32)
        ensures
            *final(self) == (Dropdown {
                selected: if old(self).option_count == 0 {
                    0
                } else if index >= old(self).option_count {
                    (old(self).option_count - 1) as u32
                } else {
                    index
                },
                ..*old(self)
            }),
    {
        self.selected = if self.option_count == 0 {
            0
        } else if index >= self.option_count {
            self.option_count - 1
        } else {
            index
        };
    }

    /// The index of the selected option.
    pub fn selected(&self) -> (r: u32)
        ensures
            r == self.selected,
    {
        self.selected
    }

    /// The number of options.
    pub fn option_count(&self) -> (r: u32)
        ensures
            r == self.option_count,
    {
        self.option_count
    }

    /// The newline-separated option string.
    pub fn options(&self) -> (r: &Vec<u8>)
        ensures
            r@ == self.options@,
    {
        &self.options
    }

    /// Set the direction the list opens in.
    pub fn set_dir(&mut self, dir: DropdownDir)
        ensures
            *final(self) == (Dropdown { dir, ..*old(self) }),
    {
        self.dir = dir;
    }

    /// The direction the list opens in.
    pub fn dir(&self) -> (r: DropdownDir)
        ensures
            r == self.dir,
    {
        self.dir
    }

    /// Set a fixed button text instead of showing the selected option.
    pub fn set_text(&mut self, text: &[u8])
        ensures
            final(self).text matches Some(t) && t@ == text@,
            final(self).base == old(self).base,
            final(self).options@ == old(self).options@,
            final(self).option_count == old(self).option_count,
            final(self).selected == old(self).selected,
            final(self).dir == old(self).dir,
            final(self).selected_highlight == old(self).selected_highlight,
            final(self).list_open == old(self).list_open,
    {
        self.text = Some(copy_bytes(text));
    }

    /// The fixed button text, if any.
    pub fn text(&self) -> (r: &Option<Vec<u8>>)
        ensures
            *r == self.text,
    {
        &self.text
    }

    /// Enable or disable highlighting the selected option in the open
    /// list.
    pub fn set_selected_highlight(&mut self, en: bool)
        ensures
            *final(self) == (Dropdown { selected_highlight: en, ..*old(self) }),
    {
        self.selected_highlight = en;
    }

    /// Whether the selected option is highlighted in the open list.
    pub fn selected_highlight(&self) -> (r: bool)
        ensures
            r == self.selected_highlight,
    {
        self.selected_highlight
    }

    /// Open the option list.
    pub fn open_list(&mut self)
        ensures
            *final(self) == (Dropdown { list_open: true, ..*old(self) }),
    {
        self.list_open = true;
    }

    /// Close the option list.
    pub fn close_list(&mut self)
        ensures
            *final(self) == (Dropdown { list_open: false, ..*old(self) }),
    {
        self.list_open = false;
    }

    /// Whether the option list is open.
    pub fn is_open(&self) -> (r: bool)
        ensures
            r == self.list_open,
    {
        self.list_open
    }

    /// After any selection, the selected index stays below the option
    /// count of a non-empty dropdown.
    pub proof fn lemma_selected_in_range(self, index: u32)
        requires
            self.option_count > 0,
        ensures
            ({
                let sel = if index >= self.option_count {
                    (self.option_count - 1) as u32
                } else {
                    index
                };
                sel < self.option_count
            }),
    {
    }
}

impl Widget for Dropdown {
    open spec fn base_spec(&self) -> Obj {
        self.base
    }

    open spec fn with_base_spec(&self, b: Obj) -> Dropdown {
        Dropdown { base: b, ..*self }
    }

    fn base(&self) -> (r: &Obj) {
        &self.base
    }

    fn base_mut(&mut self) -> (r: &mut Obj) {
        &mut self.base
    }
}

} // verus!
