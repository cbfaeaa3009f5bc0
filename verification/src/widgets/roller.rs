//! Roller widget.

use super::dropdown::{count_option_lines, option_line_count};
use super::{Obj, Widget};
use crate::copy_bytes;
use vstd::prelude::*;

verus! {

/// Roller mode.
#[derive(Clone, Copy, Debug, PartialEq, Eq, Structural)]
pub enum RollerMode {
    /// Normal mode: the options end at the edges.
    Normal,
    /// Infinite mode: the options wrap around.
    Infinite,
}

impl RollerMode {
    /// The C ABI code of this mode.
    pub open spec fn code(self) -> u32 {
        match self {
            RollerMode::Normal => 0,
            RollerMode::Infinite => 1,
        }
    }

    /// Convert to the C ABI code.
    pub fn to_raw(self) -> (r: u32)
        ensures
            r == self.code(),
    {
        match self {
            RollerMode::Normal => 0,
            RollerMode::Infinite => 1,
        }
    }
}

/// Roller widget: scrolls through a newline-separated list of options.
#[derive(Debug)]
pub struct Roller {
    pub base: Obj,
    /// The options, separated by newline bytes.
    pub options: Vec<u8>,
    /// The number of options in `options`.
    pub option_count: u32,
    /// The index of the selected option.
    pub selected: u32,
    pub mode: RollerMode,
    /// How many rows are visible.
    pub visible_rows: u32,
}

impl Roller {
    /// Whether the stored option count matches the option string.
    pub open spec fn wf(self) -> bool {
        self.option_count == option_line_count(self.options@)
    }

    /// Create a new roller as a child of the given parent, with no
    /// options.
    pub fn new<W: Widget>(parent: &mut W) -> (r: Option<Roller>)
        requires
            old(parent).base_spec().child_count < u64::MAX,
        ensures
            *final(parent) == old(parent).with_base_spec(
                old(parent).base_spec().with_child_inc(),
            ),
            r matches Some(ro) && ro.base == Obj::initial() && ro.options@ == Seq::<u8>::empty()
                && ro.option_count == 0 && ro.selected == 0 && ro.mode == RollerMode::Normal
                && ro.visible_rows == 3 && ro.wf(),
    {
        let pb = parent.base_mut();
        pb.child_count = pb.child_count + 1;
        Some(
            Roller {
                base: Obj::new_initial(),
                options: Vec::new(),
                option_count: 0,
                selected: 0,
                mode: RollerMode::Normal,
                visible_rows: 3,
            },
        )
    }

    /// Set the options from a newline-separated string; the first option
    /// becomes selected.
    pub fn set_options(&mut self, options: &[u8], mode: RollerMode)
        requires
            option_line_count(options@) <= u32::MAX,
        ensures
            final(self).options@ == options@,
            final(self).option_count == option_line_count(options@),
            final(self).selected == 0,
            final(self).mode == mode,
            final(self).base == old(self).base,
            final(self).visible_rows == old(self).visible_rows,
            final(self).wf(),
    {
        self.option_count = count_option_lines(options);
        self.options = copy_bytes(options);
        self.selected = 0;
        self.mode = mode;
    }

    /// Select an option; an index beyond the last option selects the
    /// last one, and an empty roller keeps index 0.
    pub fn set_selected(&mut self, index: u32, _anim: bool)
        ensures
            *final(self) == (Roller {
                selected: if old(self).option_count == 0 {
                    0
                } else if index >= old(self).option_count {
                    (old(self).option_count - 1) as u32
                } else {
                    index
                },
                ..*old(self)
            }),
    {
        self.selected = if self.option_count == 0 {
            0
        } else if index >= self.option_count {
            self.option_count - 1
        } else {
            index
        };
    }

    /// Set how many rows are visible.
    pub fn set_visible_row_count(&mut self, count: u32)
        ensures
            *final(self) == (Roller { visible_rows: count, ..*old(self) }),
    {
        self.visible_rows = count;
    }

    /// The index of the selected option.
    pub fn selected(&self) -> (r: u32)
        ensures
            r == self.selected,
    {
        self.selected
    }

    /// The newline-separated option string.
    pub fn options(&self) -> (r: &Vec<u8>)
        ensures
            r@ == self.options@,
    {
        &self.options
    }

    /// The number of options.
    pub fn option_count(&self) -> (r: u32)
        ensures
            r == self.option_count,
    {
        self.option_count
    }

    /// Bind this roller's selection to an integer subject.
    pub fn bind_value(&mut self, subject: &mut crate::observer::IntSubject) -> (r: Option<
        crate::observer::Observer,
    >)
        requires
            old(subject).observer_count < u64::MAX,
        ensures
            *final(self) == *old(self),
            *final(subject) == (crate::observer::IntSubject {
                observer_count: (old(subject).observer_count + 1) as u64,
                ..*old(subject)
            }),
            r == Some(crate::observer::Observer { active: true }),
    {
        crate::observer::Subject::attach_observer(subject);
        Some(crate::observer::Observer { active: true })
    }
}

impl Widget for Roller {
    open spec fn base_spec(&self) -> Obj {
        self.base
    }

    open spec fn with_base_spec(&self, b: Obj) -> Roller {
        Roller { base: b, ..*self }
    }

    fn base(&self) -> (r: &Obj) {
        &self.base
    }

    fn base_mut(&mut self) -> (r: &mut Obj) {
        &mut self.base
    }
}

} // verus!
