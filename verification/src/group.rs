//! Group and focus management.
//!
//! Groups let widgets be navigated with a keyboard or encoder.  A group is
//! modeled by how many widgets it holds and which of them, by position,
//! has the focus.

use crate::widgets::Widget;
use vstd::prelude::*;

verus! {

/// Refocus policy when the focused widget is deleted.
#[derive(Clone, Copy, Debug, PartialEq, Eq, Structural)]
pub enum RefocusPolicy {
    /// Focus the next widget.
    Next,
    /// Focus the previous widget.
    Prev,
}

impl RefocusPolicy {
    /// The C ABI code of this policy.
    pub open spec fn code(self) -> u32 {
        match self {
            RefocusPolicy::Next => 0,
            RefocusPolicy::Prev => 1,
        }
    }

    /// Convert to the C ABI code.
    pub fn to_raw(self) -> (r: u32)
        ensures
            r == self.code(),
    {
        match self {
            RefocusPolicy::Next => 0,
            RefocusPolicy::Prev => 1,
        }
    }
}

/// The position focus moves to when stepping forward through `count`
/// widgets: the first widget when nothing is focused, the next one
/// otherwise, wrapping or stopping at the end.
pub open spec fn next_focus(count: u32, wrap: bool, cur: Option<u32>) -> Option<u32> {
    if count == 0 {
        None
    } else {
        match cur {
            None => Some(0u32),
            Some(i) => if i + 1 < count {
                Some((i + 1) as u32)
            } else if wrap {
                Some(0u32)
            } else {
                Some(i)
            },
        }
    }
}

/// The position focus moves to when stepping backward through `count`
/// widgets: the last widget when nothing is focused, the previous one
/// otherwise, wrapping or stopping at the start.
pub open spec fn prev_focus(count: u32, wrap: bool, cur: Option<u32>) -> Option<u32> {
    if count == 0 {
        None
    } else {
        match cur {
            None => Some((count - 1) as u32),
            Some(i) => if i > 0 {
                Some((i - 1) as u32)
            } else if wrap {
                Some((count - 1) as u32)
            } else {
                Some(0u32)
            },
        }
    }
}

/// A group of widgets for keyboard or encoder navigation.
#[derive(Clone, Copy, Debug)]
pub struct Group {
    /// How many widgets the group holds.
    pub count: u32,
    /// The position of the focused widget, if any.
    pub focused: Option<u32>,
    /// Whether navigation wraps around at the ends.
    pub wrap: bool,
    /// Whether focus changes are frozen.
    pub frozen: bool,
    /// Whether the group is in editing mode.
    pub editing: bool,
    /// Whether this group was made the default one.
    pub is_default: bool,
    pub refocus_policy: RefocusPolicy,
}

impl Group {
    /// A fresh, empty group: nothing focused, wrapping navigation.
    pub open spec fn initial() -> Group {
        Group {
            count: 0,
            focused: None,
            wrap: true,
            frozen: false,
            editing: false,
            is_default: false,
            refocus_policy: RefocusPolicy::Next,
        }
    }

    /// Create a new, empty group.
    pub fn new() -> (r: Option<Group>)
        ensures
            r == Some(Group::initial()),
    {
        Some(
            Group {
                count: 0,
                focused: None,
                wrap: true,
                frozen: false,
                editing: false,
                is_default: false,
                refocus_policy: RefocusPolicy::Next,
            },
        )
    }

    /// Set this group as the default.
    pub fn set_default(&mut self)
        ensures
            *final(self) == (Group { is_default: true, ..*old(self) }),
    {
        self.is_default = true;
    }

    /// Add a widget to the group.  The first widget added receives the
    /// focus.
    pub fn add<W: Widget>(&mut self, _widget: &W)
        requires
            old(self).count < u32::MAX,
        ensures
            *final(self) == (Group {
                count: (old(self).count + 1) as u32,
                focused: if old(self).count == 0 {
                    Some(0u32)
                } else {
                    old(self).focused
                },
                ..*old(self)
            }),
    {
        if self.count == 0 {
            self.focused = Some(0);
        }
        self.count = self.count + 1;
    }

    /// Remove all widgets from the group; nothing is focused afterwards.
    pub fn remove_all(&mut self)
        ensures
            *final(self) == (Group { count: 0, focused: None, ..*old(self) }),
    {
        self.count = 0;
        self.focused = None;
    }

    /// Focus the next widget in the group; frozen focus does not move.
    pub fn focus_next(&mut self)
        ensures
            *final(self) == (Group {
                focused: if old(self).frozen {
                    old(self).focused
                } else {
                    next_focus(old(self).count, old(self).wrap, old(self).focused)
                },
                ..*old(self)
            }),
    {
        if self.frozen {
            return;
        }
        if self.count == 0 {
            self.focused = None;
            return;
        }
        self.focused = match self.focused {
            None => Some(0),
            Some(i) => if i < self.count - 1 {
                Some(i + 1)
            } else if self.wrap {
                Some(0)
            } else {
                Some(i)
            },
        };
    }

    /// Focus the previous widget in the group; frozen focus does not move.
    pub fn focus_prev(&mut self)
        ensures
            *final(self) == (Group {
                focused: if old(self).frozen {
                    old(self).focused
                } else {
                    prev_focus(old(self).count, old(self).wrap, old(self).focused)
                },
                ..*old(self)
            }),
    {
        if self.frozen {
            return;
        }
        if self.count == 0 {
            self.focused = None;
            return;
        }
        self.focused = match self.focused {
            None => Some(self.count - 1),
            Some(i) => if i > 0 {
                Some(i - 1)
            } else if self.wrap {
                Some(self.count - 1)
            } else {
                Some(0)
            },
        };
    }

    /// Focus the widget at the given position; frozen focus does not move.
    pub fn focus_index(&mut self, index: u32)
        requires
            index < old(self).count,
        ensures
            *final(self) == (Group {
                focused: if old(self).frozen {
                    old(self).focused
                } else {
                    Some(index)
                },
                ..*old(self)
            }),
    {
        if !self.frozen {
            self.focused = Some(index);
        }
    }

    /// Freeze or unfreeze the focus.
    pub fn set_focus_frozen(&mut self, frozen: bool)
        ensures
            *final(self) == (Group { frozen, ..*old(self) }),
    {
        self.frozen = frozen;
    }

    /// The position of the currently focused widget, if any.
    pub fn focused(&self) -> (r: Option<u32>)
        ensures
            r == self.focused,
    {
        self.focused
    }

    /// Set whether navigation wraps around at the ends.
    pub fn set_wrap(&mut self, wrap: bool)
        ensures
            *final(self) == (Group { wrap, ..*old(self) }),
    {
        self.wrap = wrap;
    }

    /// Whether navigation wraps around at the ends.
    pub fn wrap(&self) -> (r: bool)
        ensures
            r == self.wrap,
    {
        self.wrap
    }

    /// Set editing mode: keys edit the focused widget instead of
    /// navigating.
    pub fn set_editing(&mut self, editing: bool)
        ensures
            *final(self) == (Group { editing, ..*old(self) }),
    {
        self.editing = editing;
    }

    /// Whether the group is in editing mode.
    pub fn is_editing(&self) -> (r: bool)
        ensures
            r == self.editing,
    {
        self.editing
    }

    /// Set the refocus policy.
    pub fn set_refocus_policy(&mut self, policy: RefocusPolicy)
        ensures
            *final(self) == (Group { refocus_policy: policy, ..*old(self) }),
    {
        self.refocus_policy = policy;
    }

    /// The number of widgets in the group.
    pub fn obj_count(&self) -> (r: u32)
        ensures
            r == self.count,
    {
        self.count
    }

    /// Stepping focus forward keeps it inside the group.
    pub proof fn lemma_next_focus_in_range(count: u32, wrap: bool, cur: Option<u32>)
        requires
            cur matches Some(i) ==> i < count,
        ensures
            next_focus(count, wrap, cur) matches Some(i) ==> i < count,
            next_focus(count, wrap, cur) is Some <==> count > 0,
    {
    }

    /// Stepping focus backward keeps it inside the group.
    pub proof fn lemma_prev_focus_in_range(count: u32, wrap: bool, cur: Option<u32>)
        requires
            cur matches Some(i) ==> i < count,
        ensures
            prev_focus(count, wrap, cur) matches Some(i) ==> i < count,
            prev_focus(count, wrap, cur) is Some <==> count > 0,
    {
    }
}

impl Default for Group {
    /// The default group is empty.
    fn default() -> (g: Group)
        ensures
            g == Group::initial(),
    {
        Group {
            count: 0,
            focused: None,
            wrap: true,
            frozen: false,
            editing: false,
            is_default: false,
            refocus_policy: RefocusPolicy::Next,
        }
    }
}

} // verus!
