//! Spinbox widget.

use super::{Obj, Widget};
use crate::observer::clamp_i32;
use vstd::prelude::*;

verus! {

/// The value a spinbox increment lands on: the raised value clamped to
/// the maximum, or wrapped to the minimum when rollover is on and the
/// maximum is exceeded.
pub open spec fn spin_up(value: int, step: int, min: int, max: int, rollover: bool) -> int {
    if value + step > max {
        if rollover {
            min
        } else {
            max
        }
    } else {
        value + step
    }
}

/// The value a spinbox decrement lands on: the lowered value clamped to
/// the minimum, or wrapped to the maximum when rollover is on and the
/// minimum is crossed.
pub open spec fn spin_down(value: int, step: int, min: int, max: int, rollover: bool) -> int {
    if value - step < min {
        if rollover {
            max
        } else {
            min
        }
    } else {
        value - step
    }
}

/// Spinbox widget: a numeric field stepped with plus and minus.
#[derive(Clone, Copy, Debug)]
pub struct Spinbox {
    pub base: Obj,
    pub value: i32,
    pub min: i32,
    pub max: i32,
    /// The step added or subtracted per increment or decrement.
    pub step: u32,
    /// Whether stepping past an end wraps to the other end.
    pub rollover: bool,
    /// The cursor position among the digits.
    pub cursor_pos: u32,
    /// How many digits are shown.
    pub digit_count: u32,
    /// Where the decimal separator sits.
    pub separator_position: u32,
}

impl Spinbox {
    /// A fresh spinbox: value 0 in a range of ±99999, step 1.
    pub open spec fn initial() -> Spinbox {
        Spinbox {
            base: Obj::initial(),
            value: 0,
            min: -99999i32,
            max: 99999,
            step: 1,
            rollover: false,
            cursor_pos: 0,
            digit_count: 5,
            separator_position: 0,
        }
    }

    /// Create a new spinbox as a child of the given parent.
    pub fn new<W: Widget>(parent: &mut W) -> (r: Option<Spinbox>)
        requires
            old(parent).base_spec().child_count < u64::MAX,
        ensures
            *final(parent) == old(parent).with_base_spec(
                old(parent).base_spec().with_child_inc(),
            ),
            r == Some(Spinbox::initial()),
    {
        let pb = parent.base_mut();
        pb.child_count = pb.child_count + 1;
        Some(
            Spinbox {
                base: Obj::new_initial(),
                value: 0,
                min: -99999i32,
                max: 99999,
                step: 1,
                rollover: false,
                cursor_pos: 0,
                digit_count: 5,
                separator_position: 0,
            },
        )
    }

    /// Set the value, clamped into the range.
    pub fn set_value(&mut self, value: i32)
        requires
            old(self).min <= old(self).max,
        ensures
            *final(self) == (Spinbox {
                value: clamp_i32(value as int, old(self).min as int, old(self).max as int) as i32,
                ..*old(self)
            }),
    {
        self.value = if value < self.min {
            self.min
        } else if value > self.max {
            self.max
        } else {
            value
        };
    }

    /// Get the value.
    pub fn value(&self) -> (r: i32)
        ensures
            r == self.value,
    {
        self.value
    }

    /// Set the range; the current value is clamped into it.
    pub fn set_range(&mut self, min: i32, max: i32)
        requires
            min <= max,
        ensures
            *final(self) == (Spinbox {
                min,
                max,
                value: clamp_i32(old(self).value as int, min as int, max as int) as i32,
                ..*old(self)
            }),
    {
        self.min = min;
        self.max = max;
        self.value = if self.value < min {
            min
        } else if self.value > max {
            max
        } else {
            self.value
        };
    }

    /// Set the step per increment or decrement.
    pub fn set_step(&mut self, step: u32)
        ensures
            *final(self) == (Spinbox { step, ..*old(self) }),
    {
        self.step = step;
    }

    /// Get the step.
    pub fn step(&self) -> (r: u32)
        ensures
            r == self.step,
    {
        self.step
    }

    /// Set how many digits are shown and where the separator sits.
    pub fn set_digit_format(&mut self, digit_count: u32, separator_position: u32)
        ensures
            *final(self) == (Spinbox { digit_count, separator_position, ..*old(self) }),
    {
        self.digit_count = digit_count;
        self.separator_position = separator_position;
    }

    /// Set the cursor position among the digits.
    pub fn set_cursor_pos(&mut self, pos: u32)
        ensures
            *final(self) == (Spinbox { cursor_pos: pos, ..*old(self) }),
    {
        self.cursor_pos = pos;
    }

    /// Raise the value by one step, clamping or wrapping at the maximum.
    pub fn increment(&mut self)
        requires
            old(self).min <= old(self).max,
        ensures
            *final(self) == (Spinbox {
                value: spin_up(
                    old(self).value as int,
                    old(self).step as int,
                    old(self).min as int,
                    old(self).max as int,
                    old(self).rollover,
                ) as i32,
                ..*old(self)
            }),
    {
        let raised: i64 = self.value as i64 + self.step as i64;
        self.value = if raised > self.max as i64 {
            if self.rollover {
                self.min
            } else {
                self.max
            }
        } else {
            raised as i32
        };
    }

    /// Lower the value by one step, clamping or wrapping at the minimum.
    pub fn decrement(&mut self)
        requires
            old(self).min <= old(self).max,
        ensures
            *final(self) == (Spinbox {
                value: spin_down(
                    old(self).value as int,
                    old(self).step as int,
                    old(self).min as int,
                    old(self).max as int,
                    old(self).rollover,
                ) as i32,
                ..*old(self)
            }),
    {
        let lowered: i64 = self.value as i64 - self.step as i64;
        self.value = if lowered < self.min as i64 {
            if self.rollover {
                self.max
            } else {
                self.min
            }
        } else {
            lowered as i32
        };
    }

    /// Enable or disable rollover at the range ends.
    pub fn set_rollover(&mut self, enable: bool)
        ensures
            *final(self) == (Spinbox { rollover: enable, ..*old(self) }),
    {
        self.rollover = enable;
    }

    /// Whether rollover at the range ends is on.
    pub fn rollover(&self) -> (r: bool)
        ensures
            r == self.rollover,
    {
        self.rollover
    }

    /// Stepping stays inside the range whenever the value starts there.
    pub proof fn lemma_spin_in_range(value: int, step: int, min: int, max: int, rollover: bool)
        requires
            min <= value <= max,
            step >= 0,
        ensures
            min <= spin_up(value, step, min, max, rollover) <= max,
            min <= spin_down(value, step, min, max, rollover) <= max,
    {
    }
}

impl Widget for Spinbox {
    open spec fn base_spec(&self) -> Obj {
        self.base
    }

    open spec fn with_base_spec(&self, b: Obj) -> Spinbox {
        Spinbox { base: b, ..*self }
    }

    fn base(&self) -> (r: &Obj) {
        &self.base
    }

    fn base_mut(&mut self) -> (r: &mut Obj) {
        &mut self.base
    }
}

} // verus!
