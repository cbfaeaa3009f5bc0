//! Bar widget.

use super::{Obj, Widget};
use crate::observer::clamp_i32;
use vstd::prelude::*;

verus! {

/// Bar mode.
#[derive(Clone, Copy, Debug, PartialEq, Eq, Structural)]
pub enum BarMode {
    /// Normal mode: the indicator grows from the minimum side.
    Normal,
    /// Symmetrical mode: the indicator grows from zero.
    Symmetrical,
    /// Range mode: the indicator has a start and an end value.
    Range,
}

impl BarMode {
    /// The C ABI code of this mode.
    pub open spec fn code(self) -> u32 {
        match self {
            BarMode::Normal => 0,
            BarMode::Symmetrical => 1,
            BarMode::Range => 2,
        }
    }

    /// Convert to the C ABI code.
    pub fn to_raw(self) -> (r: u32)
        ensures
            r == self.code(),
    {
        match self {
            BarMode::Normal => 0,
            BarMode::Symmetrical => 1,
            BarMode::Range => 2,
        }
    }

    /// Read back from a C ABI code; unknown codes fall back to `Normal`.
    pub fn from_raw(raw: u32) -> (m: BarMode)
        ensures
            raw == 0 ==> m == BarMode::Normal,
            raw == 1 ==> m == BarMode::Symmetrical,
            raw == 2 ==> m == BarMode::Range,
            raw >= 3 ==> m == BarMode::Normal,
    {
        match raw {
            1 => BarMode::Symmetrical,
            2 => BarMode::Range,
            _ => BarMode::Normal,
        }
    }
}

/// Bar orientation.
#[derive(Clone, Copy, Debug, PartialEq, Eq, Structural)]
pub enum BarOrientation {
    /// Automatically determined from the widget's size.
    Auto,
    /// Horizontal bar.
    Horizontal,
    /// Vertical bar.
    Vertical,
}

impl BarOrientation {
    /// The C ABI code of this orientation.
    pub open spec fn code(self) -> u32 {
        match self {
            BarOrientation::Auto => 0,
            BarOrientation::Horizontal => 1,
            BarOrientation::Vertical => 2,
        }
    }

    /// Convert to the C ABI code.
    pub fn to_raw(self) -> (r: u32)
        ensures
            r == self.code(),
    {
        match self {
            BarOrientation::Auto => 0,
            BarOrientation::Horizontal => 1,
            BarOrientation::Vertical => 2,
        }
    }

    /// Read back from a C ABI code; unknown codes fall back to `Auto`.
    pub fn from_raw(raw: u32) -> (o: BarOrientation)
        ensures
            raw == 0 ==> o == BarOrientation::Auto,
            raw == 1 ==> o == BarOrientation::Horizontal,
            raw == 2 ==> o == BarOrientation::Vertical,
            raw >= 3 ==> o == BarOrientation::Auto,
    {
        match raw {
            1 => BarOrientation::Horizontal,
            2 => BarOrientation::Vertical,
            _ => BarOrientation::Auto,
        }
    }
}

/// Bar widget: a progress bar showing a value within a range.
#[derive(Clone, Copy, Debug)]
pub struct Bar {
    pub base: Obj,
    pub value: i32,
    /// The start value, used in range mode.
    pub start_value: i32,
    pub min: i32,
    pub max: i32,
    pub mode: BarMode,
    pub orientation: BarOrientation,
}

impl Bar {
    /// A fresh bar: value 0 in the range 0 to 100, normal mode.
    pub open spec fn initial() -> Bar {
        Bar {
            base: Obj::initial(),
            value: 0,
            start_value: 0,
            min: 0,
            max: 100,
            mode: BarMode::Normal,
            orientation: BarOrientation::Auto,
        }
    }

    /// Create a new bar as a child of the given parent.
    pub fn new<W: Widget>(parent: &mut W) -> (r: Option<Bar>)
        requires
            old(parent).base_spec().child_count < u64::MAX,
        ensures
            *final(parent) == old(parent).with_base_spec(
                old(parent).base_spec().with_child_inc(),
            ),
            r == Some(Bar::initial()),
    {
        let pb = parent.base_mut();
        pb.child_count = pb.child_count + 1;
        Some(
            Bar {
                base: Obj::new_initial(),
                value: 0,
                start_value: 0,
                min: 0,
                max: 100,
                mode: BarMode::Normal,
                orientation: BarOrientation::Auto,
            },
        )
    }

    /// Set the bar value, clamped into the value range.
    pub fn set_value(&mut self, value: i32, _anim: bool)
        requires
            old(self).min <= old(self).max,
        ensures
            *final(self) == (Bar {
                value: clamp_i32(value as int, old(self).min as int, old(self).max as int) as i32,
                ..*old(self)
            }),
    {
        self.value = if value < self.min {
            self.min
        } else if value > self.max {
            self.max
        } else {
            value
        };
    }

    /// Set the start value for range mode, clamped into the value range.
    pub fn set_start_value(&mut self, value: i32, _anim: bool)
        requires
            old(self).min <= old(self).max,
        ensures
            *final(self) == (Bar {
                start_value: clamp_i32(
                    value as int,
                    old(self).min as int,
                    old(self).max as int,
                ) as i32,
                ..*old(self)
            }),
    {
        self.start_value = if value < self.min {
            self.min
        } else if value > self.max {
            self.max
        } else {
            value
        };
    }

    /// Set the value range; the current values are clamped into it.
    pub fn set_range(&mut self, min: i32, max: i32)
        requires
            min <= max,
        ensures
            *final(self) == (Bar {
                min,
                max,
                value: clamp_i32(old(self).value as int, min as int, max as int) as i32,
                start_value: clamp_i32(
                    old(self).start_value as int,
                    min as int,
                    max as int,
                ) as i32,
                ..*old(self)
            }),
    {
        self.min = min;
        self.max = max;
        self.value = if self.value < min {
            min
        } else if self.value > max {
            max
        } else {
            self.value
        };
        self.start_value = if self.start_value < min {
            min
        } else if self.start_value > max {
            max
        } else {
            self.start_value
        };
    }

    /// Set the minimum value, keeping the maximum.
    pub fn set_min_value(&mut self, min: i32)
        requires
            min <= old(self).max,
        ensures
            *final(self) == (Bar {
                min,
                value: clamp_i32(old(self).value as int, min as int, old(self).max as int) as i32,
                start_value: clamp_i32(
                    old(self).start_value as int,
                    min as int,
                    old(self).max as int,
                ) as i32,
                ..*old(self)
            }),
    {
        let max = self.max;
        self.set_range(min, max);
    }

    /// Set the maximum value, keeping the minimum.
    pub fn set_max_value(&mut self, max: i32)
        requires
            old(self).min <= max,
        ensures
            *final(self) == (Bar {
                max,
                value: clamp_i32(old(self).value as int, old(self).min as int, max as int) as i32,
                start_value: clamp_i32(
                    old(self).start_value as int,
                    old(self).min as int,
                    max as int,
                ) as i32,
                ..*old(self)
            }),
    {
        let min = self.min;
        self.set_range(min, max);
    }

    /// Set the bar mode.
    pub fn set_mode(&mut self, mode: BarMode)
        ensures
            *final(self) == (Bar { mode, ..*old(self) }),
    {
        self.mode = mode;
    }

    /// Set the bar orientation.
    pub fn set_orientation(&mut self, orientation: BarOrientation)
        ensures
            *final(self) == (Bar { orientation, ..*old(self) }),
    {
        self.orientation = orientation;
    }

    /// Get the current value.
    pub fn value(&self) -> (r: i32)
        ensures
            r == self.value,
    {
        self.value
    }

    /// Get the start value for range mode.
    pub fn start_value(&self) -> (r: i32)
        ensures
            r == self.start_value,
    {
        self.start_value
    }

    /// Get the minimum value.
    pub fn min_value(&self) -> (r: i32)
        ensures
            r == self.min,
    {
        self.min
    }

    /// Get the maximum value.
    pub fn max_value(&self) -> (r: i32)
        ensures
            r == self.max,
    {
        self.max
    }

    /// Get the bar mode.
    pub fn mode(&self) -> (r: BarMode)
        ensures
            r == self.mode,
    {
        self.mode
    }

    /// Get the bar orientation.
    pub fn orientation(&self) -> (r: BarOrientation)
        ensures
            r == self.orientation,
    {
        self.orientation
    }

    /// Whether the bar draws symmetrically: symmetrical mode with a range
    /// spanning zero.
    pub fn is_symmetrical(&self) -> (r: bool)
        ensures
            r == (self.mode == BarMode::Symmetrical && self.min < 0 && self.max > 0),
    {
        let mode_sym = match self.mode {
            BarMode::Symmetrical => true,
            _ => false,
        };
        mode_sym && self.min < 0 && self.max > 0
    }

    /// Bind this bar's value to an integer subject.
    pub fn bind_value(&mut self, subject: &mut crate::observer::IntSubject) -> (r: Option<
        crate::observer::Observer,
    >)
        requires
            old(subject).observer_count < u64::MAX,
        ensures
            *final(self) == *old(self),
            *final(subject) == (crate::observer::IntSubject {
                observer_count: (old(subject).observer_count + 1) as u64,
                ..*old(subject)
            }),
            r == Some(crate::observer::Observer { active: true }),
    {
        crate::observer::Subject::attach_observer(subject);
        Some(crate::observer::Observer { active: true })
    }
}

impl Widget for Bar {
    open spec fn base_spec(&self) -> Obj {
        self.base
    }

    open spec fn with_base_spec(&self, b: Obj) -> Bar {
        Bar { base: b, ..*self }
    }

    fn base(&self) -> (r: &Obj) {
        &self.base
    }

    fn base_mut(&mut self) -> (r: &mut Obj) {
        &mut self.base
    }
}

} // verus!
