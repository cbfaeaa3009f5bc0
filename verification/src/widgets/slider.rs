//! Slider widget.

use super::bar::{BarMode, BarOrientation};
use super::{Obj, Widget};
use crate::observer::clamp_i32;
use vstd::prelude::*;

verus! {

/// Slider mode, shared with the bar widget.
pub type SliderMode = BarMode;

/// Slider orientation, shared with the bar widget.
pub type SliderOrientation = BarOrientation;

/// Slider widget: an interactive control selecting a value in a range.
#[derive(Clone, Copy, Debug)]
pub struct Slider {
    pub base: Obj,
    pub value: i32,
    /// The left (start) value, used in range mode.
    pub left_value: i32,
    pub min: i32,
    pub max: i32,
    pub mode: SliderMode,
    pub orientation: SliderOrientation,
    /// Whether the knob is currently being dragged.
    pub dragged: bool,
}

impl Slider {
    /// A fresh slider: value 0 in the range 0 to 100, normal mode.
    pub open spec fn initial() -> Slider {
        Slider {
            base: Obj::initial(),
            value: 0,
            left_value: 0,
            min: 0,
            max: 100,
            mode: BarMode::Normal,
            orientation: BarOrientation::Auto,
            dragged: false,
        }
    }

    /// Create a new slider as a child of the given parent.
    pub fn new<W: Widget>(parent: &mut W) -> (r: Option<Slider>)
        requires
            old(parent).base_spec().child_count < u64::MAX,
        ensures
            *final(parent) == old(parent).with_base_spec(
                old(parent).base_spec().with_child_inc(),
            ),
            r == Some(Slider::initial()),
    {
        let pb = parent.base_mut();
        pb.child_count = pb.child_count + 1;
        Some(
            Slider {
                base: Obj::new_initial(),
                value: 0,
                left_value: 0,
                min: 0,
                max: 100,
                mode: BarMode::Normal,
                orientation: BarOrientation::Auto,
                dragged: false,
            },
        )
    }

    /// Set the slider value, clamped into the value range.
    pub fn set_value(&mut self, value: i32, _anim: bool)
        requires
            old(self).min <= old(self).max,
        ensures
            *final(self) == (Slider {
                value: clamp_i32(value as int, old(self).min as int, old(self).max as int) as i32,
                ..*old(self)
            }),
    {
        self.value = if value < self.min {
            self.min
        } else if value > self.max {
            self.max
        } else {
            value
        };
    }

    /// Set the value range; the current values are clamped into it.
    pub fn set_range(&mut self, min: i32, max: i32)
        requires
            min <= max,
        ensures
            *final(self) == (Slider {
                min,
                max,
                value: clamp_i32(old(self).value as int, min as int, max as int) as i32,
                left_value: clamp_i32(old(self).left_value as int, min as int, max as int) as i32,
                ..*old(self)
            }),
    {
        self.min = min;
        self.max = max;
        self.value = if self.value < min {
            min
        } else if self.value > max {
            max
        } else {
            self.value
        };
        self.left_value = if self.left_value < min {
            min
        } else if self.left_value > max {
            max
        } else {
            self.left_value
        };
    }

    /// Set the minimum value, keeping the maximum.
    pub fn set_min_value(&mut self, min: i32)
        requires
            min <= old(self).max,
        ensures
            *final(self) == (Slider {
                min,
                value: clamp_i32(old(self).value as int, min as int, old(self).max as int) as i32,
                left_value: clamp_i32(
                    old(self).left_value as int,
                    min as int,
                    old(self).max as int,
                ) as i32,
                ..*old(self)
            }),
    {
        let max = self.max;
        self.set_range(min, max);
    }

    /// Set the maximum value, keeping the minimum.
    pub fn set_max_value(&mut self, max: i32)
        requires
            old(self).min <= max,
        ensures
            *final(self) == (Slider {
                max,
                value: clamp_i32(old(self).value as int, old(self).min as int, max as int) as i32,
                left_value: clamp_i32(
                    old(self).left_value as int,
                    old(self).min as int,
                    max as int,
                ) as i32,
                ..*old(self)
            }),
    {
        let min = self.min;
        self.set_range(min, max);
    }

    /// Set the slider mode.
    pub fn set_mode(&mut self, mode: SliderMode)
        ensures
            *final(self) == (Slider { mode, ..*old(self) }),
    {
        self.mode = mode;
    }

    /// Set the slider orientation.
    pub fn set_orientation(&mut self, orientation: SliderOrientation)
        ensures
            *final(self) == (Slider { orientation, ..*old(self) }),
    {
        self.orientation = orientation;
    }

    /// Get the current value.
    pub fn value(&self) -> (r: i32)
        ensures
            r == self.value,
    {
        self.value
    }

    /// Get the left (start) value for range mode.
    pub fn left_value(&self) -> (r: i32)
        ensures
            r == self.left_value,
    {
        self.left_value
    }

    /// Get the minimum value.
    pub fn min_value(&self) -> (r: i32)
        ensures
            r == self.min,
    {
        self.min
    }

    /// Get the maximum value.
    pub fn max_value(&self) -> (r: i32)
        ensures
            r == self.max,
    {
        self.max
    }

    /// Whether the knob is being dragged.
    pub fn is_dragged(&self) -> (r: bool)
        ensures
            r == self.dragged,
    {
        self.dragged
    }

    /// Get the slider mode.
    pub fn mode(&self) -> (r: SliderMode)
        ensures
            r == self.mode,
    {
        self.mode
    }

    /// Get the slider orientation.
    pub fn orientation(&self) -> (r: SliderOrientation)
        ensures
            r == self.orientation,
    {
        self.orientation
    }

    /// Whether the slider draws symmetrically: symmetrical mode with a
    /// range spanning zero.
    pub fn is_symmetrical(&self) -> (r: bool)
        ensures
            r == (self.mode == BarMode::Symmetrical && self.min < 0 && self.max > 0),
    {
        let mode_sym = match self.mode {
            BarMode::Symmetrical => true,
            _ => false,
        };
        mode_sym && self.min < 0 && self.max > 0
    }

    /// Bind this slider's value to an integer subject.
    pub fn bind_value(&mut self, subject: &mut crate::observer::IntSubject) -> (r: Option<
        crate::observer::Observer,
    >)
        requires
            old(subject).observer_count < u64::MAX,
        ensures
            *final(self) == *old(self),
            *final(subject) == (crate::observer::IntSubject {
                observer_count: (old(subject).observer_count + 1) as u64,
                ..*old(subject)
            }),
            r == Some(crate::observer::Observer { active: true }),
    {
        crate::observer::Subject::attach_observer(subject);
        Some(crate::observer::Observer { active: true })
    }
}

impl Widget for Slider {
    open spec fn base_spec(&self) -> Obj {
        self.base
    }

    open spec fn with_base_spec(&self, b: Obj) -> Slider {
        Slider { base: b, ..*self }
    }

    fn base(&self) -> (r: &Obj) {
        &self.base
    }

    fn base_mut(&mut self) -> (r: &mut Obj) {
        &mut self.base
    }
}

} // verus!
