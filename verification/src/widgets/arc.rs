//! Arc widget.

use super::{Obj, Widget};
use vstd::prelude::*;

verus! {

/// Arc mode.
#[derive(Clone, Copy, Debug, PartialEq, Eq, Structural)]
pub enum ArcMode {
    /// Normal mode: clockwise.
    Normal,
    /// Symmetrical mode: grows from both sides.
    Symmetrical,
    /// Reverse mode: counter-clockwise.
    Reverse,
}

impl ArcMode {
    /// The C ABI code of this mode.
    pub open spec fn code(self) -> u32 {
        match self {
            ArcMode::Normal => 0,
            ArcMode::Symmetrical => 1,
            ArcMode::Reverse => 2,
        }
    }

    /// Convert to the C ABI code.
    pub fn to_raw(self) -> (r: u32)
        ensures
            r == self.code(),
    {
        match self {
            ArcMode::Normal => 0,
            ArcMode::Symmetrical => 1,
            ArcMode::Reverse => 2,
        }
    }

    /// Read back from a C ABI code; unknown codes fall back to `Normal`.
    pub fn from_raw(raw: u32) -> (m: ArcMode)
        ensures
            raw == 0 ==> m == ArcMode::Normal,
            raw == 1 ==> m == ArcMode::Symmetrical,
            raw == 2 ==> m == ArcMode::Reverse,
            raw >= 3 ==> m == ArcMode::Normal,
    {
        match raw {
            1 => ArcMode::Symmetrical,
            2 => ArcMode::Reverse,
            _ => ArcMode::Normal,
        }
    }
}

/// Arc widget: a circular arc displaying a value, or serving as a dial.
#[derive(Clone, Copy, Debug)]
pub struct Arc {
    pub base: Obj,
    /// Indicator start angle in degrees.
    pub start_angle: i32,
    /// Indicator end angle in degrees.
    pub end_angle: i32,
    /// Background arc start angle in degrees.
    pub bg_start_angle: i32,
    /// Background arc end angle in degrees.
    pub bg_end_angle: i32,
    /// Rotation offset in degrees (0 is at 3 o'clock).
    pub rotation: i32,
    pub mode: ArcMode,
    pub value: i32,
    pub min: i32,
    pub max: i32,
    pub change_rate: u32,
    pub knob_offset: i32,
}

impl Arc {
    /// A fresh arc: background from 135 to 45 degrees, value 0 in the
    /// range 0 to 100.
    pub open spec fn initial() -> Arc {
        Arc {
            base: Obj::initial(),
            start_angle: 135,
            end_angle: 135,
            bg_start_angle: 135,
            bg_end_angle: 45,
            rotation: 0,
            mode: ArcMode::Normal,
            value: 0,
            min: 0,
            max: 100,
            change_rate: 720,
            knob_offset: 0,
        }
    }

    /// Create a new arc as a child of the given parent.
    pub fn new<W: Widget>(parent: &mut W) -> (r: Option<Arc>)
        requires
            old(parent).base_spec().child_count < u64::MAX,
        ensures
            *final(parent) == old(parent).with_base_spec(
                old(parent).base_spec().with_child_inc(),
            ),
            r == Some(Arc::initial()),
    {
        let pb = parent.base_mut();
        pb.child_count = pb.child_count + 1;
        Some(
            Arc {
                base: Obj::new_initial(),
                start_angle: 135,
                end_angle: 135,
                bg_start_angle: 135,
                bg_end_angle: 45,
                rotation: 0,
                mode: ArcMode::Normal,
                value: 0,
                min: 0,
                max: 100,
                change_rate: 720,
                knob_offset: 0,
            },
        )
    }

    /// Set the arc indicator angles in degrees.
    pub fn set_angles(&mut self, start: i32, end: i32)
        ensures
            *final(self) == (Arc { start_angle: start, end_angle: end, ..*old(self) }),
    {
        self.start_angle = start;
        self.end_angle = end;
    }

    /// Set the start angle of the arc indicator, in degrees.
    pub fn set_start_angle(&mut self, angle: i32)
        ensures
            *final(self) == (Arc { start_angle: angle, ..*old(self) }),
    {
        self.start_angle = angle;
    }

    /// Set the end angle of the arc indicator, in degrees.
    pub fn set_end_angle(&mut self, angle: i32)
        ensures
            *final(self) == (Arc { end_angle: angle, ..*old(self) }),
    {
        self.end_angle = angle;
    }

    /// Set the background arc angles in degrees.
    pub fn set_bg_angles(&mut self, start: i32, end: i32)
        ensures
            *final(self) == (Arc { bg_start_angle: start, bg_end_angle: end, ..*old(self) }),
    {
        self.bg_start_angle = start;
        self.bg_end_angle = end;
    }

    /// Set the background arc start angle, in degrees.
    pub fn set_bg_start_angle(&mut self, angle: i32)
        ensures
            *final(self) == (Arc { bg_start_angle: angle, ..*old(self) }),
    {
        self.bg_start_angle = angle;
    }

    /// Set the background arc end angle, in degrees.
    pub fn set_bg_end_angle(&mut self, angle: i32)
        ensures
            *final(self) == (Arc { bg_end_angle: angle, ..*old(self) }),
    {
        self.bg_end_angle = angle;
    }

    /// Set the rotation offset in degrees.
    pub fn set_rotation(&mut self, rotation: i32)
        ensures
            *final(self) == (Arc { rotation, ..*old(self) }),
    {
        self.rotation = rotation;
    }

    /// Set the arc mode.
    pub fn set_mode(&mut self, mode: ArcMode)
        ensures
            *final(self) == (Arc { mode, ..*old(self) }),
    {
        self.mode = mode;
    }

    /// Set the arc value, clamped into the value range.
    pub fn set_value(&mut self, value: i32)
        requires
            old(self).min <= old(self).max,
        ensures
            *final(self) == (Arc {
                value: crate::observer::clamp_i32(
                    value as int,
                    old(self).min as int,
                    old(self).max as int,
                ) as i32,
                ..*old(self)
            }),
    {
        self.value = if value < self.min {
            self.min
        } else if value > self.max {
            self.max
        } else {
            value
        };
    }

    /// Set the value range; the current value is clamped into it.
    pub fn set_range(&mut self, min: i32, max: i32)
        requires
            min <= max,
        ensures
            *final(self) == (Arc {
                min,
                max,
                value: crate::observer::clamp_i32(
                    old(self).value as int,
                    min as int,
                    max as int,
                ) as i32,
                ..*old(self)
            }),
    {
        self.min = min;
        self.max = max;
        self.value = if self.value < min {
            min
        } else if self.value > max {
            max
        } else {
            self.value
        };
    }

    /// Set the change rate for dragging, in degrees per second.
    pub fn set_change_rate(&mut self, rate: u32)
        ensures
            *final(self) == (Arc { change_rate: rate, ..*old(self) }),
    {
        self.change_rate = rate;
    }

    /// Set the knob offset in degrees.
    pub fn set_knob_offset(&mut self, offset: i32)
        ensures
            *final(self) == (Arc { knob_offset: offset, ..*old(self) }),
    {
        self.knob_offset = offset;
    }

    /// Get the arc indicator start angle.
    pub fn start_angle(&self) -> (r: i32)
        ensures
            r == self.start_angle,
    {
        self.start_angle
    }

    /// Get the arc indicator end angle.
    pub fn end_angle(&self) -> (r: i32)
        ensures
            r == self.end_angle,
    {
        self.end_angle
    }

    /// Get the background arc start angle.
    pub fn bg_start_angle(&self) -> (r: i32)
        ensures
            r == self.bg_start_angle,
    {
        self.bg_start_angle
    }

    /// Get the background arc end angle.
    pub fn bg_end_angle(&self) -> (r: i32)
        ensures
            r == self.bg_end_angle,
    {
        self.bg_end_angle
    }

    /// Get the current value.
    pub fn value(&self) -> (r: i32)
        ensures
            r == self.value,
    {
        self.value
    }

    /// Get the minimum value.
    pub fn min_value(&self) -> (r: i32)
        ensures
            r == self.min,
    {
        self.min
    }

    /// Get the maximum value.
    pub fn max_value(&self) -> (r: i32)
        ensures
            r == self.max,
    {
        self.max
    }

    /// Get the arc mode.
    pub fn mode(&self) -> (r: ArcMode)
        ensures
            r == self.mode,
    {
        self.mode
    }

    /// Get the rotation offset.
    pub fn rotation(&self) -> (r: i32)
        ensures
            r == self.rotation,
    {
        self.rotation
    }

    /// Get the knob offset.
    pub fn knob_offset(&self) -> (r: i32)
        ensures
            r == self.knob_offset,
    {
        self.knob_offset
    }

    /// Bind this arc's value to an integer subject.
    pub fn bind_value(&mut self, subject: &mut crate::observer::IntSubject) -> (r: Option<
        crate::observer::Observer,
    >)
        requires
            old(subject).observer_count < u64::MAX,
        ensures
            *final(self) == *old(self),
            *final(subject) == (crate::observer::IntSubject {
                observer_count: (old(subject).observer_count + 1) as u64,
                ..*old(subject)
            }),
            r == Some(crate::observer::Observer { active: true }),
    {
        crate::observer::Subject::attach_observer(subject);
        Some(crate::observer::Observer { active: true })
    }
}

impl Widget for Arc {
    open spec fn base_spec(&self) -> Obj {
        self.base
    }

    open spec fn with_base_spec(&self, b: Obj) -> Arc {
        Arc { base: b, ..*self }
    }

    fn base(&self) -> (r: &Obj) {
        &self.base
    }

    fn base_mut(&mut self) -> (r: &mut Obj) {
        &mut self.base
    }
}

} // verus!
