//! Scale widget: a graduated ruler or gauge.

use super::{Obj, Widget};
use vstd::prelude::*;

verus! {

/// Scale mode: where the scale line and its labels sit.
#[derive(Clone, Copy, Debug, PartialEq, Eq, Structural)]
pub enum ScaleMode {
    /// A horizontal scale with ticks below.
    Horizontal,
    /// A vertical scale with ticks on the left.
    Vertical,
    /// A round scale with ticks inside.
    Round,
}

impl ScaleMode {
    /// The C ABI code of this mode.
    pub open spec fn code(self) -> u32 {
        match self {
            ScaleMode::Horizontal => 1,
            ScaleMode::Vertical => 2,
            ScaleMode::Round => 8,
        }
    }

    /// Convert to the C ABI code.
    pub fn to_raw(self) -> (r: u32)
        ensures
            r == self.code(),
    {
        match self {
            ScaleMode::Horizontal => 1,
            ScaleMode::Vertical => 2,
            ScaleMode::Round => 8,
        }
    }
}

/// A highlighted value range of a scale.
#[derive(Clone, Copy, Debug, PartialEq, Eq, Structural)]
pub struct ScaleSectionDescr {
    pub min: i32,
    pub max: i32,
}

/// Scale widget.
#[derive(Clone, Copy, Debug)]
pub struct Scale {
    pub base: Obj,
    pub mode: ScaleMode,
    pub min: i32,
    pub max: i32,
    /// The total number of ticks drawn.
    pub total_ticks: u32,
    /// Every how many ticks a major tick is drawn.
    pub major_every: u32,
    /// Whether tick labels are shown.
    pub label_show: bool,
    /// How many sections were added.
    pub section_count: u64,
    /// The angular span of a round scale, in degrees.
    pub angle_range: u32,
    /// The rotation of a round scale, in degrees.
    pub rotation: i32,
}

impl Scale {
    /// A fresh scale: horizontal, range 0 to 100.
    pub open spec fn initial() -> Scale {
        Scale {
            base: Obj::initial(),
            mode: ScaleMode::Horizontal,
            min: 0,
            max: 100,
            total_ticks: 11,
            major_every: 5,
            label_show: false,
            section_count: 0,
            angle_range: 270,
            rotation: 135,
        }
    }

    /// Create a new scale as a child of the given parent.
    pub fn new<W: Widget>(parent: &mut W) -> (r: Option<Scale>)
        requires
            old(parent).base_spec().child_count < u64::MAX,
        ensures
            *final(parent) == old(parent).with_base_spec(
                old(parent).base_spec().with_child_inc(),
            ),
            r == Some(Scale::initial()),
    {
        let pb = parent.base_mut();
        pb.child_count = pb.child_count + 1;
        Some(
            Scale {
                base: Obj::new_initial(),
                mode: ScaleMode::Horizontal,
                min: 0,
                max: 100,
                total_ticks: 11,
                major_every: 5,
                label_show: false,
                section_count: 0,
                angle_range: 270,
                rotation: 135,
            },
        )
    }

    /// Set the scale mode.
    pub fn set_mode(&mut self, mode: ScaleMode)
        ensures
            *final(self) == (Scale { mode, ..*old(self) }),
    {
        self.mode = mode;
    }

    /// Set the value range.
    pub fn set_range(&mut self, min: i32, max: i32)
        ensures
            *final(self) == (Scale { min, max, ..*old(self) }),
    {
        self.min = min;
        self.max = max;
    }

    /// Set the total number of ticks.
    pub fn set_total_tick_count(&mut self, count: u32)
        ensures
            *final(self) == (Scale { total_ticks: count, ..*old(self) }),
    {
        self.total_ticks = count;
    }

    /// Draw a major tick every so many ticks.
    pub fn set_major_tick_every(&mut self, every: u32)
        ensures
            *final(self) == (Scale { major_every: every, ..*old(self) }),
    {
        self.major_every = every;
    }

    /// Show or hide the tick labels.
    pub fn set_label_show(&mut self, show: bool)
        ensures
            *final(self) == (Scale { label_show: show, ..*old(self) }),
    {
        self.label_show = show;
    }

    /// Add a section to highlight a value range.
    pub fn add_section(&mut self) -> (r: Option<ScaleSectionDescr>)
        requires
            old(self).section_count < u64::MAX,
        ensures
            *final(self) == (Scale {
                section_count: (old(self).section_count + 1) as u64,
                ..*old(self)
            }),
            r == Some(ScaleSectionDescr { min: 0, max: 0 }),
    {
        self.section_count = self.section_count + 1;
        Some(ScaleSectionDescr { min: 0, max: 0 })
    }

    /// Set the value range a section highlights.
    pub fn set_section_range(&self, section: &mut ScaleSectionDescr, min: i32, max: i32)
        ensures
            *final(section) == (ScaleSectionDescr { min, max }),
    {
        section.min = min;
        section.max = max;
    }

    /// Set the angular span of a round scale, in degrees.
    pub fn set_angle_range(&mut self, angle: u32)
        ensures
            *final(self) == (Scale { angle_range: angle, ..*old(self) }),
    {
        self.angle_range = angle;
    }

    /// Set the rotation of a round scale, in degrees.
    pub fn set_rotation(&mut self, rotation: i32)
        ensures
            *final(self) == (Scale { rotation, ..*old(self) }),
    {
        self.rotation = rotation;
    }
}

impl Widget for Scale {
    open spec fn base_spec(&self) -> Obj {
        self.base
    }

    open spec fn with_base_spec(&self, b: Obj) -> Scale {
        Scale { base: b, ..*self }
    }

    fn base(&self) -> (r: &Obj) {
        &self.base
    }

    fn base_mut(&mut self) -> (r: &mut Obj) {
        &mut self.base
    }
}

} // verus!
