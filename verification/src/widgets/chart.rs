//! Chart widget.

use super::{Obj, Widget};
use crate::color::Color;
use vstd::prelude::*;

verus! {

/// How a chart draws its series.
#[derive(Clone, Copy, Debug, PartialEq, Eq, Structural)]
pub enum ChartType {
    /// Do not display the series.
    NoChart,
    /// Connect the points with lines.
    Line,
    /// Draw columns.
    Bar,
    /// Draw points at X and Y coordinates.
    Scatter,
}

impl ChartType {
    /// The C ABI code of this chart type.
    pub open spec fn code(self) -> u32 {
        match self {
            ChartType::NoChart => 0,
            ChartType::Line => 1,
            ChartType::Bar => 2,
            ChartType::Scatter => 3,
        }
    }

    /// Convert to the C ABI code.
    pub fn to_raw(self) -> (r: u32)
        ensures
            r == self.code(),
    {
        match self {
            ChartType::NoChart => 0,
            ChartType::Line => 1,
            ChartType::Bar => 2,
            ChartType::Scatter => 3,
        }
    }
}

/// A chart axis.
#[derive(Clone, Copy, Debug, PartialEq, Eq, Structural)]
pub enum ChartAxis {
    PrimaryY,
    SecondaryY,
    PrimaryX,
    SecondaryX,
}

impl ChartAxis {
    /// The C ABI code of this axis.
    pub open spec fn code(self) -> u32 {
        match self {
            ChartAxis::PrimaryY => 0,
            ChartAxis::SecondaryY => 1,
            ChartAxis::PrimaryX => 2,
            ChartAxis::SecondaryX => 3,
        }
    }

    /// Convert to the C ABI code.
    pub fn to_raw(self) -> (r: u32)
        ensures
            r == self.code(),
    {
        match self {
            ChartAxis::PrimaryY => 0,
            ChartAxis::SecondaryY => 1,
            ChartAxis::PrimaryX => 2,
            ChartAxis::SecondaryX => 3,
        }
    }
}

/// One data series of a chart.
#[derive(Debug)]
pub struct ChartSeries {
    pub color: Color,
    pub axis: ChartAxis,
    pub hidden: bool,
    /// The series values, newest last.
    pub points: Vec<i32>,
}

impl ChartSeries {
    /// Get a series value by index.
    pub fn value_at(&self, index: usize) -> (r: i32)
        requires
            index < self.points@.len(),
        ensures
            r == self.points@[index as int],
    {
        self.points[index]
    }

    /// The number of stored values.
    pub fn point_count(&self) -> (r: usize)
        ensures
            r == self.points@.len(),
    {
        self.points.len()
    }
}

/// Chart widget: draws data series on axes.
#[derive(Clone, Copy, Debug)]
pub struct Chart {
    pub base: Obj,
    pub chart_type: ChartType,
    /// How many points each series holds.
    pub point_count: u32,
    /// How many series were added.
    pub series_count: u64,
    /// The value range of the primary Y axis.
    pub primary_y: (i32, i32),
    /// The value range of the secondary Y axis.
    pub secondary_y: (i32, i32),
    /// The value range of the primary X axis.
    pub primary_x: (i32, i32),
    /// The value range of the secondary X axis.
    pub secondary_x: (i32, i32),
    /// The number of horizontal division lines.
    pub div_hor: u32,
    /// The number of vertical division lines.
    pub div_ver: u32,
}

impl Chart {
    /// A fresh chart: line type, ten points per series, ranges 0 to 100.
    pub open spec fn initial() -> Chart {
        Chart {
            base: Obj::initial(),
            chart_type: ChartType::Line,
            point_count: 10,
            series_count: 0,
            primary_y: (0, 100),
            secondary_y: (0, 100),
            primary_x: (0, 100),
            secondary_x: (0, 100),
            div_hor: 3,
            div_ver: 5,
        }
    }

    /// Create a new chart as a child of the given parent.
    pub fn new<W: Widget>(parent: &mut W) -> (r: Option<Chart>)
        requires
            old(parent).base_spec().child_count < u64::MAX,
        ensures
            *final(parent) == old(parent).with_base_spec(
                old(parent).base_spec().with_child_inc(),
            ),
            r == Some(Chart::initial()),
    {
        let pb = parent.base_mut();
        pb.child_count = pb.child_count + 1;
        Some(
            Chart {
                base: Obj::new_initial(),
                chart_type: ChartType::Line,
                point_count: 10,
                series_count: 0,
                primary_y: (0, 100),
                secondary_y: (0, 100),
                primary_x: (0, 100),
                secondary_x: (0, 100),
                div_hor: 3,
                div_ver: 5,
            },
        )
    }

    /// Set how the series are drawn.
    pub fn set_type(&mut self, chart_type: ChartType)
        ensures
            *final(self) == (Chart { chart_type, ..*old(self) }),
    {
        self.chart_type = chart_type;
    }

    /// Set how many points each series holds.
    pub fn set_point_count(&mut self, count: u32)
        ensures
            *final(self) == (Chart { point_count: count, ..*old(self) }),
    {
        self.point_count = count;
    }

    /// How many points each series holds.
    pub fn point_count(&self) -> (r: u32)
        ensures
            r == self.point_count,
    {
        self.point_count
    }

    /// Set the value range of one axis.
    pub fn set_range(&mut self, axis: ChartAxis, min: i32, max: i32)
        ensures
            *final(self) == match axis {
                ChartAxis::PrimaryY => Chart { primary_y: (min, max), ..*old(self) },
                ChartAxis::SecondaryY => Chart { secondary_y: (min, max), ..*old(self) },
                ChartAxis::PrimaryX => Chart { primary_x: (min, max), ..*old(self) },
                ChartAxis::SecondaryX => Chart { secondary_x: (min, max), ..*old(self) },
            },
    {
        match axis {
            ChartAxis::PrimaryY => self.primary_y = (min, max),
            ChartAxis::SecondaryY => self.secondary_y = (min, max),
            ChartAxis::PrimaryX => self.primary_x = (min, max),
            ChartAxis::SecondaryX => self.secondary_x = (min, max),
        }
    }

    /// Set the number of horizontal and vertical division lines.
    pub fn set_div_line_count(&mut self, hdiv: u32, vdiv: u32)
        ensures
            *final(self) == (Chart { div_hor: hdiv, div_ver: vdiv, ..*old(self) }),
    {
        self.div_hor = hdiv;
        self.div_ver = vdiv;
    }

    /// Add a series in the given color on the given axis.  The series
    /// starts empty.
    pub fn add_series(&mut self, color: Color, axis: ChartAxis) -> (r: Option<ChartSeries>)
        requires
            old(self).series_count < u64::MAX,
        ensures
            *final(self) == (Chart {
                series_count: (old(self).series_count + 1) as u64,
                ..*old(self)
            }),
            r matches Some(s) && s.color == color && s.axis == axis && !s.hidden && s.points@
                == Seq::<i32>::empty(),
    {
        self.series_count = self.series_count + 1;
        Some(ChartSeries { color, axis, hidden: false, points: Vec::new() })
    }

    /// Remove a series.
    pub fn remove_series(&mut self, _series: ChartSeries)
        requires
            old(self).series_count > 0,
        ensures
            *final(self) == (Chart {
                series_count: (old(self).series_count - 1) as u64,
                ..*old(self)
            }),
    {
        self.series_count = self.series_count - 1;
    }

    /// Hide or show a series.
    pub fn hide_series(&self, series: &mut ChartSeries, hide: bool)
        ensures
            final(series).hidden == hide,
            final(series).color == old(series).color,
            final(series).axis == old(series).axis,
            final(series).points@ == old(series).points@,
    {
        series.hidden = hide;
    }

    /// Append the next value to a series.  When the series is full, the
    /// oldest value leaves and the rest shift left.
    pub fn set_next(&self, series: &mut ChartSeries, value: i32)
        requires
            old(series).points@.len() <= self.point_count,
        ensures
            final(series).points@ == if old(series).points@.len() < self.point_count {
                old(series).points@.push(value)
            } else if self.point_count == 0 {
                old(series).points@
            } else {
                old(series).points@.subrange(1, old(series).points@.len() as int).push(value)
            },
            final(series).color == old(series).color,
            final(series).axis == old(series).axis,
            final(series).hidden == old(series).hidden,
    {
        if (series.points.len() as u64) < (self.point_count as u64) {
            series.points.push(value);
        } else if self.point_count > 0 {
            let _ = series.points.remove(0);
            series.points.push(value);
            proof {
                assert(series.points@ =~= old(series).points@.subrange(
                    1,
                    old(series).points@.len() as int,
                ).push(value));
            }
        }
    }

    /// Overwrite one value of a series.
    pub fn set_value(&self, series: &mut ChartSeries, index: usize, value: i32)
        requires
            index < old(series).points@.len(),
        ensures
            final(series).points@ == old(series).points@.update(index as int, value),
            final(series).color == old(series).color,
            final(series).axis == old(series).axis,
            final(series).hidden == old(series).hidden,
    {
        series.points.set(index, value);
    }
}

impl Widget for Chart {
    open spec fn base_spec(&self) -> Obj {
        self.base
    }

    open spec fn with_base_spec(&self, b: Obj) -> Chart {
        Chart { base: b, ..*self }
    }

    fn base(&self) -> (r: &Obj) {
        &self.base
    }

    fn base_mut(&mut self) -> (r: &mut Obj) {
        &mut self.base
    }
}

} // verus!
