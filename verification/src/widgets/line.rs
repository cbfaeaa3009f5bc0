//! Line widget.

use super::{Obj, Widget};
use vstd::prelude::*;

verus! {

/// A point with integer coordinates.
#[derive(Clone, Copy, Debug, PartialEq, Eq, Structural)]
pub struct Point {
    pub x: i32,
    pub y: i32,
}

impl Point {
    /// Create a new point.
    pub fn new(x: i32, y: i32) -> (p: Point)
        ensures
            p == (Point { x, y }),
    {
        Point { x, y }
    }
}

/// Line widget: draws straight segments through a list of points.
#[derive(Debug)]
pub struct Line {
    pub base: Obj,
    /// The points the line runs through.
    pub points: Vec<Point>,
    /// Whether the Y axis is inverted.
    pub y_invert: bool,
}

impl Line {
    /// Create a new line as a child of the given parent, with no points.
    pub fn new<W: Widget>(parent: &mut W) -> (r: Option<Line>)
        requires
            old(parent).base_spec().child_count < u64::MAX,
        ensures
            *final(parent) == old(parent).with_base_spec(
                old(parent).base_spec().with_child_inc(),
            ),
            r matches Some(l) && l.base == Obj::initial() && l.points@ == Seq::<Point>::empty()
                && !l.y_invert,
    {
        let pb = parent.base_mut();
        pb.child_count = pb.child_count + 1;
        Some(Line { base: Obj::new_initial(), points: Vec::new(), y_invert: false })
    }

    /// Set the points the line runs through.
    pub fn set_points(&mut self, points: &[Point])
        ensures
            final(self).points@ == points@,
            final(self).base == old(self).base,
            final(self).y_invert == old(self).y_invert,
    {
        let mut v: Vec<Point> = Vec::new();
        let mut i: usize = 0;
        while i < points.len()
            invariant
                i <= points.len(),
                v@ == points@.subrange(0, i as int),
            decreases points.len() - i,
        {
            v.push(points[i]);
            i = i + 1;
            proof {
                assert(v@ == points@.subrange(0, i as int));
            }
        }
        proof {
            assert(points@.subrange(0, points@.len() as int) == points@);
        }
        self.points = v;
    }

    /// Invert the Y axis.
    pub fn set_y_invert(&mut self, invert: bool)
        ensures
            final(self).y_invert == invert,
            final(self).base == old(self).base,
            final(self).points@ == old(self).points@,
    {
        self.y_invert = invert;
    }

    /// Whether the Y axis is inverted.
    pub fn y_invert(&self) -> (r: bool)
        ensures
            r == self.y_invert,
    {
        self.y_invert
    }

    /// The number of points the line runs through.
    pub fn point_count(&self) -> (r: usize)
        ensures
            r == self.points@.len(),
    {
        self.points.len()
    }
}

impl Widget for Line {
    open spec fn base_spec(&self) -> Obj {
        self.base
    }

    open spec fn with_base_spec(&self, b: Obj) -> Line {
        Line { base: b, ..*self }
    }

    fn base(&self) -> (r: &Obj) {
        &self.base
    }

    fn base_mut(&mut self) -> (r: &mut Obj) {
        &mut self.base
    }
}

} // verus!
