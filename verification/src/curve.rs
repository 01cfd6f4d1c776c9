//! Points, curve segments, and the collector that turns the drawing commands
//! of a glyph outline into segments.

use vstd::prelude::*;
use crate::scalar::Scalar;

verus! {

/// A point of the plane.
#[derive(Clone, Copy, Debug, PartialEq, Eq, Structural)]
pub struct Point2 {
    pub x: Scalar,
    pub y: Scalar,
}

/// One segment of an outline: a straight line, or a Bezier curve of degree two
/// or three, given by its control points in order.
#[derive(Clone, Copy, Debug, PartialEq, Eq, Structural)]
pub enum Curve {
    Line { start: Point2, end: Point2 },
    Quadratic { start: Point2, control: Point2, end: Point2 },
    Cubic { start: Point2, control1: Point2, control2: Point2, end: Point2 },
}

impl Curve {
    /// The point at which the segment begins.
    pub open spec fn start_point(self) -> Point2 {
        match self {
            Curve::Line { start, .. } => start,
            Curve::Quadratic { start, .. } => start,
            Curve::Cubic { start, .. } => start,
        }
    }

    /// The point at which the segment ends.
    pub open spec fn end_point(self) -> Point2 {
        match self {
            Curve::Line { end, .. } => end,
            Curve::Quadratic { end, .. } => end,
            Curve::Cubic { end, .. } => end,
        }
    }
}

/// Collects the segments of outlines from a stream of drawing commands.
///
/// A pen position is known once a `move_to` has been seen. Each drawing
/// command issued while the pen position is known appends one segment that
/// starts there, and moves the pen to the segment's end. A drawing command
/// issued before any `move_to` is dropped.
#[derive(Debug)]
pub struct CurveExtractor {
    pub curves: Vec<Curve>,
    pub current_point: Option<Point2>,
}

impl CurveExtractor {
    /// A collector that appends to `curves`, with no pen position yet.
    pub fn new(curves: Vec<Curve>) -> (extractor: CurveExtractor)
        ensures
            extractor.curves@ == curves@,
            extractor.current_point is None,
    {
        CurveExtractor { curves, current_point: None }
    }

    /// Puts the pen at `(x, y)` without drawing.
    pub fn move_to(&mut self, x: Scalar, y: Scalar)
        ensures
            final(self).curves@ == old(self).curves@,
            final(self).current_point == Some(Point2 { x, y }),
    {
        self.current_point = Some(Point2 { x, y });
    }

    /// Draws a straight line from the pen position to `(x, y)`.
    pub fn line_to(&mut self, x: Scalar, y: Scalar)
        ensures
            old(self).current_point is None ==> *final(self) == *old(self),
            old(self).current_point is Some ==> {
                &&& final(self).curves@ == old(self).curves@.push(
                    Curve::Line { start: old(self).current_point->0, end: Point2 { x, y } },
                )
                &&& final(self).current_point == Some(Point2 { x, y })
            },
    {
        if let Some(start) = self.current_point {
            let end = Point2 { x, y };
            self.curves.push(Curve::Line { start, end });
            self.current_point = Some(end);
        }
    }

    /// Draws a quadratic curve from the pen position to `(x, y)`, bent towards
    /// `(x1, y1)`.
    pub fn quad_to(&mut self, x1: Scalar, y1: Scalar, x: Scalar, y: Scalar)
        ensures
            old(self).current_point is None ==> *final(self) == *old(self),
            old(self).current_point is Some ==> {
                &&& final(self).curves@ == old(self).curves@.push(
                    Curve::Quadratic {
                        start: old(self).current_point->0,
                        control: Point2 { x: x1, y: y1 },
                        end: Point2 { x, y },
                    },
                )
                &&& final(self).current_point == Some(Point2 { x, y })
            },
    {
        if let Some(start) = self.current_point {
            let control = Point2 { x: x1, y: y1 };
            let end = Point2 { x, y };
            self.curves.push(Curve::Quadratic { start, control, end });
            self.current_point = Some(end);
        }
    }

    /// Draws a cubic curve from the pen position to `(x, y)`, with the control
    /// points `(x1, y1)` and `(x2, y2)`.
    pub fn curve_to(
        &mut self,
        x1: Scalar,
        y1: Scalar,
        x2: Scalar,
        y2: Scalar,
        x: Scalar,
        y: Scalar,
    )
        ensures
            old(self).current_point is None ==> *final(self) == *old(self),
            old(self).current_point is Some ==> {
                &&& final(self).curves@ == old(self).curves@.push(
                    Curve::Cubic {
                        start: old(self).current_point->0,
                        control1: Point2 { x: x1, y: y1 },
                        control2: Point2 { x: x2, y: y2 },
                        end: Point2 { x, y },
                    },
                )
                &&& final(self).current_point == Some(Point2 { x, y })
            },
    {
        if let Some(start) = self.current_point {
            let control1 = Point2 { x: x1, y: y1 };
            let control2 = Point2 { x: x2, y: y2 };
            let end = Point2 { x, y };
            self.curves.push(Curve::Cubic { start, control1, control2, end });
            self.current_point = Some(end);
        }
    }

    /// Ends a contour. Segments are kept one by one, so nothing changes.
    pub fn close(&mut self)
        ensures
            *final(self) == *old(self),
    {
    }

    /// Hands the collected segments over, in the order in which they were drawn.
    pub fn into_curves(self) -> (curves: Vec<Curve>)
        ensures
            curves@ == self.curves@,
    {
        self.curves
    }
}

} // verus!
