//! Where a curve is sampled, and the reshaping of samples into one vector
//! and back.

use vstd::prelude::*;
use crate::curve::Point2;
use crate::error::CodecError;
use crate::scalar::Scalar;

verus! {

/// The smallest number of samples: one at each end of the curve.
pub const MIN_SAMPLE_POINTS: usize = 2;

/// A position along a curve: the fraction `index / last` of the way from its
/// start to its end.
#[derive(Clone, Copy, Debug, PartialEq, Eq, Structural)]
pub struct Parameter {
    pub index: usize,
    pub last: usize,
}

impl Parameter {
    /// Whether the position is the start of the curve.
    pub open spec fn at_start(self) -> bool {
        self.index == 0
    }

    /// Whether the position is the end of the curve.
    pub open spec fn at_end(self) -> bool {
        self.index == self.last
    }
}

/// The positions of `num_points` samples: evenly spaced, the first at the
/// start of the curve and the last at its end.
pub open spec fn parameter_grid(num_points: nat) -> Seq<Parameter> {
    Seq::new(
        num_points,
        |i: int| Parameter { index: i as usize, last: (num_points - 1) as usize },
    )
}

/// Computes the positions at which a curve is sampled. Fewer than two samples
/// cannot cover both ends of a curve and are refused.
pub fn sample_parameters(num_points: usize) -> (r: Result<Vec<Parameter>, CodecError>)
    ensures
        num_points < MIN_SAMPLE_POINTS ==> r == Err::<Vec<Parameter>, CodecError>(
            CodecError::InvalidParameter,
        ),
        num_points >= MIN_SAMPLE_POINTS ==> r is Ok && r->Ok_0@ == parameter_grid(
            num_points as nat,
        ),
        r is Ok ==> r->Ok_0@.len() == num_points && r->Ok_0@[0].at_start() && r->Ok_0@[
            num_points - 1
        ].at_end(),
{
    if num_points < MIN_SAMPLE_POINTS {
        return Err(CodecError::InvalidParameter);
    }
    let last: usize = num_points - 1;
    let mut grid: Vec<Parameter> = Vec::new();
    let mut i: usize = 0;
    while i < num_points
        invariant
            i <= num_points,
            last == num_points - 1,
            grid@.len() == i,
            forall|j: int| 0 <= j < i ==> grid@[j] == parameter_grid(num_points as nat)[j],
        decreases num_points - i,
    {
        grid.push(Parameter { index: i, last });
        i += 1;
    }
    Ok(grid)
}

/// The coordinates of `points` in one sequence: `x` of the first point, `y` of
/// the first point, `x` of the second, and so on.
pub open spec fn flattened(points: Seq<Point2>) -> Seq<Scalar> {
    Seq::new(
        2 * points.len(),
        |k: int|
            if k % 2 == 0 {
                points[k / 2].x
            } else {
                points[k / 2].y
            },
    )
}

/// The points whose coordinates `flat` lists pair by pair. A last coordinate
/// without a partner belongs to no point.
pub open spec fn unflattened(flat: Seq<Scalar>) -> Seq<Point2> {
    Seq::new(flat.len() / 2, |i: int| Point2 { x: flat[2 * i], y: flat[2 * i + 1] })
}

/// Regrouping a flattened sequence of points gives back the points.
pub proof fn lemma_unflatten_flatten(points: Seq<Point2>)
    ensures
        unflattened(flattened(points)) == points,
{
}

/// Flattening the points of a sequence of even length gives back the sequence.
pub proof fn lemma_flatten_unflatten(flat: Seq<Scalar>)
    requires
        flat.len() % 2 == 0,
    ensures
        flattened(unflattened(flat)) == flat,
{
}

/// Lists the coordinates of `points`, `x` before `y`, point after point.
pub fn flatten(points: &Vec<Point2>) -> (flat: Vec<Scalar>)
    ensures
        flat@ == flattened(points@),
{
    let mut flat: Vec<Scalar> = Vec::new();
    let mut i: usize = 0;
    while i < points.len()
        invariant
            i <= points@.len(),
            flat@.len() == 2 * i,
            forall|k: int| 0 <= k < 2 * i ==> flat@[k] == flattened(points@)[k],
        decreases points@.len() - i,
    {
        let p = points[i];
        flat.push(p.x);
        flat.push(p.y);
        i += 1;
    }
    flat
}

/// Regroups coordinates into points, two by two.
pub fn unflatten(flat: &Vec<Scalar>) -> (points: Vec<Point2>)
    ensures
        points@ == unflattened(flat@),
{
    let count: usize = flat.len() / 2;
    let mut points: Vec<Point2> = Vec::new();
    let mut i: usize = 0;
    while i < count
        invariant
            i <= count,
            count == flat@.len() / 2,
            2 * count <= flat.len(),
            points@.len() == i,
            forall|j: int| 0 <= j < i ==> points@[j] == unflattened(flat@)[j],
        decreases count - i,
    {
        points.push(Point2 { x: flat[2 * i], y: flat[2 * i + 1] });
        i += 1;
    }
    points
}

} // verus!
