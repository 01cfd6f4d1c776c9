//! The data that a training run leaves behind, and the test that stored data
//! must pass before it is used.

use vstd::prelude::*;
use crate::curve::Point2;
use crate::encoding::{columns_of, has_basis_shape, is_basis_shape, leading_columns, SVDEncoder};
use crate::error::CodecError;
use crate::sample::MIN_SAMPLE_POINTS;
use crate::scalar::Scalar;

verus! {

/// The outcome of processing a corpus: the sampled curves, the embedding of
/// each curve, and the basis, stored column by column.
#[derive(Debug)]
pub struct ProcessedData {
    pub curves: Vec<Vec<Point2>>,
    pub coefficients: Vec<Vec<Scalar>>,
    pub basis: Vec<Vec<Scalar>>,
}

impl ProcessedData {
    /// Whether the parts fit each other for curves sampled at `num_points`
    /// points: there is one embedding for each curve, every curve has
    /// `num_points` samples, every embedding has one coefficient for each
    /// column of the basis, and the basis has the shape of a basis for that
    /// sample count.
    pub open spec fn is_consistent_at(&self, num_points: nat) -> bool {
        &&& self.coefficients@.len() == self.curves@.len()
        &&& forall|i: int|
            0 <= i < self.curves@.len() ==> (#[trigger] self.curves@[i])@.len() == num_points
        &&& forall|i: int|
            0 <= i < self.coefficients@.len() ==> (#[trigger] self.coefficients@[i])@.len()
                == self.basis@.len()
        &&& is_basis_shape(columns_of(self.basis@), num_points)
    }

    /// Whether the parts fit each other for some sample count.
    pub open spec fn is_consistent(&self) -> bool {
        exists|num_points: nat| self.is_consistent_at(num_points)
    }

    /// Whether sampled curves and embeddings are what `encoder` takes and
    /// gives: one embedding for each curve, every curve with the encoder's
    /// sample count, every embedding with one coefficient for each direction
    /// of its basis.
    pub open spec fn belong_to(
        encoder: &SVDEncoder,
        curves: Seq<Vec<Point2>>,
        coefficients: Seq<Vec<Scalar>>,
    ) -> bool {
        &&& coefficients.len() == curves.len()
        &&& forall|i: int|
            0 <= i < curves.len() ==> (#[trigger] curves[i])@.len() == encoder.sample_points()
        &&& forall|i: int|
            0 <= i < coefficients.len() ==> (#[trigger] coefficients[i])@.len() == encoder.rank()
    }

    /// Puts the outcome of a run together: the sampled curves, their
    /// embeddings, and a copy of the encoder's basis. Curves or embeddings
    /// that do not belong to the encoder are refused.
    pub fn assemble(
        encoder: &SVDEncoder,
        curves: Vec<Vec<Point2>>,
        coefficients: Vec<Vec<Scalar>>,
    ) -> (r: Result<ProcessedData, CodecError>)
        ensures
            match r {
                Ok(data) => {
                    &&& Self::belong_to(encoder, curves@, coefficients@)
                    &&& data.curves@ == curves@
                    &&& data.coefficients@ == coefficients@
                    &&& columns_of(data.basis@) == encoder.columns()
                    &&& data.is_consistent_at(encoder.sample_points())
                },
                Err(e) => e == CodecError::DimensionMismatch && !Self::belong_to(
                    encoder,
                    curves@,
                    coefficients@,
                ),
            },
    {
        if coefficients.len() != curves.len() {
            return Err(CodecError::DimensionMismatch);
        }
        let num_points: usize = encoder.num_sample_points();
        let rank: usize = encoder.num_basis_vectors();
        let mut i: usize = 0;
        while i < curves.len()
            invariant
                i <= curves@.len(),
                coefficients@.len() == curves@.len(),
                num_points == encoder.sample_points(),
                rank == encoder.rank(),
                forall|j: int| 0 <= j < i ==> (#[trigger] curves@[j])@.len() == num_points,
                forall|j: int| 0 <= j < i ==> (#[trigger] coefficients@[j])@.len() == rank,
            decreases curves@.len() - i,
        {
            if curves[i].len() != num_points {
                return Err(CodecError::DimensionMismatch);
            }
            if coefficients[i].len() != rank {
                return Err(CodecError::DimensionMismatch);
            }
            i += 1;
        }
        let stored = encoder.get_basis();
        let basis = leading_columns(stored, stored.len());
        Ok(ProcessedData { curves, coefficients, basis })
    }

    /// Accepts data whose parts fit each other, and refuses any other.
    pub fn validate(&self) -> (r: Result<(), CodecError>)
        ensures
            self.is_consistent() ==> r == Ok::<(), CodecError>(()),
            !self.is_consistent() ==> r == Err::<(), CodecError>(CodecError::MalformedArtifact),
    {
        if self.coefficients.len() != self.curves.len() {
            return Err(CodecError::MalformedArtifact);
        }
        // The sample count that the data must agree on, taken from the first
        // curve or, without curves, from the first column of the basis.
        let num_points: usize = if self.curves.len() > 0 {
            self.curves[0].len()
        } else if self.basis.len() > 0 {
            if self.basis[0].len() % 2 != 0 {
                assert forall|n: nat| !self.is_consistent_at(n) by {
                    if self.is_consistent_at(n) {
                        assert(columns_of(self.basis@)[0].len() == 2 * n);
                    }
                }
                return Err(CodecError::MalformedArtifact);
            }
            self.basis[0].len() / 2
        } else {
            MIN_SAMPLE_POINTS
        };
        proof {
            // No other sample count can fit the data.
            assert forall|n: nat| self.is_consistent_at(n) implies self.is_consistent_at(
                num_points as nat,
            ) by {
                if self.curves@.len() == 0 && self.basis@.len() > 0 {
                    assert(columns_of(self.basis@)[0].len() == 2 * n);
                }
            }
        }
        if !self.fits(num_points) {
            return Err(CodecError::MalformedArtifact);
        }
        Ok(())
    }

    /// Decides whether the parts fit each other at a given sample count, once
    /// the number of embeddings is known to be right.
    fn fits(&self, num_points: usize) -> (r: bool)
        requires
            self.coefficients@.len() == self.curves@.len(),
        ensures
            r == self.is_consistent_at(num_points as nat),
    {
        let mut i: usize = 0;
        while i < self.curves.len()
            invariant
                i <= self.curves@.len(),
                self.coefficients@.len() == self.curves@.len(),
                forall|j: int| 0 <= j < i ==> (#[trigger] self.curves@[j])@.len() == num_points,
                forall|j: int|
                    0 <= j < i ==> (#[trigger] self.coefficients@[j])@.len() == self.basis@.len(),
            decreases self.curves@.len() - i,
        {
            if self.curves[i].len() != num_points {
                return false;
            }
            if self.coefficients[i].len() != self.basis.len() {
                return false;
            }
            i += 1;
        }
        has_basis_shape(&self.basis, num_points)
    }
}

} // verus!
