//! The two capabilities of a codec, the batch forms that every codec has, and
//! the encoder whose basis comes from a singular value decomposition.

use vstd::prelude::*;
use crate::curve::{Curve, Point2};
use crate::error::CodecError;
use crate::rank::{is_selected_rank, leading_run, RankSelection};
use crate::sample::{
    flatten, flattened, lemma_unflatten_flatten, unflatten, unflattened, MIN_SAMPLE_POINTS,
};
use crate::scalar::Scalar;

verus! {

/// Turns a curve into its compressed form.
pub trait CurveEncoder {
    /// The compressed form of one curve.
    type Embedding;

    /// Whether `embedding` is a compressed form that this encoder may give
    /// for `curve`. An encoder that states nothing accepts every pair.
    open spec fn encodes(&self, curve: Curve, embedding: Self::Embedding) -> bool {
        true
    }

    /// Compresses one curve.
    fn encode(&self, curve: &Curve) -> (embedding: Self::Embedding)
        ensures
            self.encodes(*curve, embedding),
    ;

    /// Compresses each curve on its own, in the order given.
    fn encode_batch(&self, curves: &[Curve]) -> (embeddings: Vec<Self::Embedding>)
        ensures
            embeddings@.len() == curves@.len(),
            forall|i: int|
                0 <= i < curves@.len() ==> self.encodes(curves@[i], #[trigger] embeddings@[i]),
    {
        let mut embeddings: Vec<Self::Embedding> = Vec::new();
        let mut i: usize = 0;
        while i < curves.len()
            invariant
                i <= curves@.len(),
                embeddings@.len() == i,
                forall|j: int| 0 <= j < i ==> self.encodes(curves@[j], #[trigger] embeddings@[j]),
            decreases curves@.len() - i,
        {
            let embedding = self.encode(&curves[i]);
            embeddings.push(embedding);
            i += 1;
        }
        embeddings
    }
}

/// Turns a compressed form back into curves.
pub trait CurveDecoder {
    /// The compressed form of one curve.
    type Embedding;

    /// Whether `outcome` is what this decoder may give for `embedding`. A
    /// decoder that states nothing accepts every pair.
    open spec fn decodes(
        &self,
        embedding: Self::Embedding,
        outcome: Result<Vec<Curve>, CodecError>,
    ) -> bool {
        true
    }

    /// Rebuilds the curves of one compressed form, or says why it cannot.
    fn decode(&self, embedding: &Self::Embedding) -> (outcome: Result<Vec<Curve>, CodecError>)
        ensures
            self.decodes(*embedding, outcome),
    ;

    /// Decodes each compressed form on its own, in the order given. The first
    /// one that cannot be decoded ends the batch with its error.
    fn decode_batch(&self, embeddings: &[Self::Embedding]) -> (outcome: Result<
        Vec<Vec<Curve>>,
        CodecError,
    >)
        ensures
            match outcome {
                Ok(decoded) => {
                    &&& decoded@.len() == embeddings@.len()
                    &&& forall|i: int|
                        0 <= i < embeddings@.len() ==> self.decodes(
                            embeddings@[i],
                            Ok(#[trigger] decoded@[i]),
                        )
                },
                Err(e) => exists|i: int|
                    0 <= i < embeddings@.len() && self.decodes(
                        #[trigger] embeddings@[i],
                        Err(e),
                    ),
            },
    {
        let mut decoded: Vec<Vec<Curve>> = Vec::new();
        let mut i: usize = 0;
        while i < embeddings.len()
            invariant
                i <= embeddings@.len(),
                decoded@.len() == i,
                forall|j: int|
                    0 <= j < i ==> self.decodes(embeddings@[j], Ok(#[trigger] decoded@[j])),
            decreases embeddings@.len() - i,
        {
            match self.decode(&embeddings[i]) {
                Ok(curves) => {
                    decoded.push(curves);
                },
                Err(e) => {
                    return Err(e);
                },
            }
            i += 1;
        }
        Ok(decoded)
    }
}

/// The line segments that join each of `points` to the next.
pub open spec fn polyline_of(points: Seq<Point2>) -> Seq<Curve> {
    Seq::new(
        if points.len() == 0 {
            0
        } else {
            (points.len() - 1) as nat
        },
        |i: int| Curve::Line { start: points[i], end: points[i + 1] },
    )
}

/// A polyline starts at its first point, ends at its last, and each of its
/// segments starts where the one before it ends.
pub proof fn lemma_polyline_connected(points: Seq<Point2>)
    requires
        points.len() >= 2,
    ensures
        polyline_of(points).len() == points.len() - 1,
        polyline_of(points).first().start_point() == points.first(),
        polyline_of(points).last().end_point() == points.last(),
        forall|i: int|
            0 <= i < polyline_of(points).len() - 1 ==> (#[trigger] polyline_of(
                points,
            )[i]).end_point() == polyline_of(points)[i + 1].start_point(),
{
}

/// Where reconstruction is exact, decoding draws the polyline through the
/// samples that were encoded: regrouping undoes flattening before the points
/// are joined.
pub proof fn lemma_polyline_of_flattened(sampled: Seq<Point2>)
    ensures
        polyline_of(unflattened(flattened(sampled))) == polyline_of(sampled),
{
    lemma_unflatten_flatten(sampled);
}

/// Joins each point to the next by a straight line. Fewer than two points
/// give no segment.
pub fn polyline(points: &Vec<Point2>) -> (segments: Vec<Curve>)
    ensures
        segments@ == polyline_of(points@),
{
    let mut segments: Vec<Curve> = Vec::new();
    if points.len() < 2 {
        return segments;
    }
    let count: usize = points.len() - 1;
    let mut i: usize = 0;
    while i < count
        invariant
            count == points@.len() - 1,
            i <= count,
            segments@.len() == i,
            forall|j: int| 0 <= j < i ==> segments@[j] == polyline_of(points@)[j],
        decreases count - i,
    {
        segments.push(Curve::Line { start: points[i], end: points[i + 1] });
        i += 1;
    }
    segments
}

/// The columns of a matrix that is stored column by column.
pub open spec fn columns_of(stored: Seq<Vec<Scalar>>) -> Seq<Seq<Scalar>> {
    Seq::new(stored.len(), |j: int| stored[j]@)
}

/// Whether `columns` has the shape of a basis for curves sampled at
/// `num_points` points: at most `2 * num_points` columns, each with
/// `2 * num_points` entries, and at least two sample points.
pub open spec fn is_basis_shape(columns: Seq<Seq<Scalar>>, num_points: nat) -> bool {
    &&& num_points >= MIN_SAMPLE_POINTS
    &&& columns.len() <= 2 * num_points
    &&& forall|j: int| 0 <= j < columns.len() ==> (#[trigger] columns[j]).len() == 2 * num_points
}

/// Why a corpus of sampled curves cannot be stacked into a matrix, if
/// anything: it is empty, the sample count is too small, or some curve was
/// not sampled at `num_points` points. The first reason that applies is the
/// one reported.
pub open spec fn stacking_error(sampled: Seq<Vec<Point2>>, num_points: usize) -> Option<
    CodecError,
> {
    if sampled.len() == 0 {
        Some(CodecError::EmptyCorpus)
    } else if num_points < MIN_SAMPLE_POINTS {
        Some(CodecError::InvalidParameter)
    } else if exists|i: int| 0 <= i < sampled.len() && (#[trigger] sampled[i])@.len() != num_points {
        Some(CodecError::DimensionMismatch)
    } else {
        None
    }
}

/// Whether `matrix` holds, row by row and in order, the flattened curves of
/// `sampled`.
pub open spec fn is_curve_matrix(matrix: Seq<Vec<Scalar>>, sampled: Seq<Vec<Point2>>) -> bool {
    &&& matrix.len() == sampled.len()
    &&& forall|i: int|
        0 <= i < sampled.len() ==> (#[trigger] matrix[i])@ == flattened(sampled[i]@)
}

/// Why a decomposition cannot be turned into an encoder, if anything. The
/// first reason that applies is the one reported:
/// it has no left singular vector, which is what an empty corpus gives;
/// the sample count is too small;
/// its parts do not have the shape of a decomposition of a matrix with
/// `2 * num_points` rows;
/// or a fixed rank asks for more directions than there are.
pub open spec fn training_error(
    left_vectors: Seq<Vec<Scalar>>,
    singular_values: Seq<Scalar>,
    num_points: usize,
    selection: RankSelection,
) -> Option<CodecError> {
    if left_vectors.len() == 0 {
        Some(CodecError::EmptyCorpus)
    } else if num_points < MIN_SAMPLE_POINTS {
        Some(CodecError::InvalidParameter)
    } else if singular_values.len() != left_vectors.len() || !is_basis_shape(
        columns_of(left_vectors),
        num_points as nat,
    ) {
        Some(CodecError::DimensionMismatch)
    } else if selection matches RankSelection::Fixed(k) && k > left_vectors.len() {
        Some(CodecError::InvalidParameter)
    } else {
        None
    }
}

/// A codec whose basis is made of leading left singular vectors of a training
/// matrix. Once trained it never changes.
#[derive(Debug)]
pub struct SVDEncoder {
    basis: Vec<Vec<Scalar>>,
    num_points: usize,
}

impl SVDEncoder {
    #[verifier::type_invariant]
    spec fn well_formed(&self) -> bool {
        is_basis_shape(columns_of(self.basis@), self.num_points as nat)
    }

    /// The basis, column by column, most significant direction first.
    pub closed spec fn columns(&self) -> Seq<Seq<Scalar>> {
        columns_of(self.basis@)
    }

    /// The number of points at which every curve is sampled.
    pub closed spec fn sample_points(&self) -> nat {
        self.num_points as nat
    }

    /// The number of directions that the basis keeps.
    pub open spec fn rank(&self) -> nat {
        self.columns().len()
    }

    /// Stacks a corpus of sampled curves into the matrix that is decomposed in
    /// training. Row `i` is curve `i` flattened, so the matrix has one row per
    /// curve and `2 * num_points` columns.
    pub fn create_curve_matrix(sampled: &Vec<Vec<Point2>>, num_points: usize) -> (r: Result<
        Vec<Vec<Scalar>>,
        CodecError,
    >)
        ensures
            match r {
                Ok(matrix) => {
                    &&& stacking_error(sampled@, num_points) is None
                    &&& is_curve_matrix(matrix@, sampled@)
                    &&& forall|i: int|
                        0 <= i < matrix@.len() ==> (#[trigger] matrix@[i])@.len() == 2 * num_points
                },
                Err(e) => stacking_error(sampled@, num_points) == Some(e),
            },
    {
        if sampled.len() == 0 {
            return Err(CodecError::EmptyCorpus);
        }
        if num_points < MIN_SAMPLE_POINTS {
            return Err(CodecError::InvalidParameter);
        }
        let mut matrix: Vec<Vec<Scalar>> = Vec::new();
        let mut i: usize = 0;
        while i < sampled.len()
            invariant
                i <= sampled@.len(),
                sampled@.len() > 0,
                num_points >= MIN_SAMPLE_POINTS,
                matrix@.len() == i,
                forall|j: int| 0 <= j < i ==> (#[trigger] sampled@[j])@.len() == num_points,
                forall|j: int| 0 <= j < i ==> (#[trigger] matrix@[j])@ == flattened(sampled@[j]@),
            decreases sampled@.len() - i,
        {
            if sampled[i].len() != num_points {
                return Err(CodecError::DimensionMismatch);
            }
            matrix.push(flatten(&sampled[i]));
            i += 1;
        }
        Ok(matrix)
    }

    /// Builds the encoder from the decomposition of a training matrix.
    ///
    /// `left_vectors` holds the left singular vectors of the transposed
    /// training matrix, one vector per entry, and `singular_values` their
    /// singular values in the same order, largest first. The basis is made of
    /// the first `k` vectors, where `k` is the rank that `selection` fixes.
    pub fn train(
        left_vectors: Vec<Vec<Scalar>>,
        singular_values: &Vec<Scalar>,
        num_points: usize,
        selection: RankSelection,
    ) -> (r: Result<SVDEncoder, CodecError>)
        ensures
            match r {
                Ok(encoder) => {
                    &&& training_error(left_vectors@, singular_values@, num_points, selection)
                        is None
                    &&& encoder.sample_points() == num_points
                    &&& is_selected_rank(selection, singular_values@, encoder.rank() as int)
                    &&& encoder.columns() == columns_of(left_vectors@).subrange(
                        0,
                        encoder.rank() as int,
                    )
                    &&& is_basis_shape(encoder.columns(), encoder.sample_points())
                },
                Err(e) => training_error(left_vectors@, singular_values@, num_points, selection)
                    == Some(e),
            },
    {
        if left_vectors.len() == 0 {
            return Err(CodecError::EmptyCorpus);
        }
        if num_points < MIN_SAMPLE_POINTS {
            return Err(CodecError::InvalidParameter);
        }
        if singular_values.len() != left_vectors.len() || !has_basis_shape(
            &left_vectors,
            num_points,
        ) {
            return Err(CodecError::DimensionMismatch);
        }
        let k: usize = match selection {
            RankSelection::Fixed(k) => {
                if k > left_vectors.len() {
                    return Err(CodecError::InvalidParameter);
                }
                k
            },
            RankSelection::Adaptive(cutoff) => leading_run(singular_values, cutoff),
        };
        let mut basis = left_vectors;
        basis.truncate(k);
        assert(columns_of(basis@) =~= columns_of(left_vectors@).subrange(0, k as int));
        Ok(SVDEncoder { basis, num_points })
    }

    /// The basis, stored column by column.
    pub fn get_basis(&self) -> (basis: &Vec<Vec<Scalar>>)
        ensures
            columns_of(basis@) == self.columns(),
            is_basis_shape(self.columns(), self.sample_points()),
    {
        proof {
            use_type_invariant(self);
        }
        &self.basis
    }

    /// The number of directions that the basis keeps.
    pub fn num_basis_vectors(&self) -> (k: usize)
        ensures
            k == self.rank(),
            k <= 2 * self.sample_points(),
    {
        proof {
            use_type_invariant(self);
        }
        self.basis.len()
    }

    /// The number of points at which every curve is sampled.
    pub fn num_sample_points(&self) -> (n: usize)
        ensures
            n == self.sample_points(),
            n >= MIN_SAMPLE_POINTS,
    {
        proof {
            use_type_invariant(self);
        }
        self.num_points
    }

    /// The vector that is projected onto the basis to encode a curve: the
    /// curve's samples, flattened. The curve must have been sampled at this
    /// encoder's sample count.
    pub fn flatten_sampled(&self, sampled: &Vec<Point2>) -> (r: Result<Vec<Scalar>, CodecError>)
        ensures
            sampled@.len() == self.sample_points() ==> r is Ok && r->Ok_0@ == flattened(
                sampled@,
            ) && r->Ok_0@.len() == 2 * self.sample_points(),
            sampled@.len() != self.sample_points() ==> r == Err::<Vec<Scalar>, CodecError>(
                CodecError::DimensionMismatch,
            ),
    {
        if sampled.len() != self.num_points {
            return Err(CodecError::DimensionMismatch);
        }
        Ok(flatten(sampled))
    }

    /// Accepts an embedding that has one coefficient for each direction of the
    /// basis, and refuses any other.
    pub fn check_embedding(&self, embedding: &Vec<Scalar>) -> (r: Result<(), CodecError>)
        ensures
            embedding@.len() == self.rank() ==> r == Ok::<(), CodecError>(()),
            embedding@.len() != self.rank() ==> r == Err::<(), CodecError>(
                CodecError::DimensionMismatch,
            ),
    {
        if embedding.len() != self.basis.len() {
            return Err(CodecError::DimensionMismatch);
        }
        Ok(())
    }

    /// Renders a reconstructed flattened vector as curves: its coordinates are
    /// regrouped into points, and each point is joined to the next by a
    /// straight line, whatever curve was encoded. A vector that does
    /// not hold two coordinates for each sample point is refused.
    pub fn decode_to_curve(&self, reconstructed: &Vec<Scalar>) -> (r: Result<
        Vec<Curve>,
        CodecError,
    >)
        ensures
            reconstructed@.len() == 2 * self.sample_points() ==> r is Ok && r->Ok_0@
                == polyline_of(unflattened(reconstructed@)) && r->Ok_0@.len()
                == self.sample_points() - 1,
            reconstructed@.len() != 2 * self.sample_points() ==> r == Err::<
                Vec<Curve>,
                CodecError,
            >(CodecError::DimensionMismatch),
    {
        proof {
            use_type_invariant(self);
        }
        let len: usize = reconstructed.len();
        if len % 2 != 0 || len / 2 != self.num_points {
            return Err(CodecError::DimensionMismatch);
        }
        let points = unflatten(reconstructed);
        Ok(polyline(&points))
    }

    /// The encoder that keeps only the first `k` directions of this one. It
    /// refuses a `k` above this encoder's rank.
    pub fn truncated(&self, k: usize) -> (r: Result<SVDEncoder, CodecError>)
        ensures
            k <= self.rank() ==> r is Ok && r->Ok_0.columns() == self.columns().subrange(
                0,
                k as int,
            ) && r->Ok_0.sample_points() == self.sample_points(),
            k > self.rank() ==> r == Err::<SVDEncoder, CodecError>(CodecError::InvalidParameter),
    {
        proof {
            use_type_invariant(self);
        }
        if k > self.basis.len() {
            return Err(CodecError::InvalidParameter);
        }
        let basis = leading_columns(&self.basis, k);
        Ok(SVDEncoder { basis, num_points: self.num_points })
    }
}

/// Truncations nest: the directions kept at a rank are the first directions
/// kept at any higher rank, so a higher rank only adds directions.
pub proof fn lemma_truncations_nest(columns: Seq<Seq<Scalar>>, j: int, k: int)
    requires
        0 <= j <= k <= columns.len(),
    ensures
        columns.subrange(0, k).subrange(0, j) == columns.subrange(0, j),
{
}

/// Copies the first `k` columns of a stored matrix.
pub(crate) fn leading_columns(stored: &Vec<Vec<Scalar>>, k: usize) -> (copy: Vec<Vec<Scalar>>)
    requires
        k <= stored@.len(),
    ensures
        columns_of(copy@) == columns_of(stored@).subrange(0, k as int),
{
    let mut copy: Vec<Vec<Scalar>> = Vec::new();
    let mut j: usize = 0;
    while j < k
        invariant
            j <= k <= stored@.len(),
            copy@.len() == j,
            forall|i: int| 0 <= i < j ==> (#[trigger] copy@[i])@ == stored@[i]@,
        decreases k - j,
    {
        copy.push(stored[j].clone());
        j += 1;
    }
    copy
}

/// Decides whether a stored matrix has the shape of a basis.
pub(crate) fn has_basis_shape(stored: &Vec<Vec<Scalar>>, num_points: usize) -> (r: bool)
    ensures
        r == is_basis_shape(columns_of(stored@), num_points as nat),
{
    if num_points < MIN_SAMPLE_POINTS {
        return false;
    }
    if stored.len() / 2 > num_points || (stored.len() / 2 == num_points && stored.len() % 2 == 1) {
        return false;
    }
    let mut j: usize = 0;
    while j < stored.len()
        invariant
            j <= stored@.len(),
            forall|i: int|
                0 <= i < j ==> (#[trigger] columns_of(stored@)[i]).len() == 2 * num_points,
        decreases stored@.len() - j,
    {
        let len: usize = stored[j].len();
        if len % 2 != 0 || len / 2 != num_points {
            assert(columns_of(stored@)[j as int].len() != 2 * num_points);
            return false;
        }
        j += 1;
    }
    true
}

} // verus!
