//! The table that relates the rank of a truncated basis to the error of
//! reconstructing a corpus with it.

use vstd::prelude::*;
use crate::encoding::SVDEncoder;
use crate::error::CodecError;
use crate::scalar::Scalar;

verus! {

/// One line of the table: a rank, the number of parameters that a rank of
/// this size spends on a curve, and the mean reconstruction error measured at
/// this rank.
#[derive(Clone, Copy, Debug, PartialEq, Eq, Structural)]
pub struct EvaluationRow {
    pub rank: usize,
    pub param_count: usize,
    pub error: Scalar,
}

/// The table for errors measured at the ranks 1, 2, 3 and so on: line `i`
/// reports rank `i + 1`, twice as many parameters, and the error at place `i`.
pub open spec fn evaluation_rows(errors: Seq<Scalar>) -> Seq<EvaluationRow> {
    Seq::new(
        errors.len(),
        |i: int|
            EvaluationRow {
                rank: (i + 1) as usize,
                param_count: (2 * (i + 1)) as usize,
                error: errors[i],
            },
    )
}

impl SVDEncoder {
    /// Lays out the errors measured at each truncation rank of this encoder,
    /// from rank 1 up to its full rank, as a table. There must be exactly one
    /// error for each rank.
    pub fn evaluation_table(&self, errors: &Vec<Scalar>) -> (r: Result<
        Vec<EvaluationRow>,
        CodecError,
    >)
        requires
            2 * self.rank() <= usize::MAX,
        ensures
            errors@.len() == self.rank() ==> r is Ok && r->Ok_0@ == evaluation_rows(errors@),
            errors@.len() != self.rank() ==> r == Err::<Vec<EvaluationRow>, CodecError>(
                CodecError::DimensionMismatch,
            ),
    {
        if errors.len() != self.num_basis_vectors() {
            return Err(CodecError::DimensionMismatch);
        }
        let mut rows: Vec<EvaluationRow> = Vec::new();
        let mut i: usize = 0;
        while i < errors.len()
            invariant
                i <= errors@.len(),
                2 * errors@.len() <= usize::MAX,
                rows@.len() == i,
                forall|j: int| 0 <= j < i ==> rows@[j] == evaluation_rows(errors@)[j],
            decreases errors@.len() - i,
        {
            let rank: usize = i + 1;
            rows.push(EvaluationRow { rank, param_count: 2 * rank, error: errors[i] });
            i += 1;
        }
        Ok(rows)
    }
}

} // verus!
