//! How many directions of a decomposition a basis keeps.

use vstd::prelude::*;
use crate::scalar::{lemma_exceeds_by_ordinal, Scalar};

verus! {

/// The bit pattern of the cutoff 1e-10, below which a singular value counts
/// as zero unless the caller chooses another cutoff.
pub const DEFAULT_CUTOFF_BITS: u32 = 0x2edb_e6ff;

/// The rule that fixes the rank of a basis.
#[derive(Clone, Copy, Debug, PartialEq, Eq, Structural)]
pub enum RankSelection {
    /// Keep exactly this many directions.
    Fixed(usize),
    /// Keep the leading directions whose singular value is above the cutoff.
    Adaptive(Scalar),
}

/// Whether the first `k` of `values` are exactly the leading run of values
/// above `cutoff`: each of them is above it, and the run cannot be extended.
pub open spec fn is_leading_run(values: Seq<Scalar>, cutoff: Scalar, k: int) -> bool {
    &&& 0 <= k <= values.len()
    &&& forall|i: int| 0 <= i < k ==> (#[trigger] values[i]).exceeds(cutoff)
    &&& k < values.len() ==> !values[k].exceeds(cutoff)
}

/// Whether `values` never increase: none of them is a NaN, and no value
/// exceeds one that stands before it.
pub open spec fn is_descending(values: Seq<Scalar>) -> bool {
    &&& forall|i: int| 0 <= i < values.len() ==> !(#[trigger] values[i]).is_nan()
    &&& forall|i: int, j: int|
        0 <= i <= j < values.len() ==> !(#[trigger] values[j]).exceeds(#[trigger] values[i])
}

/// How many of `values` are above `cutoff`, wherever they stand.
pub open spec fn count_above(values: Seq<Scalar>, cutoff: Scalar) -> nat
    decreases values.len(),
{
    if values.len() == 0 {
        0
    } else {
        count_above(values.drop_last(), cutoff) + if values.last().exceeds(cutoff) {
            1nat
        } else {
            0nat
        }
    }
}

/// Whether `k` is the rank that `selection` fixes for a decomposition with
/// the singular values `singular_values`.
pub open spec fn is_selected_rank(
    selection: RankSelection,
    singular_values: Seq<Scalar>,
    k: int,
) -> bool {
    match selection {
        RankSelection::Fixed(n) => k == n,
        RankSelection::Adaptive(cutoff) => is_leading_run(singular_values, cutoff, k),
    }
}

/// A sequence has one leading run.
pub proof fn lemma_leading_run_unique(values: Seq<Scalar>, cutoff: Scalar, k1: int, k2: int)
    requires
        is_leading_run(values, cutoff, k1),
        is_leading_run(values, cutoff, k2),
    ensures
        k1 == k2,
{
}

/// In a descending sequence the leading run holds every value above the
/// cutoff: an entry is above the cutoff exactly when it stands in the run.
pub proof fn lemma_leading_run_of_descending(values: Seq<Scalar>, cutoff: Scalar, k: int)
    requires
        is_descending(values),
        is_leading_run(values, cutoff, k),
    ensures
        forall|i: int| 0 <= i < values.len() ==> ((#[trigger] values[i]).exceeds(cutoff) <==> i < k),
{
    assert forall|i: int| 0 <= i < values.len() implies ((#[trigger] values[i]).exceeds(cutoff)
        <==> i < k) by {
        if i >= k {
            // The value at `k` is at or below the cutoff, and the value at
            // `i` is at or below the value at `k`.
            lemma_exceeds_by_ordinal(values[i], values[k]);
            lemma_exceeds_by_ordinal(values[k], cutoff);
            lemma_exceeds_by_ordinal(values[i], cutoff);
        }
    }
}

/// The leading run of a descending sequence is as long as the number of its
/// values above the cutoff: with singular values in descending order, the
/// adaptive rank is the count of singular values above the cutoff.
pub proof fn lemma_leading_run_counts_values_above(values: Seq<Scalar>, cutoff: Scalar, k: int)
    requires
        is_descending(values),
        is_leading_run(values, cutoff, k),
    ensures
        k == count_above(values, cutoff),
    decreases values.len(),
{
    if values.len() > 0 {
        // The last value is above the cutoff exactly when the run reaches it.
        lemma_leading_run_of_descending(values, cutoff, k);
        let shorter = values.drop_last();
        let run = if k == values.len() {
            k - 1
        } else {
            k
        };
        lemma_leading_run_counts_values_above(shorter, cutoff, run);
    }
}

/// Counts the leading values above `cutoff`.
pub fn leading_run(values: &Vec<Scalar>, cutoff: Scalar) -> (k: usize)
    ensures
        is_leading_run(values@, cutoff, k as int),
{
    let mut k: usize = 0;
    while k < values.len() && values[k].greater_than(cutoff)
        invariant
            k <= values@.len(),
            forall|i: int| 0 <= i < k ==> (#[trigger] values@[i]).exceeds(cutoff),
        decreases values@.len() - k,
    {
        k += 1;
    }
    k
}

} // verus!
