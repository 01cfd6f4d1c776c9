//! The failures that the codec reports.

use vstd::prelude::*;

verus! {

/// Why an operation of the codec was refused.
#[derive(Clone, Copy, Debug, PartialEq, Eq, Structural)]
pub enum CodecError {
    /// A curve cannot be sampled at fewer than two points, and a basis cannot
    /// keep more directions than a decomposition offers.
    InvalidParameter,
    /// There is no curve to train on.
    EmptyCorpus,
    /// A vector or a sampled curve has a length that disagrees with the
    /// sample count or with the rank of the basis in use.
    DimensionMismatch,
    /// Stored data whose parts do not fit each other.
    MalformedArtifact,
}

} // verus!
