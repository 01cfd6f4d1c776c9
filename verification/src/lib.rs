//! A linear-subspace codec for the segments of 2D glyph outlines.
//!
//! A curve segment is sampled at uniformly spaced parameters, the samples are
//! flattened into one vector, and vectors are projected onto the leading left
//! singular vectors of a training corpus. The numbers themselves are IEEE-754
//! values whose arithmetic belongs to the caller: this crate carries each one
//! by its bit pattern, and proves the shape, order and validity of everything
//! that surrounds the arithmetic.

pub mod scalar;
pub mod error;
pub mod curve;
pub mod sample;
pub mod rank;
pub mod encoding;
pub mod evaluation;
pub mod artifact;

pub use artifact::ProcessedData;
pub use curve::{Curve, CurveExtractor, Point2};
pub use encoding::{CurveDecoder, CurveEncoder, SVDEncoder};
pub use error::CodecError;
pub use evaluation::EvaluationRow;
pub use rank::RankSelection;
pub use scalar::Scalar;
