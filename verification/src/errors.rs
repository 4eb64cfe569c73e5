//! The error taxonomy of a binding pass.

use vstd::prelude::*;
use crate::values::UniformType;

verus! {

/// Unrecoverable conditions: each signals API misuse or an exceeded
/// hardware limit, not a data mismatch. A caller must treat any of these as
/// fatal (abort the process or equivalent), never retry the pass.
#[derive(Clone, Copy, PartialEq, Eq, Structural, Debug)]
pub enum FatalError {
    /// The reflected uniform declares an array size; uniform arrays are
    /// unsupported.
    UniformArraysNotSupported,
    /// The supplied buffer starts at a non-zero sub-range offset; only
    /// whole-buffer binds are supported.
    NonzeroBufferOffset,
    /// More distinct texture/sampler combinations were requested in one pass
    /// than there are texture units.
    TextureUnitsExhausted,
    /// More blocks were bound in one pass than there are buffer bind points.
    BufferBindPointsExhausted,
    /// A sampler bind was required but the session supports no sampler
    /// objects.
    SamplerObjectsNotSupported,
}

/// Why a binding pass stopped. Every variant aborts the pass at the value
/// that caused it; values bound earlier in the pass stay bound.
#[derive(PartialEq, Eq, Debug)]
pub enum BindError {
    /// The supplied value's type is incompatible with the reflected uniform's
    /// declared type.
    UniformTypeMismatch { name: String, expected: UniformType },
    /// The supplied buffer's memory layout fails the block's layout check.
    UniformBlockLayoutMismatch { name: String },
    /// A block-typed reflection slot received a non-block value.
    UniformValueToBlock { name: String },
    /// A plain-uniform slot received a block value.
    UniformBufferToValue { name: String },
    /// An unrecoverable condition; see [`FatalError`].
    Fatal(FatalError),
}

} // verus!
