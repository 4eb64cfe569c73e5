//! State-changing calls against the graphics API, as data.
//!
//! The library never issues a driver call itself: whenever a pass decides the
//! context must change, it appends one of these commands to the caller's
//! list. An unverified shell replays the list against the real API in order.
//! This keeps the decision logic — which call to make, and when a call is
//! redundant — inside the verified library.

use vstd::prelude::*;
use crate::values::{RawUniformValue, SamplerBehavior, TextureTarget};

verus! {

/// One state-changing call the pass decided to make, in the order decided.
#[derive(Clone, Copy, PartialEq, Eq, Debug)]
pub enum GlCommand {
    /// Program the uniform at this location with a raw value.
    SetUniform(i32, RawUniformValue),
    /// Create a sampler object for these settings and register it under this
    /// fresh handle.
    CreateSampler(u32, SamplerBehavior),
    /// Make this texture unit the active one.
    ActiveTexture(u16),
    /// Bind this texture to the active unit, through this target.
    BindTexture(TextureTarget, u32),
    /// Bind this sampler handle to this texture unit.
    BindSampler(u16, u32),
    /// Bind this buffer to this uniform-buffer bind point.
    BindUniformBuffer(u32, u16),
    /// Bind this buffer to this shared-storage bind point.
    BindSharedStorageBuffer(u32, u16),
    /// Route the program's uniform block with this binding index to this
    /// bind point.
    SetUniformBlockBinding(u32, u16),
    /// Route the program's shared-storage block with this binding index to
    /// this bind point.
    SetSharedStorageBlockBinding(u32, u16),
}

} // verus!
