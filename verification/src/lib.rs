//! Uniform and resource binding for a stateful graphics context.
//!
//! Given a set of named shader inputs (scalars, vectors, matrices, textures,
//! uniform blocks, shared-storage blocks), the library assigns each input to a
//! live binding point (texture unit, buffer bind point) while avoiding
//! redundant state changes against the session-wide context state. The
//! library itself never talks to the graphics driver: every state-changing
//! call it decides to make is appended to a list of command values, which an
//! unverified shell replays against the real API.

pub mod bind;
pub mod bitsfield;
pub mod blocks;
pub mod commands;
pub mod errors;
pub mod laws;
pub mod reflection;
pub mod sampler_cache;
pub mod session;
pub mod texture_unit;
pub mod values;
