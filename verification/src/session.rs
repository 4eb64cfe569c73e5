//! The long-lived context state a binding pass synchronizes against.
//!
//! The texture-unit table mirrors what the driver currently has bound: it
//! persists across binding passes, grows monotonically as higher unit indices
//! are first used, and never shrinks within a session. The capability fields
//! are the queried hardware limits and feature flags; they never change.

use vstd::prelude::*;

verus! {

/// What one texture unit currently has bound: a texture handle and a sampler
/// handle. `0` means nothing is bound there.
#[derive(Clone, Copy, PartialEq, Eq, Structural, Debug)]
pub struct TextureUnit {
    pub texture: u32,
    pub sampler: u32,
}

impl Default for TextureUnit {
    /// A unit with nothing bound.
    fn default() -> (r: TextureUnit)
        ensures
            r == (TextureUnit { texture: 0u32, sampler: 0u32 }),
    {
        TextureUnit { texture: 0, sampler: 0 }
    }
}

/// The table entry at `index`, reading indices beyond the table's current
/// length as unbound units (the driver state they would be created in).
pub open spec fn entry_at(units: Seq<TextureUnit>, index: int) -> TextureUnit {
    if 0 <= index < units.len() {
        units[index]
    } else {
        TextureUnit { texture: 0u32, sampler: 0u32 }
    }
}

/// The session-wide context state and capabilities.
pub struct Session {
    /// Index = texture unit, entry = what is bound there. Mirrors driver
    /// state across passes.
    pub texture_units: Vec<TextureUnit>,
    /// The unit texture binds currently go to.
    pub active_texture: u16,
    /// Queried limit: how many combined texture units exist.
    pub max_texture_units: u16,
    /// Queried limit: how many uniform-buffer bind points exist.
    pub max_uniform_buffer_bindings: u16,
    /// Queried limit: how many shared-storage bind points exist.
    pub max_shared_storage_buffer_bindings: u16,
    /// Whether the session supports sampler objects (new-enough API version
    /// or the corresponding extension).
    pub sampler_objects_supported: bool,
}

impl Session {
    /// The table never grows past the hardware's unit count.
    pub open spec fn wf(&self) -> bool {
        self.texture_units@.len() <= self.max_texture_units as int
    }

    /// A fresh session: no unit has anything bound, unit 0 is active.
    pub fn new(
        max_texture_units: u16,
        max_uniform_buffer_bindings: u16,
        max_shared_storage_buffer_bindings: u16,
        sampler_objects_supported: bool,
    ) -> (r: Session)
        ensures
            r.wf(),
            r.texture_units@ == Seq::<TextureUnit>::empty(),
            r.active_texture == 0,
            r.max_texture_units == max_texture_units,
            r.max_uniform_buffer_bindings == max_uniform_buffer_bindings,
            r.max_shared_storage_buffer_bindings == max_shared_storage_buffer_bindings,
            r.sampler_objects_supported == sampler_objects_supported,
    {
        Session {
            texture_units: Vec::new(),
            active_texture: 0,
            max_texture_units,
            max_uniform_buffer_bindings,
            max_shared_storage_buffer_bindings,
            sampler_objects_supported,
        }
    }
}

} // verus!
