//! Choosing a texture unit for a texture uniform and synchronizing the
//! session to it.
//!
//! The resolver prefers a unit that already holds the requested texture —
//! either with the right sampler, or one no uniform of this pass has claimed
//! yet. Failing that it appends a fresh unit while the hardware has one, and
//! as a last resort takes the lowest unit not yet claimed this pass. The
//! chosen unit is claimed for the pass, the uniform location is programmed
//! with its index, and the unit's bindings are changed only where they differ
//! from what is required.

use vstd::prelude::*;
use crate::bitsfield::{Bitsfield, first_free, lemma_first_free};
use crate::commands::GlCommand;
use crate::errors::FatalError;
use crate::sampler_cache::{SamplerCache, spec_lookup};
use crate::session::{Session, TextureUnit, entry_at};
use crate::values::{RawUniformValue, SamplerBehavior, TextureTarget};

verus! {

/// Whether `entry`'s unit can serve a request for `texture` with `sampler`:
/// it already holds the texture, and either also the sampler, or no uniform
/// of this pass has claimed it yet (`used`).
pub open spec fn eligible(entry: TextureUnit, used: bool, texture: u32, sampler: u32) -> bool {
    entry.texture == texture && (entry.sampler == sampler || !used)
}

/// The first index at or after `i` whose unit can serve the request.
pub open spec fn scan_from(
    units: Seq<TextureUnit>,
    points: Seq<bool>,
    texture: u32,
    sampler: u32,
    i: int,
) -> Option<int>
    decreases units.len() - i,
{
    if i < 0 || i >= units.len() {
        None
    } else if eligible(units[i], points[i], texture, sampler) {
        Some(i)
    } else {
        scan_from(units, points, texture, sampler, i + 1)
    }
}

/// A scan hit is the first eligible index at or after `i`; a miss means no
/// index from `i` on is eligible.
pub proof fn lemma_scan_from(
    units: Seq<TextureUnit>,
    points: Seq<bool>,
    texture: u32,
    sampler: u32,
    i: int,
)
    requires
        i >= 0,
    ensures
        match scan_from(units, points, texture, sampler, i) {
            Some(u) => i <= u < units.len() && eligible(units[u], points[u], texture, sampler)
                && forall|j: int| i <= j < u ==> !eligible(units[j], points[j], texture, sampler),
            None => forall|j: int|
                i <= j < units.len() ==> !eligible(units[j], points[j], texture, sampler),
        },
    decreases units.len() - i,
{
    if i < units.len() && !eligible(units[i], points[i], texture, sampler) {
        lemma_scan_from(units, points, texture, sampler, i + 1);
    }
}

/// The unit the resolver picks for `texture` with `sampler`, or `None` when
/// every unit is claimed by this pass for something else: the first eligible
/// unit, else a fresh unit while the table is below the hardware limit, else
/// the lowest unit not yet claimed this pass.
pub open spec fn chosen_unit(
    units: Seq<TextureUnit>,
    points: Seq<bool>,
    texture: u32,
    sampler: u32,
    max: int,
) -> Option<int> {
    match scan_from(units, points, texture, sampler, 0) {
        Some(u) => Some(u),
        None => if units.len() < max {
            Some(units.len() as int)
        } else {
            first_free(points)
        },
    }
}

/// A chosen unit lies within the table or directly after it, and always
/// below the hardware limit.
pub proof fn lemma_chosen_unit_in_range(
    units: Seq<TextureUnit>,
    points: Seq<bool>,
    texture: u32,
    sampler: u32,
    max: int,
)
    requires
        units.len() <= max,
        points.len() == max,
    ensures
        match chosen_unit(units, points, texture, sampler, max) {
            Some(u) => 0 <= u <= units.len() && u < max,
            None => true,
        },
{
    lemma_scan_from(units, points, texture, sampler, 0);
    lemma_first_free(points);
}

/// The table after the chosen unit is rebound: its entry replaced when the
/// unit existed, or one fresh entry appended when the unit is the next index.
pub open spec fn table_after(
    units: Seq<TextureUnit>,
    unit: int,
    texture: u32,
    sampler: u32,
) -> Seq<TextureUnit> {
    if unit < units.len() {
        units.update(unit, TextureUnit { texture, sampler })
    } else {
        units.push(TextureUnit { texture, sampler })
    }
}

/// The sampler handle a request resolves to: `0` ("no sampler") when no
/// settings were supplied, else the cached handle, or the handle the cache
/// will allocate on this first use.
pub open spec fn resolved_sampler(
    cache: Seq<(SamplerBehavior, u32)>,
    sampler: Option<SamplerBehavior>,
) -> u32 {
    match sampler {
        None => 0u32,
        Some(b) => match spec_lookup(cache, b) {
            Some(h) => h,
            None => (cache.len() + 1) as u32,
        },
    }
}

/// The cache after the request's sampler settings are resolved: unchanged on
/// a hit or with no settings, extended by the fresh handle on a miss.
pub open spec fn cache_after(
    cache: Seq<(SamplerBehavior, u32)>,
    sampler: Option<SamplerBehavior>,
) -> Seq<(SamplerBehavior, u32)> {
    match sampler {
        None => cache,
        Some(b) => match spec_lookup(cache, b) {
            Some(_) => cache,
            None => cache.push((b, (cache.len() + 1) as u32)),
        },
    }
}

/// The commands resolving the sampler settings emits: one creation command on
/// a cache miss, nothing otherwise.
pub open spec fn sampler_cmds(
    cache: Seq<(SamplerBehavior, u32)>,
    sampler: Option<SamplerBehavior>,
) -> Seq<GlCommand> {
    match sampler {
        None => Seq::<GlCommand>::empty(),
        Some(b) => match spec_lookup(cache, b) {
            Some(_) => Seq::<GlCommand>::empty(),
            None => seq![GlCommand::CreateSampler((cache.len() + 1) as u32, b)],
        },
    }
}

/// The commands that synchronize the chosen unit to the requested texture
/// and sampler: nothing when the unit already holds both, else an activation
/// when another unit is active, and a bind for whichever of texture and
/// sampler differs.
pub open spec fn sync_cmds(
    pre: TextureUnit,
    active: u16,
    unit: u16,
    texture: u32,
    sampler: u32,
    target: TextureTarget,
) -> Seq<GlCommand> {
    if pre.texture == texture && pre.sampler == sampler {
        Seq::<GlCommand>::empty()
    } else {
        (if active != unit {
            seq![GlCommand::ActiveTexture(unit)]
        } else {
            Seq::<GlCommand>::empty()
        }) + (if pre.texture != texture {
            seq![GlCommand::BindTexture(target, texture)]
        } else {
            Seq::<GlCommand>::empty()
        }) + (if pre.sampler != sampler {
            seq![GlCommand::BindSampler(unit, sampler)]
        } else {
            Seq::<GlCommand>::empty()
        })
    }
}

/// The session's capability fields never change.
pub open spec fn caps_unchanged(s0: Session, s1: Session) -> bool {
    &&& s1.max_texture_units == s0.max_texture_units
    &&& s1.max_uniform_buffer_bindings == s0.max_uniform_buffer_bindings
    &&& s1.max_shared_storage_buffer_bindings == s0.max_shared_storage_buffer_bindings
    &&& s1.sampler_objects_supported == s0.sampler_objects_supported
}

/// What a successful resolution does: the chosen unit is the one the scan
/// order picks, it is claimed for the pass, the table holds the requested
/// texture and sampler there, the uniform location is programmed with the
/// unit index, and exactly the non-redundant synchronization commands are
/// emitted.
pub open spec fn resolve_ok_post(
    s0: Session,
    s1: Session,
    cache0: Seq<(SamplerBehavior, u32)>,
    cache1: Seq<(SamplerBehavior, u32)>,
    pts0: Seq<bool>,
    pts1: Seq<bool>,
    out0: Seq<GlCommand>,
    out1: Seq<GlCommand>,
    texture: u32,
    sampler: Option<SamplerBehavior>,
    location: i32,
    target: TextureTarget,
    unit: u16,
) -> bool {
    let s = resolved_sampler(cache0, sampler);
    let pre = entry_at(s0.texture_units@, unit as int);
    &&& chosen_unit(s0.texture_units@, pts0, texture, s, s0.max_texture_units as int)
        == Some(unit as int)
    &&& pre.sampler != s ==> s0.sampler_objects_supported
    &&& sampler is Some ==> s0.sampler_objects_supported
    &&& cache1 == cache_after(cache0, sampler)
    &&& pts1 == pts0.update(unit as int, true)
    &&& s1.texture_units@ == table_after(s0.texture_units@, unit as int, texture, s)
    &&& s1.active_texture == (if pre.texture == texture && pre.sampler == s {
        s0.active_texture
    } else {
        unit
    })
    &&& caps_unchanged(s0, s1)
    &&& out1 == out0 + sampler_cmds(cache0, sampler) + seq![
        GlCommand::SetUniform(location, RawUniformValue::SignedInt(unit as i32)),
    ] + sync_cmds(pre, s0.active_texture, unit, texture, s, target)
}

/// What hitting the capacity limit does: every unit is claimed by this pass
/// for another combination, and beyond the sampler resolution nothing has
/// been touched.
pub open spec fn resolve_exhausted_post(
    s0: Session,
    s1: Session,
    cache0: Seq<(SamplerBehavior, u32)>,
    cache1: Seq<(SamplerBehavior, u32)>,
    pts0: Seq<bool>,
    pts1: Seq<bool>,
    out0: Seq<GlCommand>,
    out1: Seq<GlCommand>,
    texture: u32,
    sampler: Option<SamplerBehavior>,
) -> bool {
    let s = resolved_sampler(cache0, sampler);
    &&& chosen_unit(s0.texture_units@, pts0, texture, s, s0.max_texture_units as int) is None
    &&& sampler is Some ==> s0.sampler_objects_supported
    &&& cache1 == cache_after(cache0, sampler)
    &&& pts1 == pts0
    &&& s1 == s0
    &&& out1 == out0 + sampler_cmds(cache0, sampler)
}

/// What requesting a sampler bind without sampler-object support does. With
/// supplied sampler settings the failure is detected up front, before any
/// command is emitted or any state is touched; without settings it can still
/// arise when the chosen unit holds a stale sampler that would need
/// unbinding, and the pass then stops after claiming the unit, programming
/// the location and binding the texture, with the unit's sampler untouched.
pub open spec fn resolve_no_sampler_objects_post(
    s0: Session,
    s1: Session,
    cache0: Seq<(SamplerBehavior, u32)>,
    cache1: Seq<(SamplerBehavior, u32)>,
    pts0: Seq<bool>,
    pts1: Seq<bool>,
    out0: Seq<GlCommand>,
    out1: Seq<GlCommand>,
    texture: u32,
    sampler: Option<SamplerBehavior>,
    location: i32,
    target: TextureTarget,
) -> bool {
    let s = resolved_sampler(cache0, sampler);
    &&& !s0.sampler_objects_supported
    &&& match sampler {
        Some(_) => {
            &&& s1 == s0
            &&& cache1 == cache0
            &&& pts1 == pts0
            &&& out1 == out0
        },
        None => match chosen_unit(s0.texture_units@, pts0, texture, s, s0.max_texture_units as int) {
        Some(u) => {
            let pre = entry_at(s0.texture_units@, u);
            &&& pre.sampler != s
            &&& cache1 == cache_after(cache0, sampler)
            &&& pts1 == pts0.update(u, true)
            &&& s1.texture_units@ == table_after(s0.texture_units@, u, texture, pre.sampler)
            &&& s1.active_texture == u as u16
            &&& caps_unchanged(s0, s1)
            &&& out1 == out0 + sampler_cmds(cache0, sampler) + seq![
                GlCommand::SetUniform(location, RawUniformValue::SignedInt(u as i32)),
            ] + (if s0.active_texture != u as u16 {
                seq![GlCommand::ActiveTexture(u as u16)]
            } else {
                Seq::<GlCommand>::empty()
            }) + (if pre.texture != texture {
                seq![GlCommand::BindTexture(target, texture)]
            } else {
                Seq::<GlCommand>::empty()
            })
        },
            None => false,
        },
    }
}

/// Resolve `texture` with optional `sampler` settings to a texture unit,
/// program `location` with the unit's index, and synchronize the session's
/// state for that unit, emitting only the state changes that differ.
#[verifier::rlimit(100)]
pub fn bind_texture_uniform(
    session: &mut Session,
    samplers: &mut SamplerCache,
    texture: u32,
    sampler: Option<SamplerBehavior>,
    location: i32,
    points: &mut Bitsfield,
    target: TextureTarget,
    out: &mut Vec<GlCommand>,
) -> (r: Result<u16, FatalError>)
    requires
        old(session).wf(),
        old(samplers).wf(),
        old(samplers)@.len() + 1 < u32::MAX,
        old(points)@.len() == old(session).max_texture_units as int,
        old(points).wf(),
    ensures
        final(session).wf(),
        final(samplers).wf(),
        final(samplers)@.len() <= old(samplers)@.len() + 1,
        final(points).wf(),
        final(points)@.len() == old(points)@.len(),
        caps_unchanged(*old(session), *final(session)),
        old(session).texture_units@.len() <= final(session).texture_units@.len(),
        match r {
            Ok(unit) => resolve_ok_post(
                *old(session),
                *final(session),
                old(samplers)@,
                final(samplers)@,
                old(points)@,
                final(points)@,
                old(out)@,
                final(out)@,
                texture,
                sampler,
                location,
                target,
                unit,
            ),
            Err(e) => (e == FatalError::TextureUnitsExhausted && resolve_exhausted_post(
                *old(session),
                *final(session),
                old(samplers)@,
                final(samplers)@,
                old(points)@,
                final(points)@,
                old(out)@,
                final(out)@,
                texture,
                sampler,
            )) || (e == FatalError::SamplerObjectsNotSupported && resolve_no_sampler_objects_post(
                *old(session),
                *final(session),
                old(samplers)@,
                final(samplers)@,
                old(points)@,
                final(points)@,
                old(out)@,
                final(out)@,
                texture,
                sampler,
                location,
                target,
            )),
        },
{
    let ghost cache0 = samplers@;
    let ghost out0 = out@;
    let ghost pts0 = points@;
    let ghost units0 = session.texture_units@;

    let s: u32 = match sampler {
        Some(behavior) => {
            if !session.sampler_objects_supported {
                // Sampler settings were supplied but the session cannot bind
                // a sampler: fail before creating a doomed sampler object.
                return Err(FatalError::SamplerObjectsNotSupported);
            }
            samplers.get_or_create(behavior, out)
        },
        None => 0,
    };
    proof {
        assert(s == resolved_sampler(cache0, sampler));
        assert(samplers@ == cache_after(cache0, sampler));
        assert(out@ =~= out0 + sampler_cmds(cache0, sampler));
    }

    // Find an appropriate texture unit for this pass.
    let n = session.texture_units.len();
    let mut found: Option<u16> = None;
    let mut i: usize = 0;
    while i < n
        invariant
            n == session.texture_units@.len(),
            n <= session.max_texture_units as int,
            points@.len() == session.max_texture_units as int,
            i <= n,
            match found {
                Some(u) => scan_from(session.texture_units@, points@, texture, s, 0)
                    == Some(u as int),
                None => scan_from(session.texture_units@, points@, texture, s, 0)
                    == scan_from(session.texture_units@, points@, texture, s, i as int),
            },
        decreases n - i,
    {
        if found.is_none() {
            let entry = session.texture_units[i];
            let used = points.is_used(i as u16);
            if entry.texture == texture && (entry.sampler == s || !used) {
                found = Some(i as u16);
            }
        }
        i = i + 1;
    }

    let unit: u16 = match found {
        Some(u) => u,
        None => {
            if n < session.max_texture_units as usize {
                n as u16
            } else {
                match points.get_unused() {
                    Some(u) => u,
                    None => {
                        // Every unit is claimed by this pass: capacity
                        // overflow, which the caller must treat as fatal.
                        return Err(FatalError::TextureUnitsExhausted);
                    },
                }
            }
        },
    };
    proof {
        assert(chosen_unit(units0, pts0, texture, s, session.max_texture_units as int)
            == Some(unit as int));
        lemma_chosen_unit_in_range(units0, pts0, texture, s, session.max_texture_units as int);
    }

    points.set_used(unit);

    // Program the uniform location with the chosen unit index.
    out.push(GlCommand::SetUniform(location, RawUniformValue::SignedInt(unit as i32)));

    // A chosen unit is at most the table's length: extend by the one fresh
    // entry when it is the next index.
    if unit as usize == session.texture_units.len() {
        session.texture_units.push(TextureUnit::default());
    }
    let pre = session.texture_units[unit as usize];
    proof {
        assert(pre == entry_at(units0, unit as int));
    }

    // Synchronize the unit only where its state differs from the request.
    if pre.texture != texture || pre.sampler != s {
        if session.active_texture != unit {
            out.push(GlCommand::ActiveTexture(unit));
            session.active_texture = unit;
        }
        if pre.texture != texture {
            out.push(GlCommand::BindTexture(target, texture));
            session.texture_units.set(
                unit as usize,
                TextureUnit { texture, sampler: pre.sampler },
            );
        }
        if pre.sampler != s {
            if !session.sampler_objects_supported {
                // A sampler bind is required but the session cannot issue
                // one: API misuse, which the caller must treat as fatal.
                proof {
                    assert(out@ =~= out0 + sampler_cmds(cache0, sampler) + seq![
                        GlCommand::SetUniform(location, RawUniformValue::SignedInt(unit as i32)),
                    ] + (if old(session).active_texture != unit {
                        seq![GlCommand::ActiveTexture(unit)]
                    } else {
                        Seq::<GlCommand>::empty()
                    }) + (if pre.texture != texture {
                        seq![GlCommand::BindTexture(target, texture)]
                    } else {
                        Seq::<GlCommand>::empty()
                    }));
                    assert(session.texture_units@ =~= table_after(
                        units0,
                        unit as int,
                        texture,
                        pre.sampler,
                    ));
                }
                return Err(FatalError::SamplerObjectsNotSupported);
            }
            out.push(GlCommand::BindSampler(unit, s));
            let entry = session.texture_units[unit as usize];
            session.texture_units.set(
                unit as usize,
                TextureUnit { texture: entry.texture, sampler: s },
            );
        }
    }
    proof {
        assert(session.texture_units@ =~= table_after(units0, unit as int, texture, s));
        assert(out@ =~= out0 + sampler_cmds(cache0, sampler) + seq![
            GlCommand::SetUniform(location, RawUniformValue::SignedInt(unit as i32)),
        ] + sync_cmds(pre, old(session).active_texture, unit, texture, s, target));
    }
    Ok(unit)
}

} // verus!
