//! The top-level binding pass: route every named value to its binder.
//!
//! For each caller-supplied `(name, value)` pair, in the order supplied, the
//! pass classifies the name through the program's reflection — plain uniform,
//! uniform block, shared-storage block, or unknown (a silent no-op) — type-
//! checks the value, and dispatches it. The first error aborts the rest of
//! the pass; values bound before it stay bound.

use vstd::prelude::*;
use vstd::seq_lib::*;
use crate::bitsfield::{Bitsfield, first_free};
use crate::blocks::{bind_shared_storage_block, bind_uniform_block, block_verdict};
use crate::commands::GlCommand;
use crate::errors::{BindError, FatalError};
use crate::reflection::{
    ProgramReflection, UniformBlock, lemma_lookup_uniform_entry, lookup_block, lookup_uniform,
};
use crate::sampler_cache::SamplerCache;
use crate::session::{Session, TextureUnit, entry_at};
use crate::texture_unit::{
    bind_texture_uniform, cache_after, caps_unchanged, chosen_unit, resolve_exhausted_post,
    resolve_no_sampler_objects_post, resolve_ok_post, resolved_sampler, sampler_cmds, sync_cmds,
    table_after,
};
use crate::values::{
    RawUniformValue, SamplerBehavior, TextureTarget, UniformValue, raw_of, spec_usable_with,
};

verus! {

/// Why binding one named value fails, as far as that is decided by the value
/// and the reflection alone (capacity and capability failures depend on the
/// session's state and are not covered here): an array uniform, a type
/// mismatch, or a block failure. `None` for an unknown name: supplying extra
/// names is permitted and ignored.
pub open spec fn item_verdict(program: ProgramReflection, name: String, value: UniformValue)
    -> Option<BindError>
{
    match lookup_uniform(program.uniforms@, name@) {
        Some(uniform) => {
            if uniform.size is Some {
                Some(BindError::Fatal(FatalError::UniformArraysNotSupported))
            } else if !spec_usable_with(value, uniform.ty) {
                Some(BindError::UniformTypeMismatch { name, expected: uniform.ty })
            } else {
                None
            }
        },
        None => match lookup_block(program.uniform_blocks@, name@) {
            Some(block) => block_verdict(name, value, block),
            None => match lookup_block(program.shared_storage_blocks@, name@) {
                Some(block) => block_verdict(name, value, block),
                None => None,
            },
        },
    }
}

/// The errors that depend on the session's state rather than on the value
/// itself: pool exhaustion and a missing sampler-object capability.
pub open spec fn is_state_fatal(e: BindError) -> bool {
    ||| e == BindError::Fatal(FatalError::TextureUnitsExhausted)
    ||| e == BindError::Fatal(FatalError::BufferBindPointsExhausted)
    ||| e == BindError::Fatal(FatalError::SamplerObjectsNotSupported)
}

/// The fence a successfully bound block hands to the caller, if any.
pub open spec fn block_fence(value: UniformValue) -> Seq<u64> {
    match value {
        UniformValue::Block(buffer) => match buffer.fence {
            Some(f) => seq![f],
            None => Seq::<u64>::empty(),
        },
        _ => Seq::<u64>::empty(),
    }
}

/// The fences binding one named value accumulates: only a block bind can
/// produce one.
pub open spec fn item_fence(program: ProgramReflection, name: String, value: UniformValue)
    -> Seq<u64>
{
    match lookup_uniform(program.uniforms@, name@) {
        Some(_) => Seq::<u64>::empty(),
        None => match lookup_block(program.uniform_blocks@, name@) {
            Some(_) => block_fence(value),
            None => match lookup_block(program.shared_storage_blocks@, name@) {
                Some(_) => block_fence(value),
                None => Seq::<u64>::empty(),
            },
        },
    }
}

/// The fences the first `i` values of a pass accumulate, in pass order.
pub open spec fn pass_fences_to(
    program: ProgramReflection,
    values: Seq<(String, UniformValue)>,
    i: int,
) -> Seq<u64>
    decreases i,
{
    if i <= 0 {
        Seq::<u64>::empty()
    } else {
        pass_fences_to(program, values, i - 1) + item_fence(
            program,
            values[i - 1].0,
            values[i - 1].1,
        )
    }
}

/// Whether `out` programs the named plain uniform: with the raw form of its
/// supplied value, or, for a texture value, with some texture unit index.
/// Holds vacuously for names that are no plain uniform and for block values,
/// which never reach a plain location.
pub open spec fn value_programmed(
    program: ProgramReflection,
    name: String,
    value: UniformValue,
    out: Seq<GlCommand>,
) -> bool {
    match lookup_uniform(program.uniforms@, name@) {
        Some(uniform) => match raw_of(value) {
            Some(raw) => out.contains(GlCommand::SetUniform(uniform.location, raw)),
            None => match value {
                UniformValue::Texture(_, _, _) => exists|unit: u16|
                    #[trigger] out.contains(
                        GlCommand::SetUniform(
                            uniform.location,
                            RawUniformValue::SignedInt(unit as i32),
                        ),
                    ),
                _ => true,
            },
        },
        None => true,
    }
}

/// Everything a binding pass reads and writes, as mathematical values: the
/// session's unit table and active unit, the sampler cache, the pass's three
/// reservation pools, and its outputs. The step functions below say what one
/// value does to this state, so the dispatcher's contract can pin the whole
/// pass down as a fold over the supplied values.
pub struct PassState {
    pub units: Seq<TextureUnit>,
    pub active: u16,
    pub cache: Seq<(SamplerBehavior, u32)>,
    pub texture_points: Seq<bool>,
    pub uniform_buffer_points: Seq<bool>,
    pub shared_storage_points: Seq<bool>,
    pub out: Seq<GlCommand>,
    pub fences: Seq<u64>,
}

/// The state a pass starts from: the session and cache as they stand, three
/// fresh reservation pools sized by the session's limits, and the caller's
/// command and fence lists.
pub open spec fn initial_pass_state(
    session: Session,
    cache: Seq<(SamplerBehavior, u32)>,
    out: Seq<GlCommand>,
    fences: Seq<u64>,
) -> PassState {
    PassState {
        units: session.texture_units@,
        active: session.active_texture,
        cache: cache,
        texture_points: Seq::new(session.max_texture_units as nat, |i: int| false),
        uniform_buffer_points: Seq::new(session.max_uniform_buffer_bindings as nat, |i: int| false),
        shared_storage_points: Seq::new(
            session.max_shared_storage_buffer_bindings as nat,
            |i: int| false,
        ),
        out: out,
        fences: fences,
    }
}

/// What resolving one texture uniform does to the pass state: the advanced
/// state, or the fatal error the pass stops with and the state it leaves
/// behind. Supplied sampler settings without sampler-object support fail up
/// front, touching nothing; exhaustion fails after the sampler resolution
/// alone; a stale sampler that would need unbinding without support fails
/// after the unit is claimed, programmed and its texture bound.
pub open spec fn texture_step(
    max_texture_units: int,
    sampler_objects_supported: bool,
    st: PassState,
    texture: u32,
    sampler: Option<SamplerBehavior>,
    location: i32,
    target: TextureTarget,
) -> Result<PassState, (PassState, BindError)> {
    if sampler is Some && !sampler_objects_supported {
        Err((st, BindError::Fatal(FatalError::SamplerObjectsNotSupported)))
    } else {
        let s = resolved_sampler(st.cache, sampler);
        match chosen_unit(st.units, st.texture_points, texture, s, max_texture_units) {
            Some(unit) => {
                let pre = entry_at(st.units, unit);
                if pre.sampler != s && !sampler_objects_supported {
                    Err((
                        PassState {
                            units: table_after(st.units, unit, texture, pre.sampler),
                            active: unit as u16,
                            cache: cache_after(st.cache, sampler),
                            texture_points: st.texture_points.update(unit, true),
                            out: st.out + sampler_cmds(st.cache, sampler) + seq![
                                GlCommand::SetUniform(
                                    location,
                                    RawUniformValue::SignedInt(unit as i32),
                                ),
                            ] + (if st.active != unit as u16 {
                                seq![GlCommand::ActiveTexture(unit as u16)]
                            } else {
                                Seq::<GlCommand>::empty()
                            }) + (if pre.texture != texture {
                                seq![GlCommand::BindTexture(target, texture)]
                            } else {
                                Seq::<GlCommand>::empty()
                            }),
                            ..st
                        },
                        BindError::Fatal(FatalError::SamplerObjectsNotSupported),
                    ))
                } else {
                    Ok(PassState {
                        units: table_after(st.units, unit, texture, s),
                        active: if pre.texture == texture && pre.sampler == s {
                            st.active
                        } else {
                            unit as u16
                        },
                        cache: cache_after(st.cache, sampler),
                        texture_points: st.texture_points.update(unit, true),
                        out: st.out + sampler_cmds(st.cache, sampler) + seq![
                            GlCommand::SetUniform(location, RawUniformValue::SignedInt(unit as i32)),
                        ] + sync_cmds(pre, st.active, unit as u16, texture, s, target),
                        ..st
                    })
                }
            },
            None => Err((
                PassState {
                    cache: cache_after(st.cache, sampler),
                    out: st.out + sampler_cmds(st.cache, sampler),
                    ..st
                },
                BindError::Fatal(FatalError::TextureUnitsExhausted),
            )),
        }
    }
}

/// What binding one block does to the pass state: the advanced state, or the
/// exhaustion error with the state untouched. Only reached for block values
/// the verdict accepted.
pub open spec fn block_step(
    st: PassState,
    value: UniformValue,
    block: UniformBlock,
    shared_storage: bool,
) -> Result<PassState, (PassState, BindError)> {
    match value {
        UniformValue::Block(buffer) => {
            let points = if shared_storage {
                st.shared_storage_points
            } else {
                st.uniform_buffer_points
            };
            match first_free(points) {
                Some(p) => Ok(PassState {
                    uniform_buffer_points: if shared_storage {
                        st.uniform_buffer_points
                    } else {
                        points.update(p, true)
                    },
                    shared_storage_points: if shared_storage {
                        points.update(p, true)
                    } else {
                        st.shared_storage_points
                    },
                    out: st.out.push(
                        if shared_storage {
                            GlCommand::BindSharedStorageBuffer(buffer.id, p as u16)
                        } else {
                            GlCommand::BindUniformBuffer(buffer.id, p as u16)
                        },
                    ).push(
                        if shared_storage {
                            GlCommand::SetSharedStorageBlockBinding(block.binding, p as u16)
                        } else {
                            GlCommand::SetUniformBlockBinding(block.binding, p as u16)
                        },
                    ),
                    fences: st.fences + block_fence(value),
                    ..st
                }),
                None => Err((st, BindError::Fatal(FatalError::BufferBindPointsExhausted))),
            }
        },
        _ => Err((st, BindError::Fatal(FatalError::BufferBindPointsExhausted))),
    }
}

/// What binding one named value does to the pass state: the advanced state,
/// or — when it is the value the pass stops at — its error and the state it
/// leaves behind. A verdict failure touches nothing; the session-state
/// failures leave exactly what the texture and block steps say.
pub open spec fn bind_step(
    program: ProgramReflection,
    max_texture_units: int,
    sampler_objects_supported: bool,
    st: PassState,
    name: String,
    value: UniformValue,
) -> Result<PassState, (PassState, BindError)> {
    match item_verdict(program, name, value) {
        Some(e) => Err((st, e)),
        None => match lookup_uniform(program.uniforms@, name@) {
            Some(uniform) => match raw_of(value) {
                Some(raw) => Ok(
                    PassState {
                        out: st.out.push(GlCommand::SetUniform(uniform.location, raw)),
                        ..st
                    },
                ),
                None => match value {
                    UniformValue::Texture(texture, sampler, target) => texture_step(
                        max_texture_units,
                        sampler_objects_supported,
                        st,
                        texture,
                        sampler,
                        uniform.location,
                        target,
                    ),
                    // A block value never passes the type check above.
                    _ => Ok(st),
                },
            },
            None => match lookup_block(program.uniform_blocks@, name@) {
                Some(block) => block_step(st, value, block, false),
                None => match lookup_block(program.shared_storage_blocks@, name@) {
                    Some(block) => block_step(st, value, block, true),
                    None => Ok(st),
                },
            },
        },
    }
}

/// The pass state after the first `i` values, or the first failure among
/// them: the error the pass stops with and the state it leaves behind.
pub open spec fn pass_state_to(
    program: ProgramReflection,
    max_texture_units: int,
    sampler_objects_supported: bool,
    init: PassState,
    values: Seq<(String, UniformValue)>,
    i: int,
) -> Result<PassState, (PassState, BindError)>
    decreases i,
{
    if i <= 0 {
        Ok(init)
    } else {
        match pass_state_to(
            program,
            max_texture_units,
            sampler_objects_supported,
            init,
            values,
            i - 1,
        ) {
            Ok(st) => bind_step(
                program,
                max_texture_units,
                sampler_objects_supported,
                st,
                values[i - 1].0,
                values[i - 1].1,
            ),
            Err(failure) => Err(failure),
        }
    }
}

/// Once some value has failed, the fold\'s outcome never changes: later
/// values are not processed.
pub proof fn lemma_pass_error_stable(
    program: ProgramReflection,
    max_texture_units: int,
    sampler_objects_supported: bool,
    init: PassState,
    values: Seq<(String, UniformValue)>,
    i: int,
    j: int,
)
    requires
        0 <= i <= j,
        pass_state_to(program, max_texture_units, sampler_objects_supported, init, values, i)
            is Err,
    ensures
        pass_state_to(program, max_texture_units, sampler_objects_supported, init, values, j)
            == pass_state_to(program, max_texture_units, sampler_objects_supported, init, values, i),
    decreases j - i,
{
    if i < j {
        lemma_pass_error_stable(
            program,
            max_texture_units,
            sampler_objects_supported,
            init,
            values,
            i,
            j - 1,
        );
    }
}

/// Set one plain uniform at a validated location: scalars, vectors and
/// matrices are programmed directly in their raw form; a texture goes through
/// the texture-unit resolver; a block value here is the caller's logic error.
pub fn bind_uniform(
    session: &mut Session,
    samplers: &mut SamplerCache,
    value: &UniformValue,
    location: i32,
    points: &mut Bitsfield,
    name: &String,
    out: &mut Vec<GlCommand>,
) -> (r: Result<(), BindError>)
    requires
        location >= 0,
        old(session).wf(),
        old(samplers).wf(),
        old(samplers)@.len() + 1 < u32::MAX,
        old(points)@.len() == old(session).max_texture_units as int,
        old(points).wf(),
    ensures
        final(session).wf(),
        final(samplers).wf(),
        final(samplers)@.len() <= old(samplers)@.len() + 1,
        final(points).wf(),
        final(points)@.len() == old(points)@.len(),
        caps_unchanged(*old(session), *final(session)),
        old(session).texture_units@.len() <= final(session).texture_units@.len(),
        match *value {
            UniformValue::Block(_) => {
                &&& r == Err::<(), BindError>(BindError::UniformBufferToValue { name: *name })
                &&& *final(session) == *old(session)
                &&& final(samplers)@ == old(samplers)@
                &&& final(points)@ == old(points)@
                &&& final(out)@ == old(out)@
            },
            UniformValue::Texture(texture, sampler, target) => match r {
                Ok(_) => exists|unit: u16|
                    resolve_ok_post(
                        *old(session),
                        *final(session),
                        old(samplers)@,
                        final(samplers)@,
                        old(points)@,
                        final(points)@,
                        old(out)@,
                        final(out)@,
                        texture,
                        sampler,
                        location,
                        target,
                        unit,
                    ),
                Err(e) => {
                    ||| (e == BindError::Fatal(FatalError::TextureUnitsExhausted)
                        && resolve_exhausted_post(
                        *old(session),
                        *final(session),
                        old(samplers)@,
                        final(samplers)@,
                        old(points)@,
                        final(points)@,
                        old(out)@,
                        final(out)@,
                        texture,
                        sampler,
                    ))
                    ||| (e == BindError::Fatal(FatalError::SamplerObjectsNotSupported)
                        && resolve_no_sampler_objects_post(
                        *old(session),
                        *final(session),
                        old(samplers)@,
                        final(samplers)@,
                        old(points)@,
                        final(points)@,
                        old(out)@,
                        final(out)@,
                        texture,
                        sampler,
                        location,
                        target,
                    ))
                },
            },
            _ => {
                &&& r == Ok::<(), BindError>(())
                &&& final(out)@ == old(out)@.push(
                    GlCommand::SetUniform(location, raw_of(*value).unwrap()),
                )
                &&& *final(session) == *old(session)
                &&& final(samplers)@ == old(samplers)@
                &&& final(points)@ == old(points)@
            },
        },
{
    match value {
        UniformValue::Block(_) => Err(BindError::UniformBufferToValue { name: name.clone() }),
        UniformValue::SignedInt(v) => {
            out.push(GlCommand::SetUniform(location, RawUniformValue::SignedInt(*v)));
            Ok(())
        },
        UniformValue::UnsignedInt(v) => {
            out.push(GlCommand::SetUniform(location, RawUniformValue::UnsignedInt(*v)));
            Ok(())
        },
        UniformValue::Float(v) => {
            out.push(GlCommand::SetUniform(location, RawUniformValue::Float(*v)));
            Ok(())
        },
        UniformValue::Vec2(v) => {
            out.push(GlCommand::SetUniform(location, RawUniformValue::Vec2(*v)));
            Ok(())
        },
        UniformValue::Vec3(v) => {
            out.push(GlCommand::SetUniform(location, RawUniformValue::Vec3(*v)));
            Ok(())
        },
        UniformValue::Vec4(v) => {
            out.push(GlCommand::SetUniform(location, RawUniformValue::Vec4(*v)));
            Ok(())
        },
        UniformValue::Mat2(v) => {
            out.push(GlCommand::SetUniform(location, RawUniformValue::Mat2(*v)));
            Ok(())
        },
        UniformValue::Mat3(v) => {
            out.push(GlCommand::SetUniform(location, RawUniformValue::Mat3(*v)));
            Ok(())
        },
        UniformValue::Mat4(v) => {
            out.push(GlCommand::SetUniform(location, RawUniformValue::Mat4(*v)));
            Ok(())
        },
        UniformValue::Texture(texture, sampler, target) => {
            match bind_texture_uniform(
                session,
                samplers,
                *texture,
                *sampler,
                location,
                points,
                *target,
                out,
            ) {
                Ok(_) => Ok(()),
                Err(f) => Err(BindError::Fatal(f)),
            }
        },
    }
}

/// One binding pass: bind every named value the caller supplied, in the
/// caller's order, against `program`'s reflection.
///
/// The whole pass is pinned down by the fold [`pass_state_to`]: when the fold
/// succeeds the pass must succeed, with exactly the fold's session state,
/// sampler cache, commands and fences; when some value fails, the pass stops
/// there and returns exactly that value's error, every value before it bound
/// and staying bound, the failing value leaving exactly what its own step
/// says (nothing, for a rejected value). A [`BindError::Fatal`] signals API
/// misuse or an exhausted hardware limit and must abort, not be retried.
pub fn bind_uniforms(
    values: &Vec<(String, UniformValue)>,
    program: &ProgramReflection,
    session: &mut Session,
    samplers: &mut SamplerCache,
    fences: &mut Vec<u64>,
    out: &mut Vec<GlCommand>,
) -> (r: Result<(), BindError>)
    requires
        program.wf(),
        old(session).wf(),
        old(samplers).wf(),
        old(samplers)@.len() + values@.len() + 1 < u32::MAX,
    ensures
        final(session).wf(),
        final(samplers).wf(),
        caps_unchanged(*old(session), *final(session)),
        old(session).texture_units@.len() <= final(session).texture_units@.len(),
        old(samplers)@.is_prefix_of(final(samplers)@),
        old(out)@.is_prefix_of(final(out)@),
        old(fences)@.is_prefix_of(final(fences)@),
        match pass_state_to(
            *program,
            old(session).max_texture_units as int,
            old(session).sampler_objects_supported,
            initial_pass_state(*old(session), old(samplers)@, old(out)@, old(fences)@),
            values@,
            values@.len() as int,
        ) {
            Ok(st) => {
                &&& r is Ok
                &&& final(session).texture_units@ == st.units
                &&& final(session).active_texture == st.active
                &&& final(samplers)@ == st.cache
                &&& final(out)@ == st.out
                &&& final(fences)@ == st.fences
            },
            Err((st, e)) => {
                &&& r == Err::<(), BindError>(e)
                &&& final(session).texture_units@ == st.units
                &&& final(session).active_texture == st.active
                &&& final(samplers)@ == st.cache
                &&& final(out)@ == st.out
                &&& final(fences)@ == st.fences
            },
        },
        r is Ok ==> {
            &&& forall|i: int|
                0 <= i < values@.len() ==> item_verdict(
                    *program,
                    (#[trigger] values@[i]).0,
                    values@[i].1,
                ) is None
            &&& final(fences)@ == old(fences)@ + pass_fences_to(
                *program,
                values@,
                values@.len() as int,
            )
            &&& forall|i: int|
                0 <= i < values@.len() ==> value_programmed(
                    *program,
                    (#[trigger] values@[i]).0,
                    values@[i].1,
                    final(out)@,
                )
        },
        r matches Err(e) ==> exists|i: int|
            0 <= i < values@.len()
            && (item_verdict(*program, (#[trigger] values@[i]).0, values@[i].1) == Some(e)
                || (item_verdict(*program, values@[i].0, values@[i].1) is None
                    && is_state_fatal(e)))
            && (forall|j: int|
                0 <= j < i ==> item_verdict(*program, (#[trigger] values@[j]).0, values@[j].1)
                    is None),
{
    let ghost out0 = out@;
    let ghost fences0 = fences@;
    let ghost samplers0 = samplers@;
    let ghost init0 = initial_pass_state(*session, samplers@, out@, fences@);
    let ghost max0 = session.max_texture_units as int;
    let ghost supported0 = session.sampler_objects_supported;

    let mut texture_points = Bitsfield::new(session.max_texture_units);
    let mut uniform_buffer_points = Bitsfield::new(session.max_uniform_buffer_bindings);
    let mut shared_storage_points = Bitsfield::new(session.max_shared_storage_buffer_bindings);

    let n = values.len();
    let mut idx: usize = 0;
    while idx < n
        invariant
            out0 == old(out)@,
            fences0 == old(fences)@,
            samplers0 == old(samplers)@,
            init0 == initial_pass_state(*old(session), old(samplers)@, old(out)@, old(fences)@),
            max0 == old(session).max_texture_units as int,
            supported0 == old(session).sampler_objects_supported,
            match pass_state_to(*program, max0, supported0, init0, values@, idx as int) {
                Ok(st) => {
                    &&& session.texture_units@ == st.units
                    &&& session.active_texture == st.active
                    &&& samplers@ == st.cache
                    &&& texture_points@ == st.texture_points
                    &&& uniform_buffer_points@ == st.uniform_buffer_points
                    &&& shared_storage_points@ == st.shared_storage_points
                    &&& out@ == st.out
                    &&& fences@ == st.fences
                },
                Err(_) => false,
            },
            n == values@.len(),
            idx <= n,
            program.wf(),
            session.wf(),
            samplers.wf(),
            samplers@.len() <= samplers0.len() + idx,
            samplers0.len() + values@.len() + 1 < u32::MAX,
            caps_unchanged(*old(session), *session),
            texture_points@.len() == session.max_texture_units as int,
            texture_points.wf(),
            uniform_buffer_points.wf(),
            shared_storage_points.wf(),
            old(session).texture_units@.len() <= session.texture_units@.len(),
            samplers0.is_prefix_of(samplers@),
            out0.is_prefix_of(out@),
            fences0.is_prefix_of(fences@),
            fences@ == fences0 + pass_fences_to(*program, values@, idx as int),
            forall|j: int|
                0 <= j < idx ==> item_verdict(*program, (#[trigger] values@[j]).0, values@[j].1)
                    is None,
            forall|j: int|
                0 <= j < idx ==> value_programmed(
                    *program,
                    (#[trigger] values@[j]).0,
                    values@[j].1,
                    out@,
                ),
        decreases n - idx,
    {
        let ghost out_pre = out@;
        let ghost session_pre = *session;
        let ghost samplers_pre = samplers@;
        let ghost points_pre = texture_points@;
        let pair = &values[idx];
        let name = &pair.0;
        let value = &pair.1;

        if let Some(uniform) = program.get_uniform(name.as_str()) {
            proof {
                lemma_lookup_uniform_entry(program.uniforms@, name@);
            }
            if uniform.size.is_some() {
                proof {
                    assert(values@[idx as int] == *pair);
                    lemma_pass_error_stable(
                        *program,
                        max0,
                        supported0,
                        init0,
                        values@,
                        idx as int + 1,
                        n as int,
                    );
                }
                return Err(BindError::Fatal(FatalError::UniformArraysNotSupported));
            }
            if !value.is_usable_with(&uniform.ty) {
                proof {
                    assert(values@[idx as int] == *pair);
                    lemma_pass_error_stable(
                        *program,
                        max0,
                        supported0,
                        init0,
                        values@,
                        idx as int + 1,
                        n as int,
                    );
                }
                return Err(
                    BindError::UniformTypeMismatch { name: name.clone(), expected: uniform.ty },
                );
            }
            match bind_uniform(
                session,
                samplers,
                value,
                uniform.location,
                &mut texture_points,
                name,
                out,
            ) {
                Ok(_) => {
                    proof {
                        match (*pair).1 {
                            UniformValue::Texture(texture, sampler, target) => {
                                let unit = choose|unit: u16|
                                    resolve_ok_post(
                                        session_pre,
                                        *session,
                                        samplers_pre,
                                        samplers@,
                                        points_pre,
                                        texture_points@,
                                        out_pre,
                                        out@,
                                        texture,
                                        sampler,
                                        uniform.location,
                                        target,
                                        unit,
                                    );
                                let cmd = GlCommand::SetUniform(
                                    uniform.location,
                                    RawUniformValue::SignedInt(unit as i32),
                                );
                                let p = out_pre.len() + sampler_cmds(samplers_pre, sampler).len();
                                assert(out@[p as int] == cmd);
                                assert(out@.contains(cmd));
                            },
                            _ => match raw_of((*pair).1) {
                                Some(raw) => {
                                    assert(out@.last() == GlCommand::SetUniform(
                                        uniform.location,
                                        raw,
                                    ));
                                    assert(out@.contains(GlCommand::SetUniform(
                                        uniform.location,
                                        raw,
                                    )));
                                },
                                None => {},
                            },
                        }
                        assert(value_programmed(*program, (*pair).0, (*pair).1, out@));
                    }
                },
                Err(e) => {
                    proof {
                        assert(values@[idx as int] == *pair);
                        lemma_pass_error_stable(
                            *program,
                            max0,
                            supported0,
                            init0,
                            values@,
                            idx as int + 1,
                            n as int,
                        );
                    }
                    return Err(e);
                },
            }
        } else if let Some(block) = program.get_uniform_block(name.as_str()) {
            match bind_uniform_block(value, block, &mut uniform_buffer_points, name, out) {
                Ok(fence) => {
                    if let Some(f) = fence {
                        fences.push(f);
                    }
                },
                Err(e) => {
                    proof {
                        assert(values@[idx as int] == *pair);
                        lemma_pass_error_stable(
                            *program,
                            max0,
                            supported0,
                            init0,
                            values@,
                            idx as int + 1,
                            n as int,
                        );
                    }
                    return Err(e);
                },
            }
        } else if let Some(block) = program.get_shader_storage_block(name.as_str()) {
            match bind_shared_storage_block(value, block, &mut shared_storage_points, name, out) {
                Ok(fence) => {
                    if let Some(f) = fence {
                        fences.push(f);
                    }
                },
                Err(e) => {
                    proof {
                        assert(values@[idx as int] == *pair);
                        lemma_pass_error_stable(
                            *program,
                            max0,
                            supported0,
                            init0,
                            values@,
                            idx as int + 1,
                            n as int,
                        );
                    }
                    return Err(e);
                },
            }
        }
        proof {
            assert(out_pre.is_prefix_of(out@));
            assert forall|j: int|
                0 <= j < idx + 1 implies value_programmed(
                *program,
                (#[trigger] values@[j]).0,
                values@[j].1,
                out@,
            ) by {
                lemma_prefix_preserves_contains(out_pre, out@);
                if j == idx {
                    assert(values@[j] == *pair);
                }
            }
            assert(fences@ == fences0 + pass_fences_to(*program, values@, idx as int + 1));
            assert(fences@.subrange(0, fences0.len() as int) =~= fences0);
        }
        idx = idx + 1;
    }
    Ok(())
}

/// Whatever a sequence contains, every extension of it contains too.
proof fn lemma_prefix_preserves_contains(pre: Seq<GlCommand>, post: Seq<GlCommand>)
    requires
        pre.is_prefix_of(post),
    ensures
        forall|c: GlCommand| pre.contains(c) ==> post.contains(c),
{
    assert forall|c: GlCommand| pre.contains(c) implies post.contains(c) by {
        let i = choose|i: int| 0 <= i < pre.len() && pre[i] == c;
        assert(post[i] == c);
    }
}

} // verus!
