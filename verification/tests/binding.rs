//! End-to-end binding passes through the public dispatcher.

use uniform_bind::bind::{bind_uniform, bind_uniforms};
use uniform_bind::bitsfield::Bitsfield;
use uniform_bind::commands::GlCommand;
use uniform_bind::errors::{BindError, FatalError};
use uniform_bind::reflection::{ProgramReflection, ReflectedUniform, UniformBlock};
use uniform_bind::sampler_cache::SamplerCache;
use uniform_bind::session::Session;
use uniform_bind::values::{
    BufferRef, MagnifySamplerFilter, MinifySamplerFilter, RawUniformValue, SamplerBehavior,
    TextureTarget, UniformType, UniformValue, SamplerWrapFunction,
};

fn fresh_session() -> Session {
    Session::new(32, 8, 8, true)
}

fn sampler(anisotropy: u16) -> SamplerBehavior {
    SamplerBehavior {
        wrap_x: SamplerWrapFunction::Repeat,
        wrap_y: SamplerWrapFunction::Clamp,
        wrap_z: SamplerWrapFunction::Mirror,
        minify_filter: MinifySamplerFilter::LinearMipmapLinear,
        magnify_filter: MagnifySamplerFilter::Linear,
        max_anisotropy: anisotropy,
    }
}

fn uniform(ty: UniformType, location: i32) -> ReflectedUniform {
    ReflectedUniform { ty, location, size: None }
}

fn program_with_uniforms(uniforms: Vec<(String, ReflectedUniform)>) -> ProgramReflection {
    ProgramReflection { uniforms, uniform_blocks: Vec::new(), shared_storage_blocks: Vec::new() }
}

fn run(
    values: Vec<(String, UniformValue)>,
    program: &ProgramReflection,
    session: &mut Session,
    samplers: &mut SamplerCache,
) -> (Result<(), BindError>, Vec<u64>, Vec<GlCommand>) {
    let mut fences = Vec::new();
    let mut out = Vec::new();
    let r = bind_uniforms(&values, program, session, samplers, &mut fences, &mut out);
    (r, fences, out)
}

#[test]
fn end_to_end_color_and_albedo() {
    let program = program_with_uniforms(vec![
        ("u_color".to_string(), uniform(UniformType::Vec4, 2)),
        ("u_albedo".to_string(), uniform(UniformType::Sampler(TextureTarget::Texture2d), 5)),
    ]);
    let mut session = fresh_session();
    let mut samplers = SamplerCache::new();
    let color = [
        1.0f32.to_bits(),
        0.25f32.to_bits(),
        0.5f32.to_bits(),
        1.0f32.to_bits(),
    ];
    let sampler_s = sampler(4);
    let values = vec![
        ("u_color".to_string(), UniformValue::Vec4(color)),
        ("u_albedo".to_string(), UniformValue::Texture(77, Some(sampler_s), TextureTarget::Texture2d)),
    ];
    let (r, fences, out) = run(values, &program, &mut session, &mut samplers);
    assert!(r.is_ok());
    assert!(fences.is_empty());
    assert_eq!(samplers.len(), 1);
    assert_eq!(
        out,
        vec![
            GlCommand::SetUniform(2, RawUniformValue::Vec4(color)),
            GlCommand::CreateSampler(1, sampler_s),
            GlCommand::SetUniform(5, RawUniformValue::SignedInt(0)),
            GlCommand::BindTexture(TextureTarget::Texture2d, 77),
            GlCommand::BindSampler(0, 1),
        ]
    );
    assert_eq!(session.texture_units.len(), 1);
    assert_eq!(session.texture_units[0].texture, 77);
    assert_eq!(session.texture_units[0].sampler, 1);
}

#[test]
fn plain_values_programmed_at_their_locations() {
    let program = program_with_uniforms(vec![
        ("a".to_string(), uniform(UniformType::SignedInt, 0)),
        ("b".to_string(), uniform(UniformType::UnsignedInt, 1)),
        ("c".to_string(), uniform(UniformType::Float, 2)),
        ("d".to_string(), uniform(UniformType::Vec2, 3)),
        ("e".to_string(), uniform(UniformType::Vec3, 4)),
        ("f".to_string(), uniform(UniformType::Mat2, 5)),
        ("g".to_string(), uniform(UniformType::Mat3, 6)),
        ("h".to_string(), uniform(UniformType::Mat4, 7)),
    ]);
    let mut session = fresh_session();
    let mut samplers = SamplerCache::new();
    let f = 0.75f32.to_bits();
    let v2 = [1.0f32.to_bits(), 2.0f32.to_bits()];
    let v3 = [1.5f32.to_bits(), 2.5f32.to_bits(), 3.5f32.to_bits()];
    let m2 = [[f, f], [f, f]];
    let m3 = [[f, f, f], [f, f, f], [f, f, f]];
    let m4 = [[f, f, f, f], [f, f, f, f], [f, f, f, f], [f, f, f, f]];
    let values = vec![
        ("a".to_string(), UniformValue::SignedInt(-9)),
        ("b".to_string(), UniformValue::UnsignedInt(9)),
        ("c".to_string(), UniformValue::Float(f)),
        ("d".to_string(), UniformValue::Vec2(v2)),
        ("e".to_string(), UniformValue::Vec3(v3)),
        ("f".to_string(), UniformValue::Mat2(m2)),
        ("g".to_string(), UniformValue::Mat3(m3)),
        ("h".to_string(), UniformValue::Mat4(m4)),
    ];
    let (r, _, out) = run(values, &program, &mut session, &mut samplers);
    assert!(r.is_ok());
    assert_eq!(
        out,
        vec![
            GlCommand::SetUniform(0, RawUniformValue::SignedInt(-9)),
            GlCommand::SetUniform(1, RawUniformValue::UnsignedInt(9)),
            GlCommand::SetUniform(2, RawUniformValue::Float(f)),
            GlCommand::SetUniform(3, RawUniformValue::Vec2(v2)),
            GlCommand::SetUniform(4, RawUniformValue::Vec3(v3)),
            GlCommand::SetUniform(5, RawUniformValue::Mat2(m2)),
            GlCommand::SetUniform(6, RawUniformValue::Mat3(m3)),
            GlCommand::SetUniform(7, RawUniformValue::Mat4(m4)),
        ]
    );
}

#[test]
fn type_mismatch_names_uniform_and_expected_type() {
    let program = program_with_uniforms(vec![
        ("u_color".to_string(), uniform(UniformType::Vec4, 2)),
    ]);
    let mut session = fresh_session();
    let mut samplers = SamplerCache::new();
    let values = vec![("u_color".to_string(), UniformValue::Float(0))];
    let (r, fences, out) = run(values, &program, &mut session, &mut samplers);
    assert_eq!(
        r,
        Err(BindError::UniformTypeMismatch {
            name: "u_color".to_string(),
            expected: UniformType::Vec4,
        })
    );
    assert!(out.is_empty());
    assert!(fences.is_empty());
}

#[test]
fn first_error_wins_and_earlier_values_stay_bound() {
    let program = program_with_uniforms(vec![
        ("a".to_string(), uniform(UniformType::SignedInt, 0)),
        ("b".to_string(), uniform(UniformType::Vec4, 1)),
        ("c".to_string(), uniform(UniformType::Float, 2)),
    ]);
    let mut session = fresh_session();
    let mut samplers = SamplerCache::new();
    let values = vec![
        ("a".to_string(), UniformValue::SignedInt(3)),
        ("b".to_string(), UniformValue::SignedInt(4)),
        ("c".to_string(), UniformValue::SignedInt(5)),
    ];
    let (r, _, out) = run(values, &program, &mut session, &mut samplers);
    assert_eq!(
        r,
        Err(BindError::UniformTypeMismatch {
            name: "b".to_string(),
            expected: UniformType::Vec4,
        })
    );
    // The value before the offending one was bound; nothing after it was.
    assert_eq!(out, vec![GlCommand::SetUniform(0, RawUniformValue::SignedInt(3))]);
}

#[test]
fn unknown_names_are_silently_ignored() {
    let program = program_with_uniforms(vec![
        ("known".to_string(), uniform(UniformType::Float, 0)),
    ]);
    let mut session = fresh_session();
    let mut samplers = SamplerCache::new();
    let values = vec![
        ("unknown".to_string(), UniformValue::Float(7)),
        ("known".to_string(), UniformValue::Float(8)),
    ];
    let (r, _, out) = run(values, &program, &mut session, &mut samplers);
    assert!(r.is_ok());
    assert_eq!(out, vec![GlCommand::SetUniform(0, RawUniformValue::Float(8))]);
}

#[test]
fn array_uniform_is_fatal() {
    let program = program_with_uniforms(vec![
        (
            "arr".to_string(),
            ReflectedUniform { ty: UniformType::Float, location: 3, size: Some(4) },
        ),
    ]);
    let mut session = fresh_session();
    let mut samplers = SamplerCache::new();
    let values = vec![("arr".to_string(), UniformValue::Float(0))];
    let (r, _, out) = run(values, &program, &mut session, &mut samplers);
    assert_eq!(r, Err(BindError::Fatal(FatalError::UniformArraysNotSupported)));
    assert!(out.is_empty());
}

#[test]
fn block_value_on_plain_uniform_is_type_mismatch() {
    let program = program_with_uniforms(vec![
        ("u".to_string(), uniform(UniformType::Float, 0)),
    ]);
    let mut session = fresh_session();
    let mut samplers = SamplerCache::new();
    let buffer = BufferRef { id: 1, offset_bytes: 0, layout: 9, fence: None };
    let values = vec![("u".to_string(), UniformValue::Block(buffer))];
    let (r, _, _) = run(values, &program, &mut session, &mut samplers);
    assert_eq!(
        r,
        Err(BindError::UniformTypeMismatch {
            name: "u".to_string(),
            expected: UniformType::Float,
        })
    );
}

#[test]
fn block_value_reaching_plain_binder_is_buffer_to_value() {
    let mut session = fresh_session();
    let mut samplers = SamplerCache::new();
    let mut points = Bitsfield::new(32);
    let mut out = Vec::new();
    let buffer = BufferRef { id: 1, offset_bytes: 0, layout: 9, fence: None };
    let value = UniformValue::Block(buffer);
    let r = bind_uniform(
        &mut session,
        &mut samplers,
        &value,
        4,
        &mut points,
        &"u_data".to_string(),
        &mut out,
    );
    assert_eq!(r, Err(BindError::UniformBufferToValue { name: "u_data".to_string() }));
    assert!(out.is_empty());
}

#[test]
fn sampler_bind_without_sampler_objects_is_fatal() {
    let mut session = Session::new(32, 8, 8, false);
    let mut samplers = SamplerCache::new();
    let program = program_with_uniforms(vec![
        ("t".to_string(), uniform(UniformType::Sampler(TextureTarget::Texture2d), 0)),
    ]);
    let values = vec![
        ("t".to_string(), UniformValue::Texture(5, Some(sampler(1)), TextureTarget::Texture2d)),
    ];
    let (r, _, out) = run(values, &program, &mut session, &mut samplers);
    assert_eq!(r, Err(BindError::Fatal(FatalError::SamplerObjectsNotSupported)));
    // The failure is detected before any command is emitted: in particular no
    // sampler object is created for a session that cannot bind one.
    assert!(out.is_empty());
    assert_eq!(samplers.len(), 0);
}

#[test]
fn texture_without_sampler_needs_no_sampler_objects() {
    let mut session = Session::new(32, 8, 8, false);
    let mut samplers = SamplerCache::new();
    let program = program_with_uniforms(vec![
        ("t".to_string(), uniform(UniformType::Sampler(TextureTarget::Texture3d), 1)),
    ]);
    let values = vec![
        ("t".to_string(), UniformValue::Texture(5, None, TextureTarget::Texture3d)),
    ];
    let (r, _, out) = run(values, &program, &mut session, &mut samplers);
    assert!(r.is_ok());
    assert_eq!(
        out,
        vec![
            GlCommand::SetUniform(1, RawUniformValue::SignedInt(0)),
            GlCommand::BindTexture(TextureTarget::Texture3d, 5),
        ]
    );
}

#[test]
fn mismatched_texture_target_is_type_mismatch() {
    let program = program_with_uniforms(vec![
        ("t".to_string(), uniform(UniformType::Sampler(TextureTarget::Texture2d), 0)),
    ]);
    let mut session = fresh_session();
    let mut samplers = SamplerCache::new();
    let values = vec![
        ("t".to_string(), UniformValue::Texture(5, None, TextureTarget::Texture2dArray)),
    ];
    let (r, _, _) = run(values, &program, &mut session, &mut samplers);
    assert_eq!(
        r,
        Err(BindError::UniformTypeMismatch {
            name: "t".to_string(),
            expected: UniformType::Sampler(TextureTarget::Texture2d),
        })
    );
}

#[test]
fn block_bound_through_uniform_block_slot() {
    let mut program = program_with_uniforms(Vec::new());
    program.uniform_blocks.push(("Globals".to_string(), UniformBlock { binding: 3, layout: 42 }));
    let mut session = fresh_session();
    let mut samplers = SamplerCache::new();
    let buffer = BufferRef { id: 11, offset_bytes: 0, layout: 42, fence: Some(900) };
    let values = vec![("Globals".to_string(), UniformValue::Block(buffer))];
    let (r, fences, out) = run(values, &program, &mut session, &mut samplers);
    assert!(r.is_ok());
    assert_eq!(fences, vec![900]);
    assert_eq!(
        out,
        vec![
            GlCommand::BindUniformBuffer(11, 0),
            GlCommand::SetUniformBlockBinding(3, 0),
        ]
    );
}

#[test]
fn block_bound_through_shared_storage_slot() {
    let mut program = program_with_uniforms(Vec::new());
    program
        .shared_storage_blocks
        .push(("Particles".to_string(), UniformBlock { binding: 1, layout: 7 }));
    let mut session = fresh_session();
    let mut samplers = SamplerCache::new();
    let buffer = BufferRef { id: 12, offset_bytes: 0, layout: 7, fence: None };
    let values = vec![("Particles".to_string(), UniformValue::Block(buffer))];
    let (r, fences, out) = run(values, &program, &mut session, &mut samplers);
    assert!(r.is_ok());
    assert!(fences.is_empty());
    assert_eq!(
        out,
        vec![
            GlCommand::BindSharedStorageBuffer(12, 0),
            GlCommand::SetSharedStorageBlockBinding(1, 0),
        ]
    );
}

#[test]
fn layout_mismatch_never_issues_a_bind() {
    let mut program = program_with_uniforms(Vec::new());
    program.uniform_blocks.push(("Globals".to_string(), UniformBlock { binding: 3, layout: 42 }));
    let mut session = fresh_session();
    let mut samplers = SamplerCache::new();
    let buffer = BufferRef { id: 11, offset_bytes: 0, layout: 41, fence: Some(900) };
    let values = vec![("Globals".to_string(), UniformValue::Block(buffer))];
    let (r, fences, out) = run(values, &program, &mut session, &mut samplers);
    assert_eq!(r, Err(BindError::UniformBlockLayoutMismatch { name: "Globals".to_string() }));
    assert!(out.is_empty());
    assert!(fences.is_empty());
}

#[test]
fn non_block_value_on_block_slot_is_value_to_block() {
    let mut program = program_with_uniforms(Vec::new());
    program.uniform_blocks.push(("Globals".to_string(), UniformBlock { binding: 3, layout: 42 }));
    let mut session = fresh_session();
    let mut samplers = SamplerCache::new();
    let values = vec![("Globals".to_string(), UniformValue::Float(1))];
    let (r, _, _) = run(values, &program, &mut session, &mut samplers);
    assert_eq!(r, Err(BindError::UniformValueToBlock { name: "Globals".to_string() }));
}

#[test]
fn nonzero_buffer_offset_is_fatal() {
    let mut program = program_with_uniforms(Vec::new());
    program.uniform_blocks.push(("Globals".to_string(), UniformBlock { binding: 3, layout: 42 }));
    let mut session = fresh_session();
    let mut samplers = SamplerCache::new();
    let buffer = BufferRef { id: 11, offset_bytes: 16, layout: 42, fence: None };
    let values = vec![("Globals".to_string(), UniformValue::Block(buffer))];
    let (r, _, out) = run(values, &program, &mut session, &mut samplers);
    assert_eq!(r, Err(BindError::Fatal(FatalError::NonzeroBufferOffset)));
    assert!(out.is_empty());
}

#[test]
fn buffer_bind_points_exhaust_fatally() {
    let mut program = program_with_uniforms(Vec::new());
    program.uniform_blocks.push(("A".to_string(), UniformBlock { binding: 0, layout: 1 }));
    program.uniform_blocks.push(("B".to_string(), UniformBlock { binding: 1, layout: 1 }));
    let mut session = Session::new(32, 1, 1, true);
    let mut samplers = SamplerCache::new();
    let buffer = BufferRef { id: 11, offset_bytes: 0, layout: 1, fence: None };
    let values = vec![
        ("A".to_string(), UniformValue::Block(buffer)),
        ("B".to_string(), UniformValue::Block(buffer)),
    ];
    let (r, _, out) = run(values, &program, &mut session, &mut samplers);
    assert_eq!(r, Err(BindError::Fatal(FatalError::BufferBindPointsExhausted)));
    // The first block was bound before the pool ran out.
    assert_eq!(
        out,
        vec![
            GlCommand::BindUniformBuffer(11, 0),
            GlCommand::SetUniformBlockBinding(0, 0),
        ]
    );
}
