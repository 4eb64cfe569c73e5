//! Texture-unit reuse, sharing, distinctness and exhaustion across passes.

use uniform_bind::bind::bind_uniforms;
use uniform_bind::commands::GlCommand;
use uniform_bind::errors::{BindError, FatalError};
use uniform_bind::reflection::{ProgramReflection, ReflectedUniform};
use uniform_bind::sampler_cache::SamplerCache;
use uniform_bind::session::Session;
use uniform_bind::values::{
    MagnifySamplerFilter, MinifySamplerFilter, RawUniformValue, SamplerBehavior, TextureTarget,
    UniformType, UniformValue, SamplerWrapFunction,
};

fn sampler(anisotropy: u16) -> SamplerBehavior {
    SamplerBehavior {
        wrap_x: SamplerWrapFunction::Repeat,
        wrap_y: SamplerWrapFunction::Repeat,
        wrap_z: SamplerWrapFunction::Repeat,
        minify_filter: MinifySamplerFilter::Nearest,
        magnify_filter: MagnifySamplerFilter::Nearest,
        max_anisotropy: anisotropy,
    }
}

fn texture_program(names: &[&str]) -> ProgramReflection {
    let mut uniforms = Vec::new();
    for (i, name) in names.iter().enumerate() {
        uniforms.push((
            name.to_string(),
            ReflectedUniform {
                ty: UniformType::Sampler(TextureTarget::Texture2d),
                location: i as i32,
                size: None,
            },
        ));
    }
    ProgramReflection { uniforms, uniform_blocks: Vec::new(), shared_storage_blocks: Vec::new() }
}

fn run_pass(
    values: Vec<(String, UniformValue)>,
    program: &ProgramReflection,
    session: &mut Session,
    samplers: &mut SamplerCache,
) -> (Result<(), BindError>, Vec<GlCommand>) {
    let mut fences = Vec::new();
    let mut out = Vec::new();
    let r = bind_uniforms(&values, program, session, samplers, &mut fences, &mut out);
    (r, out)
}

#[test]
fn second_pass_reuses_unit_without_rebinding() {
    let program = texture_program(&["t"]);
    let mut session = Session::new(32, 8, 8, true);
    let mut samplers = SamplerCache::new();
    let s = sampler(2);
    let values = vec![
        ("t".to_string(), UniformValue::Texture(40, Some(s), TextureTarget::Texture2d)),
    ];

    let (r1, out1) = run_pass(values.clone(), &program, &mut session, &mut samplers);
    assert!(r1.is_ok());
    assert_eq!(
        out1,
        vec![
            GlCommand::CreateSampler(1, s),
            GlCommand::SetUniform(0, RawUniformValue::SignedInt(0)),
            GlCommand::BindTexture(TextureTarget::Texture2d, 40),
            GlCommand::BindSampler(0, 1),
        ]
    );

    let (r2, out2) = run_pass(values, &program, &mut session, &mut samplers);
    assert!(r2.is_ok());
    // Same unit, nothing rebound: the second pass only programs the location.
    assert_eq!(out2, vec![GlCommand::SetUniform(0, RawUniformValue::SignedInt(0))]);
    assert_eq!(samplers.len(), 1);
}

#[test]
fn same_combination_shares_one_unit() {
    let program = texture_program(&["a", "b"]);
    let mut session = Session::new(32, 8, 8, true);
    let mut samplers = SamplerCache::new();
    let s = sampler(2);
    let values = vec![
        ("a".to_string(), UniformValue::Texture(40, Some(s), TextureTarget::Texture2d)),
        ("b".to_string(), UniformValue::Texture(40, Some(s), TextureTarget::Texture2d)),
    ];
    let (r, out) = run_pass(values, &program, &mut session, &mut samplers);
    assert!(r.is_ok());
    // Both names resolve to unit 0; the second emits no bind at all.
    assert_eq!(
        out,
        vec![
            GlCommand::CreateSampler(1, s),
            GlCommand::SetUniform(0, RawUniformValue::SignedInt(0)),
            GlCommand::BindTexture(TextureTarget::Texture2d, 40),
            GlCommand::BindSampler(0, 1),
            GlCommand::SetUniform(1, RawUniformValue::SignedInt(0)),
        ]
    );
    assert_eq!(session.texture_units.len(), 1);
}

#[test]
fn same_texture_different_samplers_get_distinct_units() {
    let program = texture_program(&["a", "b"]);
    let mut session = Session::new(32, 8, 8, true);
    let mut samplers = SamplerCache::new();
    let s1 = sampler(1);
    let s2 = sampler(2);
    let values = vec![
        ("a".to_string(), UniformValue::Texture(40, Some(s1), TextureTarget::Texture2d)),
        ("b".to_string(), UniformValue::Texture(40, Some(s2), TextureTarget::Texture2d)),
    ];
    let (r, out) = run_pass(values, &program, &mut session, &mut samplers);
    assert!(r.is_ok());
    assert_eq!(samplers.len(), 2);
    assert_eq!(
        out,
        vec![
            GlCommand::CreateSampler(1, s1),
            GlCommand::SetUniform(0, RawUniformValue::SignedInt(0)),
            GlCommand::BindTexture(TextureTarget::Texture2d, 40),
            GlCommand::BindSampler(0, 1),
            GlCommand::CreateSampler(2, s2),
            GlCommand::SetUniform(1, RawUniformValue::SignedInt(1)),
            GlCommand::ActiveTexture(1),
            GlCommand::BindTexture(TextureTarget::Texture2d, 40),
            GlCommand::BindSampler(1, 2),
        ]
    );
    assert_eq!(session.texture_units.len(), 2);
    assert_eq!(session.texture_units[0].sampler, 1);
    assert_eq!(session.texture_units[1].sampler, 2);
}

#[test]
fn distinct_textures_fill_units_in_order() {
    let program = texture_program(&["a", "b", "c"]);
    let mut session = Session::new(32, 8, 8, true);
    let mut samplers = SamplerCache::new();
    let values = vec![
        ("a".to_string(), UniformValue::Texture(10, None, TextureTarget::Texture2d)),
        ("b".to_string(), UniformValue::Texture(11, None, TextureTarget::Texture2d)),
        ("c".to_string(), UniformValue::Texture(12, None, TextureTarget::Texture2d)),
    ];
    let (r, out) = run_pass(values, &program, &mut session, &mut samplers);
    assert!(r.is_ok());
    assert_eq!(
        out,
        vec![
            GlCommand::SetUniform(0, RawUniformValue::SignedInt(0)),
            GlCommand::BindTexture(TextureTarget::Texture2d, 10),
            GlCommand::SetUniform(1, RawUniformValue::SignedInt(1)),
            GlCommand::ActiveTexture(1),
            GlCommand::BindTexture(TextureTarget::Texture2d, 11),
            GlCommand::SetUniform(2, RawUniformValue::SignedInt(2)),
            GlCommand::ActiveTexture(2),
            GlCommand::BindTexture(TextureTarget::Texture2d, 12),
        ]
    );
}

#[test]
fn exhausting_texture_units_is_fatal() {
    let names: Vec<String> = (0..33).map(|i| format!("t{}", i)).collect();
    let name_refs: Vec<&str> = names.iter().map(|s| s.as_str()).collect();
    let program = texture_program(&name_refs);
    // A capability limit of 32 combined texture units.
    let mut session = Session::new(32, 8, 8, true);
    let mut samplers = SamplerCache::new();
    let mut values = Vec::new();
    for (i, name) in names.iter().enumerate() {
        values.push((
            name.clone(),
            UniformValue::Texture(100 + i as u32, None, TextureTarget::Texture2d),
        ));
    }
    let (r, out) = run_pass(values, &program, &mut session, &mut samplers);
    // The 33rd distinct texture must abort fatally, never wrap around.
    assert_eq!(r, Err(BindError::Fatal(FatalError::TextureUnitsExhausted)));
    // The first 32 were bound: each programmed its own unit exactly once.
    let programmed: Vec<&GlCommand> = out
        .iter()
        .filter(|c| matches!(c, GlCommand::SetUniform(_, _)))
        .collect();
    assert_eq!(programmed.len(), 32);
    assert_eq!(session.texture_units.len(), 32);
}

#[test]
fn small_limit_exhausts_on_third_texture() {
    let program = texture_program(&["a", "b", "c"]);
    let mut session = Session::new(2, 8, 8, true);
    let mut samplers = SamplerCache::new();
    let values = vec![
        ("a".to_string(), UniformValue::Texture(10, None, TextureTarget::Texture2d)),
        ("b".to_string(), UniformValue::Texture(11, None, TextureTarget::Texture2d)),
        ("c".to_string(), UniformValue::Texture(12, None, TextureTarget::Texture2d)),
    ];
    let (r, _) = run_pass(values, &program, &mut session, &mut samplers);
    assert_eq!(r, Err(BindError::Fatal(FatalError::TextureUnitsExhausted)));
    // No unit was overwritten: the two units still hold the first two textures.
    assert_eq!(session.texture_units[0].texture, 10);
    assert_eq!(session.texture_units[1].texture, 11);
}

#[test]
fn full_table_recycles_lowest_unreserved_units() {
    // When the table is at the hardware limit and no unit holds the requested
    // texture, the pass takes the lowest unit it has not claimed itself.
    let program = texture_program(&["a", "b"]);
    let mut session = Session::new(2, 8, 8, true);
    let mut samplers = SamplerCache::new();
    let first = vec![
        ("a".to_string(), UniformValue::Texture(10, None, TextureTarget::Texture2d)),
        ("b".to_string(), UniformValue::Texture(11, None, TextureTarget::Texture2d)),
    ];
    let (r1, _) = run_pass(first, &program, &mut session, &mut samplers);
    assert!(r1.is_ok());
    // The table is now full and the active unit is 1.
    let second = vec![
        ("a".to_string(), UniformValue::Texture(20, None, TextureTarget::Texture2d)),
        ("b".to_string(), UniformValue::Texture(21, None, TextureTarget::Texture2d)),
    ];
    let (r2, out2) = run_pass(second, &program, &mut session, &mut samplers);
    assert!(r2.is_ok());
    assert_eq!(
        out2,
        vec![
            GlCommand::SetUniform(0, RawUniformValue::SignedInt(0)),
            GlCommand::ActiveTexture(0),
            GlCommand::BindTexture(TextureTarget::Texture2d, 20),
            GlCommand::SetUniform(1, RawUniformValue::SignedInt(1)),
            GlCommand::ActiveTexture(1),
            GlCommand::BindTexture(TextureTarget::Texture2d, 21),
        ]
    );
    assert_eq!(session.texture_units[0].texture, 20);
    assert_eq!(session.texture_units[1].texture, 21);
}

#[test]
fn freed_pass_reservations_allow_rebinding_next_pass() {
    // A unit claimed for one combination in pass one may be re-synchronized
    // in pass two, because pass reservations are per-pass scratch state.
    let program = texture_program(&["a"]);
    let mut session = Session::new(1, 8, 8, true);
    let mut samplers = SamplerCache::new();
    let first = vec![
        ("a".to_string(), UniformValue::Texture(10, None, TextureTarget::Texture2d)),
    ];
    let (r1, _) = run_pass(first, &program, &mut session, &mut samplers);
    assert!(r1.is_ok());
    let second = vec![
        ("a".to_string(), UniformValue::Texture(11, None, TextureTarget::Texture2d)),
    ];
    let (r2, out2) = run_pass(second, &program, &mut session, &mut samplers);
    assert!(r2.is_ok());
    assert_eq!(
        out2,
        vec![
            GlCommand::SetUniform(0, RawUniformValue::SignedInt(0)),
            GlCommand::BindTexture(TextureTarget::Texture2d, 11),
        ]
    );
    assert_eq!(session.texture_units[0].texture, 11);
}
