//! The bind-point allocator and the sampler cache on their own.

use uniform_bind::bitsfield::Bitsfield;
use uniform_bind::commands::GlCommand;
use uniform_bind::sampler_cache::SamplerCache;
use uniform_bind::values::{
    MagnifySamplerFilter, MinifySamplerFilter, SamplerBehavior, SamplerWrapFunction,
};

fn behavior(anisotropy: u16) -> SamplerBehavior {
    SamplerBehavior {
        wrap_x: SamplerWrapFunction::Clamp,
        wrap_y: SamplerWrapFunction::Clamp,
        wrap_z: SamplerWrapFunction::Clamp,
        minify_filter: MinifySamplerFilter::Linear,
        magnify_filter: MagnifySamplerFilter::Linear,
        max_anisotropy: anisotropy,
    }
}

#[test]
fn get_unused_returns_lowest_free_slot() {
    let mut points = Bitsfield::new(4);
    assert_eq!(points.get_unused(), Some(0));
    points.set_used(0);
    points.set_used(2);
    assert_eq!(points.get_unused(), Some(1));
    points.set_used(1);
    assert_eq!(points.get_unused(), Some(3));
}

#[test]
fn exhausted_pool_signals_none() {
    let mut points = Bitsfield::new(2);
    points.set_used(0);
    points.set_used(1);
    assert_eq!(points.get_unused(), None);
}

#[test]
fn empty_pool_is_exhausted_from_the_start() {
    let points = Bitsfield::new(0);
    assert_eq!(points.get_unused(), None);
}

#[test]
fn is_used_tracks_reservations() {
    let mut points = Bitsfield::new(3);
    assert!(!points.is_used(1));
    points.set_used(1);
    assert!(points.is_used(1));
    assert!(!points.is_used(0));
    assert!(!points.is_used(2));
    assert_eq!(points.capacity(), 3);
}

#[test]
fn equal_behaviors_resolve_to_one_sampler() {
    let mut cache = SamplerCache::new();
    let mut out = Vec::new();
    let b = behavior(8);
    let h1 = cache.get_or_create(b, &mut out);
    let h2 = cache.get_or_create(b, &mut out);
    assert_eq!(h1, h2);
    assert_eq!(cache.len(), 1);
    // Only the first resolution created a sampler.
    assert_eq!(out, vec![GlCommand::CreateSampler(h1, b)]);
}

#[test]
fn different_behaviors_get_fresh_distinct_handles() {
    let mut cache = SamplerCache::new();
    let mut out = Vec::new();
    let b1 = behavior(1);
    let b2 = behavior(2);
    let h1 = cache.get_or_create(b1, &mut out);
    let h2 = cache.get_or_create(b2, &mut out);
    assert_ne!(h1, h2);
    assert_ne!(h1, 0);
    assert_ne!(h2, 0);
    assert_eq!(cache.len(), 2);
    assert_eq!(
        out,
        vec![GlCommand::CreateSampler(h1, b1), GlCommand::CreateSampler(h2, b2)]
    );
    // The cache persists: both behaviors still resolve to their handles.
    assert_eq!(cache.get_or_create(b1, &mut out), h1);
    assert_eq!(cache.get_or_create(b2, &mut out), h2);
    assert_eq!(out.len(), 2);
}
