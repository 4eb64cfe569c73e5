//! The laws of the unit-reuse rule, proved once for every state and request.
//!
//! Each proof function states a guarantee of the resolver's choice function
//! over arbitrary session tables, pass reservations and requests, so the
//! guarantees hold for every binding pass, not only for tested inputs.

use vstd::prelude::*;
use crate::bitsfield::{first_free, lemma_first_free};
use crate::commands::GlCommand;
use crate::sampler_cache::{handles_indexed, lemma_lookup, spec_lookup};
use crate::session::{TextureUnit, entry_at};
use crate::texture_unit::{
    cache_after, chosen_unit, eligible, lemma_chosen_unit_in_range, lemma_scan_from,
    resolved_sampler, scan_from, sync_cmds, table_after,
};
use crate::values::{SamplerBehavior, TextureTarget};

verus! {

/// A pass that has claimed no unit yet: every slot of the `max`-sized pool is
/// free.
pub open spec fn all_free(max: int) -> Seq<bool> {
    Seq::new(max as nat, |i: int| false)
}

/// When the first eligible index is `u`, the scan picks `u`.
proof fn lemma_scan_first(
    units: Seq<TextureUnit>,
    points: Seq<bool>,
    texture: u32,
    sampler: u32,
    u: int,
)
    requires
        0 <= u < units.len(),
        eligible(units[u], points[u], texture, sampler),
        forall|j: int| 0 <= j < u ==> !eligible(units[j], points[j], texture, sampler),
    ensures
        scan_from(units, points, texture, sampler, 0) == Some(u),
{
    lemma_scan_from(units, points, texture, sampler, 0);
    match scan_from(units, points, texture, sampler, 0) {
        Some(k) => {
            if k < u {
                assert(!eligible(units[k], points[k], texture, sampler));
            }
            if u < k {
                assert(!eligible(units[u], points[u], texture, sampler));
            }
        },
        None => {
            assert(!eligible(units[u], points[u], texture, sampler));
        },
    }
}

/// No silent overwrite: a unit some uniform of this pass has already claimed
/// is chosen again only when it already holds exactly the requested texture
/// and sampler. A claimed unit is never rebound within a pass.
pub proof fn lemma_no_silent_overwrite(
    units: Seq<TextureUnit>,
    points: Seq<bool>,
    texture: u32,
    sampler: u32,
    max: int,
    u: int,
)
    requires
        units.len() <= max,
        points.len() == max,
        forall|j: int| 0 <= j < points.len() && #[trigger] points[j] ==> j < units.len(),
        chosen_unit(units, points, texture, sampler, max) == Some(u),
        0 <= u < points.len(),
        points[u],
    ensures
        0 <= u < units.len(),
        units[u].texture == texture,
        units[u].sampler == sampler,
{
    lemma_scan_from(units, points, texture, sampler, 0);
    lemma_first_free(points);
    match scan_from(units, points, texture, sampler, 0) {
        Some(k) => {
            assert(k == u);
            assert(eligible(units[u], points[u], texture, sampler));
        },
        None => {
            // A fresh index is beyond every claimed slot, and the lowest free
            // slot is not claimed: neither can be the claimed `u`.
            if units.len() < max {
                assert(u < units.len());
                assert(false);
            } else {
                assert(first_free(points) == Some(u));
                assert(!points[u]);
                assert(false);
            }
        },
    }
}

/// Exhaustion, exactly: the resolver finds no unit — and the pass aborts
/// fatally — precisely when the pass has already claimed every unit of a
/// full table and none of them holds the requested combination. In every
/// other state some unit is chosen, so exhaustion is never a wraparound.
pub proof fn lemma_exhaustion_characterized(
    units: Seq<TextureUnit>,
    points: Seq<bool>,
    texture: u32,
    sampler: u32,
    max: int,
)
    requires
        units.len() <= max,
        points.len() == max,
    ensures
        chosen_unit(units, points, texture, sampler, max) is None <==> {
            &&& units.len() == max
            &&& forall|j: int| 0 <= j < max ==> points[j]
            &&& forall|j: int|
                0 <= j < max ==> !((#[trigger] units[j]).texture == texture
                    && units[j].sampler == sampler)
        },
{
    lemma_scan_from(units, points, texture, sampler, 0);
    lemma_first_free(points);
    if chosen_unit(units, points, texture, sampler, max) is None {
        assert forall|j: int| 0 <= j < max implies !((#[trigger] units[j]).texture == texture
            && units[j].sampler == sampler) by {
            assert(!eligible(units[j], points[j], texture, sampler));
        }
    } else {
        let u = chosen_unit(units, points, texture, sampler, max).unwrap();
        match scan_from(units, points, texture, sampler, 0) {
            Some(k) => {
                if units.len() == max && points[k] {
                    assert(eligible(units[k], points[k], texture, sampler));
                }
            },
            None => {},
        }
    }
}

/// Idempotence across passes: once a pass has resolved `texture` with
/// `sampler` to unit `u`, a later pass that starts with no claimed units and
/// asks for the same combination resolves to the same unit `u`, finds it
/// already synchronized, and emits no bind command for it.
pub proof fn lemma_repeat_bind_reuses_unit(
    units0: Seq<TextureUnit>,
    max: int,
    texture: u32,
    sampler: u32,
    u: int,
    active: u16,
    target: TextureTarget,
)
    requires
        units0.len() <= max,
        chosen_unit(units0, all_free(max), texture, sampler, max) == Some(u),
    ensures
        ({
            let units1 = table_after(units0, u, texture, sampler);
            &&& chosen_unit(units1, all_free(max), texture, sampler, max) == Some(u)
            &&& entry_at(units1, u) == (TextureUnit { texture, sampler })
            &&& sync_cmds(entry_at(units1, u), active, u as u16, texture, sampler, target)
                == Seq::<GlCommand>::empty()
        }),
{
    let points = all_free(max);
    lemma_chosen_unit_in_range(units0, points, texture, sampler, max);
    lemma_scan_from(units0, points, texture, sampler, 0);
    lemma_first_free(points);
    let units1 = table_after(units0, u, texture, sampler);
    assert(units1[u] == (TextureUnit { texture, sampler }));
    assert forall|j: int| 0 <= j < u implies !eligible(
        units1[j],
        points[j],
        texture,
        sampler,
    ) by {
        assert(units1[j] == units0[j]);
        match scan_from(units0, points, texture, sampler, 0) {
            Some(k) => {
                assert(k == u);
            },
            None => {},
        }
    }
    lemma_scan_first(units1, points, texture, sampler, u);
}

/// Sharing within a pass: two requests for the identical texture and sampler
/// combination in the same pass resolve to the same unit, and the second
/// request finds the unit already synchronized.
pub proof fn lemma_same_pass_sharing(
    units0: Seq<TextureUnit>,
    points0: Seq<bool>,
    texture: u32,
    sampler: u32,
    max: int,
    u: int,
)
    requires
        units0.len() <= max,
        points0.len() == max,
        chosen_unit(units0, points0, texture, sampler, max) == Some(u),
    ensures
        ({
            let units1 = table_after(units0, u, texture, sampler);
            let points1 = points0.update(u, true);
            &&& chosen_unit(units1, points1, texture, sampler, max) == Some(u)
            &&& entry_at(units1, u) == (TextureUnit { texture, sampler })
        }),
{
    lemma_chosen_unit_in_range(units0, points0, texture, sampler, max);
    lemma_scan_from(units0, points0, texture, sampler, 0);
    lemma_first_free(points0);
    let units1 = table_after(units0, u, texture, sampler);
    let points1 = points0.update(u, true);
    assert(units1[u] == (TextureUnit { texture, sampler }));
    assert(eligible(units1[u], points1[u], texture, sampler));
    assert forall|j: int| 0 <= j < u implies !eligible(
        units1[j],
        points1[j],
        texture,
        sampler,
    ) by {
        assert(units1[j] == units0[j]);
        assert(points1[j] == points0[j]);
        match scan_from(units0, points0, texture, sampler, 0) {
            Some(k) => {
                assert(k == u);
            },
            None => {},
        }
    }
    lemma_scan_first(units1, points1, texture, sampler, u);
}

/// Distinctness within a pass: after a request for `texture` with sampler
/// `s1` claimed unit `u1`, a request in the same pass for the same texture
/// with a different sampler `s2` never resolves to `u1`.
pub proof fn lemma_same_pass_distinct(
    units0: Seq<TextureUnit>,
    points0: Seq<bool>,
    texture: u32,
    s1: u32,
    s2: u32,
    max: int,
    u1: int,
    u2: int,
)
    requires
        units0.len() <= max,
        points0.len() == max,
        s1 != s2,
        chosen_unit(units0, points0, texture, s1, max) == Some(u1),
        chosen_unit(
            table_after(units0, u1, texture, s1),
            points0.update(u1, true),
            texture,
            s2,
            max,
        ) == Some(u2),
    ensures
        u2 != u1,
{
    lemma_chosen_unit_in_range(units0, points0, texture, s1, max);
    let units1 = table_after(units0, u1, texture, s1);
    let points1 = points0.update(u1, true);
    assert(units1[u1] == (TextureUnit { texture, sampler: s1 }));
    assert(points1[u1]);
    assert(!eligible(units1[u1], points1[u1], texture, s2));
    lemma_scan_from(units1, points1, texture, s2, 0);
    lemma_first_free(points1);
    match scan_from(units1, points1, texture, s2, 0) {
        Some(k) => {
            assert(k == u2);
        },
        None => {
            if units1.len() < max {
                assert(u2 == units1.len());
            } else {
                assert(first_free(points1) == Some(u2));
                assert(!points1[u2]);
            }
        },
    }
}

/// Distinct sampling settings resolve to distinct sampler handles: resolving
/// `b1` and then, against the advanced cache, a different `b2` never yields
/// the same handle.
pub proof fn lemma_distinct_behaviors_distinct_handles(
    cache: Seq<(SamplerBehavior, u32)>,
    b1: SamplerBehavior,
    b2: SamplerBehavior,
)
    requires
        handles_indexed(cache),
        b1 != b2,
        cache.len() + 2 < u32::MAX,
    ensures
        resolved_sampler(cache, Some(b1)) != resolved_sampler(
            cache_after(cache, Some(b1)),
            Some(b2),
        ),
{
    let cache1 = cache_after(cache, Some(b1));
    lemma_lookup(cache, b1);
    lemma_lookup(cache, b2);
    lemma_lookup(cache1, b2);
    match spec_lookup(cache, b1) {
        Some(h1) => {
            assert(cache1 == cache);
            match spec_lookup(cache, b2) {
                Some(h2) => {
                    let i1 = choose|i: int|
                        0 <= i < cache.len() && cache[i].0 == b1 && cache[i].1 == h1;
                    let i2 = choose|i: int|
                        0 <= i < cache.len() && cache[i].0 == b2 && cache[i].1 == h2;
                    assert(i1 != i2);
                    assert(h1 == i1 + 1 && h2 == i2 + 1);
                },
                None => {
                    let i1 = choose|i: int|
                        0 <= i < cache.len() && cache[i].0 == b1 && cache[i].1 == h1;
                    assert(h1 == i1 + 1);
                    assert(h1 < cache.len() + 1);
                },
            }
        },
        None => {
            // b1 was created fresh: its handle is the cache length plus one,
            // and b2 either hits an older entry or gets the next handle.
            match spec_lookup(cache1, b2) {
                Some(h2) => {
                    let i2 = choose|i: int|
                        0 <= i < cache1.len() && cache1[i].0 == b2 && cache1[i].1 == h2;
                    assert(i2 < cache.len());
                    assert(cache1[i2] == cache[i2]);
                    assert(h2 == i2 + 1);
                },
                None => {},
            }
        },
    }
}

} // verus!
