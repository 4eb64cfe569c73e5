//! The session's sampler cache: sampling settings to sampler handle.
//!
//! Equal settings must resolve to the same sampler resource, so the cache is
//! keyed by value, append-only, and persists across binding passes. Handles
//! are allocated by the cache itself (entry index plus one, so they are
//! distinct and never `0`, which stands for "no sampler"); the command that
//! the cache emits on a miss tells the shell to create the driver-side
//! sampler under that handle.

use vstd::prelude::*;
use crate::commands::GlCommand;
use crate::values::SamplerBehavior;

verus! {

/// The handle cached for `behavior`: the first matching entry's, if any.
pub open spec fn spec_lookup(entries: Seq<(SamplerBehavior, u32)>, behavior: SamplerBehavior)
    -> Option<u32>
    decreases entries.len(),
{
    if entries.len() == 0 {
        None
    } else if entries[0].0 == behavior {
        Some(entries[0].1)
    } else {
        spec_lookup(entries.drop_first(), behavior)
    }
}

/// A lookup hit returns the handle of the first entry whose key matches.
pub proof fn lemma_lookup(entries: Seq<(SamplerBehavior, u32)>, behavior: SamplerBehavior)
    ensures
        match spec_lookup(entries, behavior) {
            Some(h) => exists|i: int|
                0 <= i < entries.len() && entries[i].0 == behavior && entries[i].1 == h,
            None => forall|i: int| 0 <= i < entries.len() ==> entries[i].0 != behavior,
        },
    decreases entries.len(),
{
    if entries.len() > 0 && entries[0].0 != behavior {
        lemma_lookup(entries.drop_first(), behavior);
        match spec_lookup(entries.drop_first(), behavior) {
            Some(h) => {
                let i = choose|i: int|
                    0 <= i < entries.drop_first().len() && entries.drop_first()[i].0 == behavior
                        && entries.drop_first()[i].1 == h;
                assert(entries[i + 1].0 == behavior && entries[i + 1].1 == h);
            },
            None => {
                assert forall|i: int| 0 <= i < entries.len() implies entries[i].0 != behavior by {
                    if i > 0 {
                        assert(entries.drop_first()[i - 1] == entries[i]);
                    }
                }
            },
        }
    }
}

/// Each entry's handle is its index plus one.
pub open spec fn handles_indexed(entries: Seq<(SamplerBehavior, u32)>) -> bool {
    forall|i: int| 0 <= i < entries.len() ==> (#[trigger] entries[i]).1 == i + 1
}

/// The mapping from sampling settings to created sampler handles.
pub struct SamplerCache {
    entries: Vec<(SamplerBehavior, u32)>,
}

impl SamplerCache {
    /// The cached entries, oldest first.
    pub closed spec fn view(&self) -> Seq<(SamplerBehavior, u32)> {
        self.entries@
    }

    /// Each entry's handle is its index plus one: handles are distinct,
    /// never `0`, and allocated in creation order.
    pub open spec fn wf(&self) -> bool {
        handles_indexed(self@)
    }

    /// An empty cache, as a fresh session starts with.
    pub fn new() -> (r: SamplerCache)
        ensures
            r@ == Seq::<(SamplerBehavior, u32)>::empty(),
            r.wf(),
    {
        SamplerCache { entries: Vec::new() }
    }

    /// How many samplers have been created so far.
    pub fn len(&self) -> (r: usize)
        ensures
            r == self@.len(),
    {
        self.entries.len()
    }

    /// The handle for `behavior`, creating the sampler on first use.
    ///
    /// On a hit nothing changes and no command is emitted; on a miss the
    /// fresh handle is recorded and a creation command is appended to `out`.
    pub fn get_or_create(
        &mut self,
        behavior: SamplerBehavior,
        out: &mut Vec<GlCommand>,
    ) -> (h: u32)
        requires
            old(self).wf(),
            old(self)@.len() + 1 < u32::MAX,
        ensures
            final(self).wf(),
            h >= 1,
            spec_lookup(final(self)@, behavior) == Some(h),
            match spec_lookup(old(self)@, behavior) {
                Some(h0) => h == h0 && final(self)@ == old(self)@ && final(out)@ == old(out)@,
                None => h == old(self)@.len() + 1
                    && final(self)@ == old(self)@.push((behavior, h))
                    && final(out)@ == old(out)@.push(GlCommand::CreateSampler(h, behavior)),
            },
    {
        let n = self.entries.len();
        let mut i: usize = 0;
        while i < n
            invariant
                n == self.entries@.len(),
                i <= n,
                forall|j: int| 0 <= j < i ==> (#[trigger] self.entries@[j]).0 != behavior,
                self.wf(),
            decreases n - i,
        {
            if self.entries[i].0 == behavior {
                proof {
                    lemma_lookup_prefix_hit(self.entries@, behavior, i as int);
                }
                return self.entries[i].1;
            }
            i = i + 1;
        }
        proof {
            lemma_lookup(self.entries@, behavior);
            match spec_lookup(self.entries@, behavior) {
                Some(h0) => {
                    let k = choose|k: int|
                        0 <= k < self.entries@.len() && self.entries@[k].0 == behavior
                            && self.entries@[k].1 == h0;
                    assert(false);
                },
                None => {},
            }
        }
        let h = (n as u32) + 1;
        self.entries.push((behavior, h));
        out.push(GlCommand::CreateSampler(h, behavior));
        proof {
            lemma_lookup_last(self.entries@, behavior);
        }
        h
    }
}

/// When every entry before `i` misses and entry `i` hits, the lookup result
/// is entry `i`'s handle.
proof fn lemma_lookup_prefix_hit(
    entries: Seq<(SamplerBehavior, u32)>,
    behavior: SamplerBehavior,
    i: int,
)
    requires
        0 <= i < entries.len(),
        entries[i].0 == behavior,
        forall|j: int| 0 <= j < i ==> (#[trigger] entries[j]).0 != behavior,
    ensures
        spec_lookup(entries, behavior) == Some(entries[i].1),
    decreases i,
{
    if i > 0 {
        assert(entries.drop_first()[i - 1] == entries[i]);
        assert forall|j: int| 0 <= j < i - 1 implies (#[trigger] entries.drop_first()[j]).0
            != behavior by {
            assert(entries.drop_first()[j] == entries[j + 1]);
        }
        lemma_lookup_prefix_hit(entries.drop_first(), behavior, i - 1);
    }
}

/// When every entry but the last misses and the last entry's key matches,
/// the lookup result is the last entry's handle.
proof fn lemma_lookup_last(entries: Seq<(SamplerBehavior, u32)>, behavior: SamplerBehavior)
    requires
        entries.len() > 0,
        entries[entries.len() - 1].0 == behavior,
        forall|j: int| 0 <= j < entries.len() - 1 ==> (#[trigger] entries[j]).0 != behavior,
    ensures
        spec_lookup(entries, behavior) == Some(entries[entries.len() - 1].1),
{
    lemma_lookup_prefix_hit(entries, behavior, entries.len() - 1);
}

} // verus!
