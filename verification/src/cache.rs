//! Which render pipelines exist, and where each one is kept.
//!
//! A pipeline is created the first time its key is asked for and reused
//! after that. The cache holds the keys in the order their pipelines were
//! created, so the caller keeps the pipelines themselves in a list beside
//! it: pipeline `k` is the one made for key `k`.

use vstd::prelude::*;
use crate::pipeline::MaskState;

verus! {

/// What tells render pipelines apart: the render-target format (numbered
/// by the caller), the blend id, the stencil state, and whether the
/// pipeline draws the composite targets.
#[derive(Debug, Clone, Copy, PartialEq, Eq, Structural)]
pub struct PipelineKey {
    pub format_id: usize,
    pub blend_id: u8,
    pub mask: MaskState,
    pub is_composite: bool,
}

/// The keys of the pipelines created so far, each one once.
pub struct PipelineCache {
    keys: Vec<PipelineKey>,
}

impl View for PipelineCache {
    type V = Seq<PipelineKey>;

    closed spec fn view(&self) -> Seq<PipelineKey> {
        self.keys@
    }
}

/// Where a key's pipeline is kept, and whether it has to be created now.
#[derive(Debug, Clone, Copy, PartialEq, Eq, Structural)]
pub struct CacheSlot {
    pub index: usize,
    pub created: bool,
}

/// The keys after asking for the pipeline of `key`, and the slot given: a
/// known key keeps its slot, a new one is put at the end.
pub open spec fn spec_slot_for(keys: Seq<PipelineKey>, key: PipelineKey) -> (Seq<PipelineKey>, CacheSlot) {
    if keys.contains(key) {
        (keys, CacheSlot { index: keys.index_of(key) as usize, created: false })
    } else {
        (keys.push(key), CacheSlot { index: keys.len() as usize, created: true })
    }
}

impl PipelineCache {
    /// No key occurs twice.
    #[verifier::type_invariant]
    spec fn keys_distinct(&self) -> bool {
        self.keys@.no_duplicates()
    }

    pub fn new() -> (c: Self)
        ensures
            c@ == Seq::<PipelineKey>::empty(),
    {
        PipelineCache { keys: Vec::new() }
    }

    pub fn len(&self) -> (n: usize)
        ensures
            n == self@.len(),
    {
        self.keys.len()
    }

    /// The slot of the pipeline made for `key`, if there is one.
    pub fn find(&self, key: PipelineKey) -> (slot: Option<usize>)
        ensures
            self@.no_duplicates(),
            match slot {
                Some(k) => k < self@.len() && self@[k as int] == key && k == self@.index_of(key),
                None => !self@.contains(key),
            },
    {
        proof {
            use_type_invariant(self);
        }
        let mut i: usize = 0;
        while i < self.keys.len()
            invariant
                0 <= i <= self.keys@.len(),
                self.keys@.no_duplicates(),
                forall|j: int| 0 <= j < i ==> self.keys@[j] != key,
            decreases self.keys@.len() - i,
        {
            if self.keys[i] == key {
                proof {
                    assert(self.keys@.contains(key));
                    let c = self.keys@.index_of(key);
                    assert(0 <= c < self.keys@.len() && self.keys@[c] == key);
                    assert(c == i);
                }
                return Some(i);
            }
            i = i + 1;
        }
        None
    }

    /// The slot of the pipeline for `key`. A key asked for the first time
    /// gets a new slot at the end, and the caller creates its pipeline
    /// there; a known key keeps its slot and nothing changes.
    pub fn slot_for(&mut self, key: PipelineKey) -> (slot: CacheSlot)
        ensures
            old(self)@.no_duplicates(),
            final(self)@.no_duplicates(),
            (final(self)@, slot) == spec_slot_for(old(self)@, key),
            slot.index < final(self)@.len(),
            final(self)@[slot.index as int] == key,
    {
        proof {
            use_type_invariant(&*self);
        }
        match self.find(key) {
            Some(k) => CacheSlot { index: k, created: false },
            None => {
                let index = self.keys.len();
                proof {
                    lemma_push_new_key(self.keys@, key);
                }
                let mut keys: Vec<PipelineKey> = Vec::new();
                std::mem::swap(&mut keys, &mut self.keys);
                keys.push(key);
                self.keys = keys;
                CacheSlot { index, created: true }
            },
        }
    }
}

/// Appending a key that is not there keeps the keys distinct.
proof fn lemma_push_new_key(keys: Seq<PipelineKey>, key: PipelineKey)
    requires
        keys.no_duplicates(),
        !keys.contains(key),
    ensures
        keys.push(key).no_duplicates(),
{
    assert forall|a: int, b: int|
        0 <= a < keys.len() + 1 && 0 <= b < keys.len() + 1 && a != b implies #[trigger] keys.push(key)[a]
        != #[trigger] keys.push(key)[b] by {
        if b == keys.len() {
            assert(keys.contains(keys[a]));
        } else if a == keys.len() {
            assert(keys.contains(keys[b]));
        }
    }
}

/// A pipeline is made at most once per key: asking again for a key gives
/// the slot it got the first time, creates nothing and keeps the keys as
/// they were; and the keys stay distinct.
pub proof fn lemma_slot_for_twice(keys: Seq<PipelineKey>, key: PipelineKey)
    requires
        keys.no_duplicates(),
        keys.len() < usize::MAX,
    ensures
        ({
            let (once, first) = spec_slot_for(keys, key);
            let (twice, second) = spec_slot_for(once, key);
            &&& once.no_duplicates()
            &&& once[first.index as int] == key
            &&& twice == once
            &&& second == (CacheSlot { index: first.index, created: false })
        }),
{
    let (once, first) = spec_slot_for(keys, key);
    if keys.contains(key) {
        let c = keys.index_of(key);
        assert(0 <= c < keys.len() && keys[c] == key);
    } else {
        lemma_push_new_key(keys, key);
        assert(once[keys.len() as int] == key);
        assert(once.contains(key));
        let c = once.index_of(key);
        assert(0 <= c < once.len() && once[c] == key);
        if c < keys.len() {
            assert(keys[c] == key);
            assert(keys.contains(key));
        }
    }
}

} // verus!
