use crate::media_ref::MediaInfo;
use crate::probe::ProbeError;
use crate::rational::JadeRational;
use vstd::prelude::*;

verus! {

/// A stable, generation-checked handle to one entry in the media arena.
///
/// A key embeds the index of the slot it addresses and the generation the
/// slot had when the entry was inserted. Removing an entry bumps the
/// slot's generation, so a key held after its entry was removed can never
/// silently address a later occupant of the same slot.
#[derive(Debug, Copy, Clone, PartialEq, Eq, Hash, Structural)]
pub struct MediaKey {
    pub slot: usize,
    pub generation: u64,
}

/// One arena slot: the generation it is on and the entry it holds, if any.
#[derive(Debug)]
struct Slot {
    generation: u64,
    entry: Option<MediaInfo>,
}

/// A stable-keyed collection of imported media entries.
///
/// Entries live in a free-list-backed array of slots. Insertion reuses a
/// free slot when one exists and appends a slot otherwise; removal
/// empties the slot, bumps its generation and returns it to the free
/// list. A slot whose generation counter is exhausted is retired rather
/// than reused, so generations never wrap.
#[derive(Debug)]
pub struct MediaArena {
    slots: Vec<Slot>,
    free: Vec<usize>,
}

impl MediaArena {
    /// Whether `k` currently addresses a live entry.
    pub closed spec fn spec_live(self, k: MediaKey) -> bool {
        &&& k.slot < self.slots@.len()
        &&& self.slots@[k.slot as int].generation == k.generation
        &&& self.slots@[k.slot as int].entry is Some
    }

    /// The entries the arena holds, as a map from live key to entry.
    pub closed spec fn entries(self) -> Map<MediaKey, MediaInfo> {
        Map::new(
            |k: MediaKey| self.spec_live(k),
            |k: MediaKey| self.slots@[k.slot as int].entry.unwrap(),
        )
    }

    /// The free list names only empty slots, each at most once.
    pub closed spec fn wf(self) -> bool {
        &&& forall|i: int|
            0 <= i < self.free@.len() ==> (#[trigger] self.free@[i]) < self.slots@.len()
        &&& forall|i: int|
            0 <= i < self.free@.len()
                ==> self.slots@[#[trigger] self.free@[i] as int].entry is None
        &&& forall|i: int, j: int|
            0 <= i < j < self.free@.len() ==> self.free@[i] != self.free@[j]
    }

    pub fn new() -> (a: Self)
        ensures
            a.wf(),
            a.entries() == Map::<MediaKey, MediaInfo>::empty(),
    {
        let a = MediaArena { slots: Vec::new(), free: Vec::new() };
        proof {
            assert(a.entries() =~= Map::<MediaKey, MediaInfo>::empty());
        }
        a
    }

    /// Insert an entry and return the fresh key that now addresses it.
    /// The key is distinct from every key currently in use.
    pub fn insert(&mut self, entry: MediaInfo) -> (k: MediaKey)
        requires
            old(self).wf(),
        ensures
            final(self).wf(),
            !old(self).entries().contains_key(k),
            final(self).entries() == old(self).entries().insert(k, entry),
    {
        let ghost prev = *self;
        match self.free.pop() {
            Some(idx) => {
                let generation = self.slots[idx].generation;
                self.slots[idx] = Slot { generation, entry: Some(entry) };
                let k = MediaKey { slot: idx, generation };
                proof {
                    assert(prev.free@.last() == idx);
                    assert(self.free@ == prev.free@.drop_last());
                    assert(forall|i: int|
                        0 <= i < self.free@.len()
                            ==> #[trigger] self.free@[i] == prev.free@[i]);
                    assert(self.entries() =~= prev.entries().insert(k, entry));
                }
                k
            },
            None => {
                let idx = self.slots.len();
                self.slots.push(Slot { generation: 0, entry: Some(entry) });
                let k = MediaKey { slot: idx, generation: 0 };
                proof {
                    assert(self.entries() =~= prev.entries().insert(k, entry));
                }
                k
            },
        }
    }

    /// Remove the entry `k` addresses, if it is live. Returns whether it
    /// was; removing an absent or stale key is not an error.
    pub fn remove(&mut self, k: MediaKey) -> (present: bool)
        requires
            old(self).wf(),
        ensures
            final(self).wf(),
            present == old(self).entries().contains_key(k),
            final(self).entries() == old(self).entries().remove(k),
    {
        let ghost prev = *self;
        if k.slot >= self.slots.len() {
            proof {
                assert(self.entries() =~= prev.entries().remove(k));
            }
            return false;
        }
        let generation = self.slots[k.slot].generation;
        let occupied = self.slots[k.slot].entry.is_some();
        if generation != k.generation || !occupied {
            proof {
                assert(self.entries() =~= prev.entries().remove(k));
            }
            return false;
        }
        if generation == u64::MAX {
            // The slot's generation space is exhausted: retire it rather
            // than risk a stale key matching a future occupant.
            self.slots[k.slot] = Slot { generation, entry: None };
        } else {
            self.slots[k.slot] = Slot { generation: generation + 1, entry: None };
            self.free.push(k.slot);
        }
        proof {
            assert(forall|i: int|
                0 <= i < prev.free@.len()
                    ==> #[trigger] prev.free@[i] != k.slot);
            assert(self.entries() =~= prev.entries().remove(k));
        }
        true
    }

    /// Look up the entry `k` addresses. A removed or stale key yields
    /// `None`; it never aliases another entry.
    pub fn get(&self, k: MediaKey) -> (r: Option<&MediaInfo>)
        ensures
            match r {
                Some(entry) => self.entries().contains_key(k) && *entry == self.entries()[k],
                None => !self.entries().contains_key(k),
            },
    {
        if k.slot >= self.slots.len() {
            return None;
        }
        let slot = &self.slots[k.slot];
        if slot.generation != k.generation {
            return None;
        }
        match &slot.entry {
            Some(entry) => Some(entry),
            None => None,
        }
    }
}

/// The top-level project aggregate: the target frame rate, the project
/// length in frames, and the keyed collection of imported media.
#[derive(Debug)]
pub struct MediaProject {
    pub fps: JadeRational,
    pub frame_count: u32,
    pub media: MediaArena,
}

impl MediaProject {
    pub open spec fn wf(self) -> bool {
        self.media.wf()
    }

    pub fn new(fps: JadeRational, frame_count: u32) -> (p: Self)
        ensures
            p.wf(),
            p.fps == fps,
            p.frame_count == frame_count,
            p.media.entries() == Map::<MediaKey, MediaInfo>::empty(),
    {
        MediaProject { fps, frame_count, media: MediaArena::new() }
    }

    /// Insert a probed entry into the media collection and return its
    /// key. No two calls return the same key while both entries are live.
    pub fn import(&mut self, entry: MediaInfo) -> (k: MediaKey)
        requires
            old(self).wf(),
        ensures
            final(self).wf(),
            final(self).fps == old(self).fps,
            final(self).frame_count == old(self).frame_count,
            !old(self).media.entries().contains_key(k),
            final(self).media.entries() == old(self).media.entries().insert(k, entry),
    {
        self.media.insert(entry)
    }

    /// Remove the entry `k` addresses if it is present, and say whether
    /// it was. Removing an absent or stale key is not an error.
    pub fn remove(&mut self, k: MediaKey) -> (present: bool)
        requires
            old(self).wf(),
        ensures
            final(self).wf(),
            final(self).fps == old(self).fps,
            final(self).frame_count == old(self).frame_count,
            present == old(self).media.entries().contains_key(k),
            final(self).media.entries() == old(self).media.entries().remove(k),
    {
        self.media.remove(k)
    }

    /// Look up the entry `k` addresses, if it is still live.
    pub fn get(&self, k: MediaKey) -> (r: Option<&MediaInfo>)
        ensures
            match r {
                Some(entry) => {
                    &&& self.media.entries().contains_key(k)
                    &&& *entry == self.media.entries()[k]
                },
                None => !self.media.entries().contains_key(k),
            },
    {
        self.media.get(k)
    }

    /// Take a probe's outcome into the project: a successful probe is
    /// imported, a failed one is surfaced unchanged and leaves the media
    /// collection — and the whole project — untouched.
    pub fn import_probed(&mut self, probed: Result<MediaInfo, ProbeError>) -> (r: Result<
        MediaKey,
        ProbeError,
    >)
        requires
            old(self).wf(),
        ensures
            final(self).wf(),
            probed matches Err(e) ==> r == Err::<MediaKey, ProbeError>(e) && *final(self)
                == *old(self),
            probed matches Ok(entry) ==> {
                &&& r matches Ok(k)
                &&& !old(self).media.entries().contains_key(k)
                &&& final(self).media.entries() == old(self).media.entries().insert(k, entry)
                &&& final(self).fps == old(self).fps
                &&& final(self).frame_count == old(self).frame_count
            },
    {
        match probed {
            Ok(entry) => Ok(self.import(entry)),
            Err(e) => Err(e),
        }
    }
}

/// Two successive imports hand out distinct keys: each import's key is
/// absent from the collection it was handed out against, and afterwards
/// both keys address exactly the entry they were returned for.
pub proof fn lemma_import_twice_distinct(
    m: Map<MediaKey, MediaInfo>,
    k1: MediaKey,
    k2: MediaKey,
    e1: MediaInfo,
    e2: MediaInfo,
)
    requires
        !m.contains_key(k1),
        !m.insert(k1, e1).contains_key(k2),
    ensures
        k1 != k2,
        m.insert(k1, e1).insert(k2, e2)[k1] == e1,
        m.insert(k1, e1).insert(k2, e2)[k2] == e2,
{
}

/// Removing one live key never disturbs another: the removed key's
/// lookups come back absent while every other key still addresses the
/// entry it did before.
pub proof fn lemma_remove_keeps_other(
    m: Map<MediaKey, MediaInfo>,
    k1: MediaKey,
    k2: MediaKey,
)
    requires
        m.contains_key(k1),
        m.contains_key(k2),
        k1 != k2,
    ensures
        !m.remove(k1).contains_key(k1),
        m.remove(k1).contains_key(k2),
        m.remove(k1)[k2] == m[k2],
{
}

} // verus!
