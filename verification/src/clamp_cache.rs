//! A small bounded memory of clamp results, so that a resumed session that rebuilds the same
//! request many times pays for a resize only once. The oldest entry goes first.

use std::collections::hash_map::DefaultHasher;
use std::hash::Hasher;
use vstd::prelude::*;

verus! {

/// Upper bound on memoized clamp results. Each entry stores a downscaled image, so this is a few
/// tens of MB worst case.
pub const CACHE_CAPACITY: usize = 64;

// ---------------------------------------------------------------------------
// Keys
// ---------------------------------------------------------------------------

/// What a result is filed under: the payload, by its hash and length, and the edge limit.
#[derive(Debug, Clone, Copy, PartialEq, Eq, Structural, Hash)]
pub struct CacheKey {
    pub hash: u64,
    pub len: usize,
    pub max_edge: u32,
}

/// The hash of a text: its UTF-8 bytes and a closing byte that no text holds, hashed in turn.
pub open spec fn text_hash(text: Seq<char>) -> u64 {
    <DefaultHasher as vstd::std_specs::hash::DefaultHasherAdditionalSpecFns>::spec_finish(
        seq![vstd::utf8::encode_utf8(text), seq![0xFFu8]],
    )
}

/// Hashes a text with the standard library's default hasher.
pub fn hash_str(s: &str) -> (hash: u64)
    ensures
        hash == text_hash(s@),
{
    let mut hasher = DefaultHasher::new();
    hasher.write(s.as_bytes());
    let end: [u8; 1] = [0xFF];
    hasher.write(&end);
    assert(end@ =~= seq![0xFFu8]);
    assert(hasher@ =~= seq![vstd::utf8::encode_utf8(s@), seq![0xFFu8]]);
    hasher.finish()
}

// ---------------------------------------------------------------------------
// The cache
// ---------------------------------------------------------------------------

#[derive(Debug)]
struct CacheEntry {
    key: CacheKey,
    media_type: String,
    data: String,
}

/// Memoized clamp results, oldest first.
#[derive(Debug)]
pub struct ClampCache {
    entries: Vec<CacheEntry>,
}

/// One memoized result.
#[verifier::ext_equal]
pub struct CacheSlot {
    pub key: CacheKey,
    pub media_type: Seq<char>,
    pub data: Seq<char>,
}

impl CacheEntry {
    spec fn slot(self) -> CacheSlot {
        CacheSlot { key: self.key, media_type: self.media_type@, data: self.data@ }
    }
}

impl View for ClampCache {
    type V = Seq<CacheSlot>;

    closed spec fn view(&self) -> Seq<CacheSlot> {
        self.entries@.map_values(|entry: CacheEntry| entry.slot())
    }
}

/// Whether something is filed under `key`.
pub open spec fn holds_key(slots: Seq<CacheSlot>, key: CacheKey) -> bool {
    exists|i: int| 0 <= i < slots.len() && (#[trigger] slots[i]).key == key
}

/// Bounded, and nothing is filed twice.
pub open spec fn is_cache(slots: Seq<CacheSlot>) -> bool {
    &&& slots.len() <= CACHE_CAPACITY
    &&& forall|i: int, j: int|
        0 <= i < j < slots.len() ==> (#[trigger] slots[i]).key != (#[trigger] slots[j]).key
}

/// The slots with a result filed: one that is there already stays, and a full cache lets its
/// oldest slot go first.
pub open spec fn with_slot(slots: Seq<CacheSlot>, slot: CacheSlot) -> Seq<CacheSlot> {
    if holds_key(slots, slot.key) {
        slots
    } else if slots.len() >= CACHE_CAPACITY {
        slots.drop_first().push(slot)
    } else {
        slots.push(slot)
    }
}

impl ClampCache {
    /// An empty cache.
    pub fn new() -> (cache: Self)
        ensures
            cache@ == Seq::<CacheSlot>::empty(),
            is_cache(cache@),
    {
        let cache = ClampCache { entries: Vec::new() };
        assert(cache@ =~= Seq::<CacheSlot>::empty());
        cache
    }
}

/// Where an entry of that key stands.
fn position(entries: &Vec<CacheEntry>, key: &CacheKey) -> (found: Option<usize>)
    ensures
        match found {
            Some(at) => at < entries@.len() && entries@[at as int].key == *key,
            None => forall|i: int| 0 <= i < entries@.len() ==> (#[trigger] entries@[i]).key != *key,
        },
{
    let mut at: usize = 0;
    while at < entries.len()
        invariant
            at <= entries@.len(),
            forall|i: int| 0 <= i < at ==> (#[trigger] entries@[i]).key != *key,
        decreases entries@.len() - at,
    {
        if entries[at].key == *key {
            return Some(at);
        }
        at += 1;
    }
    None
}

/// The result filed under `key`.
pub fn cache_get(cache: &ClampCache, key: &CacheKey) -> (hit: Option<(String, String)>)
    ensures
        match hit {
            Some((media_type, data)) => cache@.contains(
                (CacheSlot { key: *key, media_type: media_type@, data: data@ }),
            ),
            None => !holds_key(cache@, *key),
        },
{
    match position(&cache.entries, key) {
        Some(at) => {
            let entry = &cache.entries[at];
            assert(cache@[at as int] == entry.slot());
            Some((entry.media_type.clone(), entry.data.clone()))
        },
        None => {
            assert forall|i: int| 0 <= i < cache@.len() implies (#[trigger] cache@[i]).key
                != *key by {
                assert(cache.entries@[i].key != *key);
            }
            None
        },
    }
}

/// Files a result under `key`.
pub fn cache_put(cache: &mut ClampCache, key: CacheKey, value: (String, String))
    requires
        is_cache(old(cache)@),
    ensures
        final(cache)@ == with_slot(
            old(cache)@,
            (CacheSlot { key, media_type: value.0@, data: value.1@ }),
        ),
        is_cache(final(cache)@),
{
    let ghost slots = cache@;
    let ghost slot = CacheSlot { key, media_type: value.0@, data: value.1@ };
    proof {
        law_filing_keeps_the_cache_bounded(slots, slot);
    }
    match position(&cache.entries, &key) {
        Some(at) => {
            assert(slots[at as int].key == key);
        },
        None => {
            assert forall|i: int| 0 <= i < slots.len() implies (#[trigger] slots[i]).key
                != key by {
                assert(cache.entries@[i].key != key);
            }
            if cache.entries.len() >= CACHE_CAPACITY {
                let _ = cache.entries.remove(0);
                assert(cache@ =~= slots.drop_first());
            }
            let ghost kept = cache@;
            cache.entries.push(CacheEntry { key, media_type: value.0, data: value.1 });
            assert(cache@ =~= kept.push(slot));
        },
    }
}

// ---------------------------------------------------------------------------
// Laws
// ---------------------------------------------------------------------------

/// Filing a result never outgrows the bound and never files a key twice.
pub proof fn law_filing_keeps_the_cache_bounded(slots: Seq<CacheSlot>, slot: CacheSlot)
    requires
        is_cache(slots),
    ensures
        is_cache(with_slot(slots, slot)),
{
}

/// A filed result is there to be read back, and only what the cache held before or what was filed
/// can be read at all.
pub proof fn law_what_is_filed_is_found(slots: Seq<CacheSlot>, slot: CacheSlot)
    ensures
        holds_key(with_slot(slots, slot), slot.key),
        !holds_key(slots, slot.key) ==> with_slot(slots, slot).last() == slot,
        forall|i: int|
            0 <= i < with_slot(slots, slot).len() ==> slots.contains(
                #[trigger] with_slot(slots, slot)[i],
            ) || with_slot(slots, slot)[i] == slot,
{
    let after = with_slot(slots, slot);
    if !holds_key(slots, slot.key) {
        assert(after[after.len() - 1] == slot);
    }
    assert forall|i: int| 0 <= i < after.len() implies slots.contains(#[trigger] after[i])
        || after[i] == slot by {
        if !holds_key(slots, slot.key) && slots.len() >= CACHE_CAPACITY && i < after.len() - 1 {
            assert(after[i] == slots[i + 1]);
        }
    }
}

/// Two results filed under one key are the same result: reading is unambiguous.
pub proof fn law_reading_is_unambiguous(slots: Seq<CacheSlot>, a: CacheSlot, b: CacheSlot)
    requires
        is_cache(slots),
        slots.contains(a),
        slots.contains(b),
        a.key == b.key,
    ensures
        a == b,
{
    let i = choose|i: int| 0 <= i < slots.len() && slots[i] == a;
    let j = choose|j: int| 0 <= j < slots.len() && slots[j] == b;
    if i < j {
        assert(slots[i].key != slots[j].key);
    } else if j < i {
        assert(slots[j].key != slots[i].key);
    }
}

/// The slots after a row of results is filed one by one.
pub open spec fn with_slots(slots: Seq<CacheSlot>, more: Seq<CacheSlot>) -> Seq<CacheSlot>
    decreases more.len(),
{
    if more.len() == 0 {
        slots
    } else {
        with_slot(with_slots(slots, more.drop_last()), more.last())
    }
}

/// First in, first out: a slot outlives as many further filings as the bound leaves room for
/// behind it.
pub proof fn law_a_slot_outlives_its_successors(
    slots: Seq<CacheSlot>,
    at: int,
    more: Seq<CacheSlot>,
)
    requires
        is_cache(slots),
        0 <= at < slots.len(),
        slots.len() - at + more.len() <= CACHE_CAPACITY,
    ensures
        with_slots(slots, more).contains(slots[at]),
{
    let place = lemma_slot_moves_forward(slots, at, more);
    assert(with_slots(slots, more)[place] == slots[at]);
}

/// Where a slot stands after further filings: each moves it at most one place toward the front.
proof fn lemma_slot_moves_forward(slots: Seq<CacheSlot>, at: int, more: Seq<CacheSlot>) -> (place:
    int)
    requires
        is_cache(slots),
        0 <= at < slots.len(),
        slots.len() - at + more.len() <= CACHE_CAPACITY,
    ensures
        0 <= place < with_slots(slots, more).len() <= CACHE_CAPACITY,
        with_slots(slots, more)[place] == slots[at],
        with_slots(slots, more).len() - place <= slots.len() - at + more.len(),
    decreases more.len(),
{
    if more.len() == 0 {
        at
    } else {
        let before = with_slots(slots, more.drop_last());
        let place = lemma_slot_moves_forward(slots, at, more.drop_last());
        if !holds_key(before, more.last().key) && before.len() >= CACHE_CAPACITY {
            place - 1
        } else {
            place
        }
    }
}

} // verus!
