//! A key-value store whose entries expire: an in-process store with the
//! contract that the lookup expects of its cache.
//!
//! Time is a count of seconds that the caller supplies. An entry is written
//! with the time of the call and a time to live; once that many seconds have
//! passed it is no longer found, though nothing removes it.

use crate::model::{SearchResult, SearchResultView};
use vstd::prelude::*;

verus! {

/// What the store keeps under one key.
pub ghost struct EntryView {
    pub value: SearchResultView,
    pub written_at: nat,
    pub ttl_seconds: nat,
}

/// Seconds that have passed at `now` since `written_at`; none, if the clock
/// reads earlier than when the entry was written.
pub open spec fn elapsed(written_at: nat, now: nat) -> nat {
    if now >= written_at {
        (now - written_at) as nat
    } else {
        0
    }
}

impl EntryView {
    /// An entry can be read while fewer seconds have passed than it was given.
    pub open spec fn live_at(self, now: nat) -> bool {
        elapsed(self.written_at, now) < self.ttl_seconds
    }
}

/// What a read of `key` at `now` finds in `entries`: the value of a live
/// entry, and nothing where the key is absent or its entry has expired.
pub open spec fn lookup(entries: Map<Seq<char>, EntryView>, key: Seq<char>, now: nat) -> Option<
    SearchResultView,
> {
    if entries.dom().contains(key) && entries[key].live_at(now) {
        Some(entries[key].value)
    } else {
        None
    }
}

/// What a write leaves behind: the entry under `key` is replaced whole, and
/// its clock starts at `now`.
pub open spec fn stored(
    entries: Map<Seq<char>, EntryView>,
    key: Seq<char>,
    value: SearchResultView,
    ttl_seconds: nat,
    now: nat,
) -> Map<Seq<char>, EntryView> {
    entries.insert(key, EntryView { value, written_at: now, ttl_seconds })
}

/// One slot of the store: a key, and what was last written under it.
struct CacheEntry {
    key: String,
    value: SearchResult,
    written_at: u64,
    ttl_seconds: u64,
}

impl CacheEntry {
    spec fn entry_view(&self) -> EntryView {
        EntryView {
            value: self.value@,
            written_at: self.written_at as nat,
            ttl_seconds: self.ttl_seconds as nat,
        }
    }
}

/// Whether `slots` holds `key` at index `i`.
spec fn holds_at(slots: Seq<CacheEntry>, key: Seq<char>, i: int) -> bool {
    0 <= i < slots.len() && slots[i].key@ == key
}

/// No key is held twice.
spec fn distinct_keys(slots: Seq<CacheEntry>) -> bool {
    forall|i: int, j: int|
        0 <= i < slots.len() && 0 <= j < slots.len() && #[trigger] slots[i].key@
            == #[trigger] slots[j].key@ ==> i == j
}

/// The slots as a map from key to entry.
spec fn entries_of(slots: Seq<CacheEntry>) -> Map<Seq<char>, EntryView> {
    Map::new(
        |key: Seq<char>| exists|i: int| holds_at(slots, key, i),
        |key: Seq<char>| slots[choose|i: int| holds_at(slots, key, i)].entry_view(),
    )
}

/// The store. Its view maps each key that was ever written to the entry last
/// written under it.
pub struct CacheStore {
    slots: Vec<CacheEntry>,
}

impl View for CacheStore {
    type V = Map<Seq<char>, EntryView>;

    closed spec fn view(&self) -> Map<Seq<char>, EntryView> {
        entries_of(self.slots@)
    }
}

impl CacheStore {
    #[verifier::type_invariant]
    spec fn well_formed(&self) -> bool {
        distinct_keys(self.slots@)
    }

    /// An empty store.
    pub fn new() -> (store: CacheStore)
        ensures
            store@ == Map::<Seq<char>, EntryView>::empty(),
    {
        let store = CacheStore { slots: Vec::new() };
        assert(store@ =~= Map::<Seq<char>, EntryView>::empty());
        store
    }

    /// Index of the slot that holds `key`, if one does.
    fn position(&self, key: &String) -> (found: Option<usize>)
        ensures
            match found {
                Some(i) => holds_at(self.slots@, key@, i as int),
                None => forall|i: int| !holds_at(self.slots@, key@, i),
            },
    {
        let mut i: usize = 0;
        while i < self.slots.len()
            invariant
                i <= self.slots@.len(),
                forall|j: int| 0 <= j < i ==> !holds_at(self.slots@, key@, j),
            decreases self.slots@.len() - i,
        {
            if self.slots[i].key == *key {
                return Some(i);
            }
            i += 1;
        }
        None
    }

    /// Reads `key` at time `now`: a copy of the value last written under it,
    /// unless none was written or the entry has expired.
    pub fn get(&self, key: &str, now: u64) -> (found: Option<SearchResult>)
        ensures
            match found {
                Some(value) => lookup(self@, key@, now as nat) == Some(value@),
                None => lookup(self@, key@, now as nat) is None,
            },
    {
        proof {
            use_type_invariant(self);
        }
        let wanted = key.to_owned();
        match self.position(&wanted) {
            None => None,
            Some(i) => {
                let slot = &self.slots[i];
                proof {
                    lemma_held(self.slots@, key@, i as int);
                }
                let passed = if now >= slot.written_at {
                    now - slot.written_at
                } else {
                    0
                };
                if passed < slot.ttl_seconds {
                    Some(slot.value.clone())
                } else {
                    None
                }
            },
        }
    }

    /// Writes `value` under `key` at time `now`, to be found for
    /// `ttl_seconds` from then on. An earlier entry for the key is replaced
    /// whole; no other key is touched.
    pub fn put(&mut self, key: &str, value: SearchResult, ttl_seconds: u64, now: u64)
        ensures
            final(self)@ == stored(old(self)@, key@, value@, ttl_seconds as nat, now as nat),
    {
        proof {
            use_type_invariant(&*self);
        }
        let owned = key.to_owned();
        let found = self.position(&owned);
        let entry = CacheEntry { key: owned, value, written_at: now, ttl_seconds };
        let ghost before = self.slots@;
        let ghost written = entry.entry_view();
        let mut slots: Vec<CacheEntry> = Vec::new();
        std::mem::swap(&mut self.slots, &mut slots);
        match found {
            Some(i) => {
                slots[i] = entry;
                proof {
                    lemma_replaced(before, slots@, key@, i as int);
                }
            },
            None => {
                slots.push(entry);
                proof {
                    lemma_appended(before, slots@, key@);
                }
            },
        }
        std::mem::swap(&mut self.slots, &mut slots);
    }
}

/// In a sequence without repeated keys, the slot that holds a key is the one
/// that the view gives for it.
proof fn lemma_held(slots: Seq<CacheEntry>, key: Seq<char>, i: int)
    requires
        distinct_keys(slots),
        holds_at(slots, key, i),
    ensures
        entries_of(slots).dom().contains(key),
        entries_of(slots)[key] == slots[i].entry_view(),
{
    let chosen = choose|j: int| holds_at(slots, key, j);
    assert(holds_at(slots, key, chosen));
    assert(slots[chosen].key@ == slots[i].key@);
}

/// Overwriting the slot that holds `key` with another entry for `key` is an
/// insertion into the view.
proof fn lemma_replaced(before: Seq<CacheEntry>, after: Seq<CacheEntry>, key: Seq<char>, i: int)
    requires
        distinct_keys(before),
        holds_at(before, key, i),
        after == before.update(i, after[i]),
        after[i].key@ == key,
    ensures
        distinct_keys(after),
        entries_of(after) == entries_of(before).insert(key, after[i].entry_view()),
{
    assert forall|a: int, b: int|
        0 <= a < after.len() && 0 <= b < after.len() && #[trigger] after[a].key@
            == #[trigger] after[b].key@ implies a == b by {
        assert(before[a].key@ == after[a].key@);
        assert(before[b].key@ == after[b].key@);
    }
    let expected = entries_of(before).insert(key, after[i].entry_view());
    assert forall|k: Seq<char>| entries_of(after).dom().contains(k) <==> expected.dom().contains(
        k,
    ) by {
        if entries_of(after).dom().contains(k) {
            let j = choose|j: int| holds_at(after, k, j);
            assert(before[j].key@ == after[j].key@);
            assert(holds_at(before, k, j));
        }
        if expected.dom().contains(k) {
            if k == key {
                assert(holds_at(after, k, i));
            } else {
                let j = choose|j: int| holds_at(before, k, j);
                assert(holds_at(after, k, j));
            }
        }
    }
    assert forall|k: Seq<char>| entries_of(after).dom().contains(k) implies entries_of(after)[k]
        == expected[k] by {
        let j = choose|j: int| holds_at(after, k, j);
        lemma_held(after, k, j);
        if k != key {
            assert(holds_at(before, k, j));
            lemma_held(before, k, j);
        }
    }
    assert(entries_of(after) =~= expected);
}

/// Appending an entry for a key that no slot holds is an insertion into the
/// view.
proof fn lemma_appended(before: Seq<CacheEntry>, after: Seq<CacheEntry>, key: Seq<char>)
    requires
        distinct_keys(before),
        forall|i: int| !holds_at(before, key, i),
        after == before.push(after.last()),
        after.len() == before.len() + 1,
        after.last().key@ == key,
    ensures
        distinct_keys(after),
        entries_of(after) == entries_of(before).insert(key, after.last().entry_view()),
{
    let last = after.len() - 1;
    assert forall|a: int, b: int|
        0 <= a < after.len() && 0 <= b < after.len() && #[trigger] after[a].key@
            == #[trigger] after[b].key@ implies a == b by {
        if a < last {
            assert(before[a].key@ == after[a].key@);
            assert(!holds_at(before, key, a));
        }
        if b < last {
            assert(before[b].key@ == after[b].key@);
            assert(!holds_at(before, key, b));
        }
    }
    let expected = entries_of(before).insert(key, after.last().entry_view());
    assert forall|k: Seq<char>| entries_of(after).dom().contains(k) <==> expected.dom().contains(
        k,
    ) by {
        if entries_of(after).dom().contains(k) {
            let j = choose|j: int| holds_at(after, k, j);
            if j < last {
                assert(before[j].key@ == after[j].key@);
                assert(holds_at(before, k, j));
            }
        }
        if expected.dom().contains(k) {
            if k == key {
                assert(holds_at(after, k, last));
            } else {
                let j = choose|j: int| holds_at(before, k, j);
                assert(before[j].key@ == after[j].key@);
                assert(holds_at(after, k, j));
            }
        }
    }
    assert forall|k: Seq<char>| entries_of(after).dom().contains(k) implies entries_of(after)[k]
        == expected[k] by {
        let j = choose|j: int| holds_at(after, k, j);
        lemma_held(after, k, j);
        if k != key {
            assert(before[j] == after[j]);
            assert(holds_at(before, k, j));
            lemma_held(before, k, j);
        }
    }
    assert(entries_of(after) =~= expected);
}

} // verus!
