//! Generational slot storage for persistent resources.
//!
//! Keys are 64-bit values: the slot index in the low 32 bits and the slot's
//! generation in the high 32 bits. A slot's generation is odd while the slot
//! is occupied and even while it is vacant; every removal and every insertion
//! moves it on by one, so the key that reuses a slot never equals the key
//! whose removal vacated it.
//!
//! The storage itself is `slotmap::SlotMap`. What is assumed of it is stated
//! on the five private functions at the top of this file; everything else is
//! proved from those statements.

use crate::resource::Resource;
use slotmap::DefaultKey;
use slotmap::Key;
use slotmap::KeyData;
use slotmap::SlotMap;
use vstd::prelude::*;

verus! {

/// A `slotmap::SlotMap` keyed by `slotmap::DefaultKey`. Nothing is known of
/// it but what the five functions below state over the two names that follow.
#[verifier::external_body]
pub struct SlotStore {
    inner: SlotMap<DefaultKey, Resource>,
}

/// The values a store holds, by the 64-bit form of their keys.
pub uninterp spec fn slot_entries(store: SlotStore) -> Map<u64, Resource>;

/// The generation counter of each slot a store has ever created, by slot
/// index. Index 0 is a sentinel that is never handed out.
pub uninterp spec fn slot_versions(store: SlotStore) -> Seq<u32>;

/// The slot a key points at.
pub open spec fn key_index(key: u64) -> u32 {
    (key & 0xffff_ffff) as u32
}

/// The generation a key was issued for.
pub open spec fn key_version(key: u64) -> u32 {
    (key >> 32) as u32
}

/// Reads the slot index out of a key.
pub fn slot_of_key(key: u64) -> (index: u32)
    ensures
        index == key_index(key),
{
    let low: u64 = key & 0xffff_ffff;
    low as u32
}

/// Reads the generation out of a key.
pub fn generation_of_key(key: u64) -> (version: u32)
    ensures
        version == key_version(key),
{
    let high: u64 = key >> 32;
    high as u32
}

/// The generation that follows `version` after a removal.
pub open spec fn next_version(version: u32) -> u32 {
    if version == u32::MAX {
        0
    } else {
        (version + 1) as u32
    }
}

/// What an insertion does: it occupies one slot, either a vacant one, whose
/// generation moves up by one to an odd value, or a new one at the end, whose
/// generation starts at 1; the key returned names that slot and generation,
/// and the value is stored under it.
pub open spec fn slot_inserted(
    entries: Map<u64, Resource>,
    versions: Seq<u32>,
    value: Resource,
    key: u64,
    entries_after: Map<u64, Resource>,
    versions_after: Seq<u32>,
) -> bool {
    let i = key_index(key) as int;
    &&& 1 <= i <= versions.len()
    &&& i < versions.len() ==> versions[i] % 2 == 0 && key_version(key) == versions[i] + 1
        && versions_after == versions.update(i, key_version(key))
    &&& i == versions.len() ==> key_version(key) == 1 && versions_after == versions.push(1)
    &&& entries_after == entries.insert(key, value)
}

/// What the removal of a live key does: the value leaves, and the slot's
/// generation moves on by one, to an even value.
pub open spec fn slot_removed(
    entries: Map<u64, Resource>,
    versions: Seq<u32>,
    key: u64,
    entries_after: Map<u64, Resource>,
    versions_after: Seq<u32>,
) -> bool {
    &&& entries_after == entries.remove(key)
    &&& versions_after == versions.update(
        key_index(key) as int,
        next_version(versions[key_index(key) as int]),
    )
}

/// Calls `SlotMap::new`: the new map holds nothing and has only its sentinel
/// slot, at generation 0.
#[verifier::external_body]
fn store_new() -> (store: SlotStore)
    ensures
        forall|key: u64| !slot_entries(store).contains_key(key),
        slot_versions(store).len() == 1,
        slot_versions(store)[0] == 0,
{
    SlotStore { inner: SlotMap::new() }
}

/// Calls `SlotMap::insert`, which panics only when it would need a slot
/// beyond index `u32::MAX - 1`. It takes the slot at the head of its free
/// list, or appends one, sets the slot's generation to the odd value that
/// follows, and returns the key made of slot index and generation.
#[verifier::external_body]
fn store_insert(store: &mut SlotStore, value: Resource) -> (key: u64)
    requires
        slot_versions(*old(store)).len() < u32::MAX,
    ensures
        slot_inserted(
            slot_entries(*old(store)),
            slot_versions(*old(store)),
            value,
            key,
            slot_entries(*final(store)),
            slot_versions(*final(store)),
        ),
{
    store.inner.insert(value).data().as_ffi()
}

/// Calls `SlotMap::remove`. A key whose slot exists and is at the key's
/// generation is live: its value is returned and the slot's generation is
/// advanced by a wrapping increment. Any other key leaves the map as it was.
/// Keys are passed in with an odd generation, so that `KeyData::from_ffi`
/// gives back exactly the key that `as_ffi` was taken from.
#[verifier::external_body]
fn store_remove(store: &mut SlotStore, key: u64) -> (r: Option<Resource>)
    requires
        key_version(key) % 2 == 1,
    ensures
        r is Some <==> slot_entries(*old(store)).contains_key(key),
        r matches Some(value) ==> value == slot_entries(*old(store))[key] && slot_removed(
            slot_entries(*old(store)),
            slot_versions(*old(store)),
            key,
            slot_entries(*final(store)),
            slot_versions(*final(store)),
        ),
        r is None ==> slot_entries(*final(store)) == slot_entries(*old(store)),
        r is None ==> slot_versions(*final(store)) == slot_versions(*old(store)),
{
    store.inner.remove(DefaultKey::from(KeyData::from_ffi(key)))
}

/// Calls `SlotMap::get` and copies the value out: the value under a live
/// key, nothing for any other key.
#[verifier::external_body]
fn store_get(store: &SlotStore, key: u64) -> (r: Option<Resource>)
    requires
        key_version(key) % 2 == 1,
    ensures
        r is Some <==> slot_entries(*store).contains_key(key),
        r matches Some(value) ==> value == slot_entries(*store)[key],
{
    store.inner.get(DefaultKey::from(KeyData::from_ffi(key))).copied()
}

/// Calls `SlotMap::get_mut`: a reference to the value under a live key,
/// through which that value, and nothing else of the map, can be changed.
#[verifier::external_body]
fn store_get_mut(store: &mut SlotStore, key: u64) -> (r: Option<&mut Resource>)
    requires
        key_version(key) % 2 == 1,
    ensures
        r is Some <==> slot_entries(*old(store)).contains_key(key),
        r matches Some(value) ==> *value == slot_entries(*old(store))[key],
        r matches Some(value) ==> slot_entries(*final(store)) == slot_entries(*old(store)).insert(
            key,
            *final(value),
        ),
        r is Some ==> slot_versions(*final(store)) == slot_versions(*old(store)),
        r is None ==> slot_entries(*final(store)) == slot_entries(*old(store)),
        r is None ==> slot_versions(*final(store)) == slot_versions(*old(store)),
{
    store.inner.get_mut(DefaultKey::from(KeyData::from_ffi(key)))
}

/// The most insertions one table accepts over its lifetime. Each insertion
/// may create a slot, and slot indices must stay below `u32::MAX`.
pub const MAX_INSERTIONS: u32 = 4294967294;

/// `key` names an existing slot that stands at the key's generation, and that
/// generation is odd.
pub open spec fn key_matches(versions: Seq<u32>, key: u64) -> bool {
    &&& key_index(key) < versions.len()
    &&& versions[key_index(key) as int] == key_version(key)
    &&& key_version(key) % 2 == 1
}

/// Entries and slot generations agree: a key is live exactly when it matches
/// its slot.
pub open spec fn slots_coherent(entries: Map<u64, Resource>, versions: Seq<u32>) -> bool {
    forall|key: u64|
        #![trigger entries.contains_key(key)]
        #![trigger key_matches(versions, key)]
        entries.contains_key(key) <==> key_matches(versions, key)
}

/// The value stored under `key`, if the key is live.
pub open spec fn lookup(entries: Map<u64, Resource>, key: u64) -> Option<Resource> {
    if entries.contains_key(key) {
        Some(entries[key])
    } else {
        None
    }
}

/// A key is determined by its slot index and its generation.
pub proof fn lemma_key_parts(a: u64, b: u64)
    requires
        key_index(a) == key_index(b),
        key_version(a) == key_version(b),
    ensures
        a == b,
{
    assert(a == b) by (bit_vector)
        requires
            (a & 0xffff_ffff) as u32 == (b & 0xffff_ffff) as u32,
            (a >> 32) as u32 == (b >> 32) as u32,
    ;
}

/// An insertion keeps entries and generations in agreement, and the key it
/// returns was not live before and has an odd generation.
pub proof fn lemma_insert_coherent(
    entries: Map<u64, Resource>,
    versions: Seq<u32>,
    value: Resource,
    key: u64,
    entries_after: Map<u64, Resource>,
    versions_after: Seq<u32>,
)
    requires
        slots_coherent(entries, versions),
        slot_inserted(entries, versions, value, key, entries_after, versions_after),
    ensures
        slots_coherent(entries_after, versions_after),
        !entries.contains_key(key),
        key_version(key) % 2 == 1,
        versions_after.len() <= versions.len() + 1,
{
    assert forall|k: u64| entries_after.contains_key(k) <==> key_matches(versions_after, k) by {
        let i = key_index(key) as int;
        let j = key_index(k) as int;
        if j == i && key_version(k) == key_version(key) {
            lemma_key_parts(k, key);
        }
    }
}

/// The removal of a live key keeps entries and generations in agreement.
pub proof fn lemma_remove_coherent(
    entries: Map<u64, Resource>,
    versions: Seq<u32>,
    key: u64,
    entries_after: Map<u64, Resource>,
    versions_after: Seq<u32>,
)
    requires
        slots_coherent(entries, versions),
        entries.contains_key(key),
        slot_removed(entries, versions, key, entries_after, versions_after),
    ensures
        slots_coherent(entries_after, versions_after),
        versions_after.len() == versions.len(),
{
    assert forall|k: u64| entries_after.contains_key(k) <==> key_matches(versions_after, k) by {
        let i = key_index(key) as int;
        let j = key_index(k) as int;
        if j == i && key_version(k) == key_version(key) {
            lemma_key_parts(k, key);
        }
    }
}

/// A key that is removed and whose slot is later taken again is not the key
/// that takes it: the new key has a different generation, and the old key
/// stays dead. Whatever happened in between, as long as the slot itself was
/// left alone, does not matter.
pub proof fn lemma_reused_slot_has_new_generation(
    entries: Map<u64, Resource>,
    versions: Seq<u32>,
    freed: u64,
    entries_vacated: Map<u64, Resource>,
    versions_vacated: Seq<u32>,
    entries_later: Map<u64, Resource>,
    versions_later: Seq<u32>,
    value: Resource,
    reused: u64,
    entries_after: Map<u64, Resource>,
    versions_after: Seq<u32>,
)
    requires
        slots_coherent(entries, versions),
        entries.contains_key(freed),
        slot_removed(entries, versions, freed, entries_vacated, versions_vacated),
        slots_coherent(entries_later, versions_later),
        key_index(freed) < versions_later.len(),
        versions_later[key_index(freed) as int] == versions_vacated[key_index(freed) as int],
        slot_inserted(entries_later, versions_later, value, reused, entries_after, versions_after),
        key_index(reused) == key_index(freed),
    ensures
        key_version(reused) != key_version(freed),
        reused != freed,
        !entries_after.contains_key(freed),
        lookup(entries_after, freed) is None,
{
}

/// The keys of `keys` together with the values they are removed with when
/// the keys are removed in order: each live key once, where it first occurs.
pub open spec fn removed_pairs(entries: Map<u64, Resource>, keys: Seq<u64>) -> Seq<(u64, Resource)>
    decreases keys.len(),
{
    if keys.len() == 0 {
        Seq::empty()
    } else {
        let before = keys.drop_last();
        let key = keys.last();
        let earlier = removed_pairs(entries, before);
        if entries.contains_key(key) && !before.contains(key) {
            earlier.push((key, entries[key]))
        } else {
            earlier
        }
    }
}

/// The pairs removed are distinct live keys of `keys` with their values, and
/// every live key of `keys` is among them.
pub proof fn lemma_removed_pairs(entries: Map<u64, Resource>, keys: Seq<u64>)
    ensures
        forall|j: int|
            0 <= j < removed_pairs(entries, keys).len() ==> {
                let pair = #[trigger] removed_pairs(entries, keys)[j];
                entries.contains_key(pair.0) && pair.1 == entries[pair.0] && keys.contains(pair.0)
            },
        forall|a: int, b: int|
            0 <= a < b < removed_pairs(entries, keys).len() ==> (#[trigger] removed_pairs(
                entries,
                keys,
            )[a]).0 != (#[trigger] removed_pairs(entries, keys)[b]).0,
        forall|key: u64|
            entries.contains_key(key) && keys.contains(key) ==> exists|j: int|
                0 <= j < removed_pairs(entries, keys).len() && (#[trigger] removed_pairs(
                    entries,
                    keys,
                )[j]).0 == key,
    decreases keys.len(),
{
    if keys.len() > 0 {
        let before = keys.drop_last();
        let earlier = removed_pairs(entries, before);
        let pairs = removed_pairs(entries, keys);
        lemma_removed_pairs(entries, before);
        assert forall|j: int| 0 <= j < pairs.len() implies {
            let pair = #[trigger] pairs[j];
            entries.contains_key(pair.0) && pair.1 == entries[pair.0] && keys.contains(pair.0)
        } by {
            if j < earlier.len() {
                let pair = earlier[j];
            }
        }
        assert forall|key: u64| entries.contains_key(key) && keys.contains(key) implies exists|
            j: int,
        |
            0 <= j < pairs.len() && (#[trigger] pairs[j]).0 == key by {
            let w = choose|w: int| 0 <= w < keys.len() && keys[w] == key;
            if before.contains(key) {
                let j = choose|j: int| 0 <= j < earlier.len() && (#[trigger] earlier[j]).0 == key;
                assert(pairs[j].0 == key);
            } else {
                if w < before.len() {
                    assert(before[w] == key);
                }
                assert(pairs[pairs.len() - 1].0 == key);
            }
        }
    }
}

/// The keys named by `keys`, as a set.
pub open spec fn key_set(keys: Seq<u64>) -> Set<u64> {
    Set::new(|key: u64| keys.contains(key))
}

/// Some live key of `keys` occupies slot `index`.
pub open spec fn slot_vacated(entries: Map<u64, Resource>, keys: Seq<u64>, index: int) -> bool {
    exists|j: int|
        0 <= j < keys.len() && entries.contains_key(#[trigger] keys[j]) && key_index(keys[j])
            == index
}

/// The generations after every live key of `keys` has been removed: each
/// slot that held one has moved on by one, every other slot is as before.
pub open spec fn generations_after_removal(
    entries: Map<u64, Resource>,
    versions: Seq<u32>,
    keys: Seq<u64>,
) -> Seq<u32> {
    Seq::new(
        versions.len(),
        |index: int|
            if slot_vacated(entries, keys, index) {
                next_version(versions[index])
            } else {
                versions[index]
            },
    )
}

/// Removing all of `keys` keeps entries and generations in agreement.
pub proof fn lemma_removal_coherent(
    entries: Map<u64, Resource>,
    versions: Seq<u32>,
    keys: Seq<u64>,
)
    requires
        slots_coherent(entries, versions),
    ensures
        slots_coherent(
            entries.remove_keys(key_set(keys)),
            generations_after_removal(entries, versions, keys),
        ),
        generations_after_removal(entries, versions, keys).len() == versions.len(),
{
    let entries_after = entries.remove_keys(key_set(keys));
    let versions_after = generations_after_removal(entries, versions, keys);
    assert forall|key: u64| entries_after.contains_key(key) <==> key_matches(
        versions_after,
        key,
    ) by {
        let index = key_index(key) as int;
        if slot_vacated(entries, keys, index) {
            let w = choose|w: int|
                0 <= w < keys.len() && entries.contains_key(#[trigger] keys[w]) && key_index(
                    keys[w],
                ) == index;
            if entries.contains_key(key) {
                lemma_key_parts(keys[w], key);
            }
        }
    }
}

/// One more key removed: how the sets, the generations and the removed
/// pairs of the first `j + 1` keys follow from those of the first `j`.
proof fn lemma_remove_step(
    entries: Map<u64, Resource>,
    versions: Seq<u32>,
    keys: Seq<u64>,
    j: int,
)
    requires
        slots_coherent(entries, versions),
        0 <= j < keys.len(),
    ensures
        key_set(keys.take(j + 1)) == key_set(keys.take(j)).insert(keys[j]),
        entries.remove_keys(key_set(keys.take(j))).contains_key(keys[j]) <==> (
        entries.contains_key(keys[j]) && !keys.take(j).contains(keys[j])),
        keys.take(j + 1).drop_last() == keys.take(j),
        keys.take(j + 1).last() == keys[j],
        entries.remove_keys(key_set(keys.take(j))).contains_key(keys[j]) ==> {
            let index = key_index(keys[j]) as int;
            &&& index < versions.len()
            &&& !slot_vacated(entries, keys.take(j), index)
            &&& generations_after_removal(entries, versions, keys.take(j + 1))
                == generations_after_removal(entries, versions, keys.take(j)).update(
                index,
                next_version(versions[index]),
            )
        },
        !entries.remove_keys(key_set(keys.take(j))).contains_key(keys[j])
            ==> generations_after_removal(entries, versions, keys.take(j + 1))
            == generations_after_removal(entries, versions, keys.take(j)),
{
    let key = keys[j];
    let before = keys.take(j);
    let upto = keys.take(j + 1);
    assert forall|k: u64| upto.contains(k) <==> (before.contains(k) || k == key) by {
        if k == key {
            assert(upto[j] == k);
        }
    }
    let live_now = entries.remove_keys(key_set(before)).contains_key(key);
    if live_now {
        let index = key_index(key) as int;
        if slot_vacated(entries, before, index) {
            let w = choose|w: int|
                0 <= w < before.len() && entries.contains_key(#[trigger] before[w]) && key_index(
                    before[w],
                ) == index;
            lemma_key_parts(before[w], key);
        }
    }
}

/// Persistent storage under generational keys.
pub struct SlotTable {
    store: SlotStore,
    inserted: u32,
}

impl SlotTable {
    /// The live values, by key.
    pub closed spec fn entries(&self) -> Map<u64, Resource> {
        slot_entries(self.store)
    }

    /// The generation of every slot created so far, by slot index.
    pub closed spec fn generations(&self) -> Seq<u32> {
        slot_versions(self.store)
    }

    /// How many insertions the table has accepted.
    pub closed spec fn insertions(&self) -> nat {
        self.inserted as nat
    }

    /// Entries and generations agree, and there are no more slots than
    /// insertions made.
    pub open spec fn wf(&self) -> bool {
        &&& slots_coherent(self.entries(), self.generations())
        &&& 1 <= self.generations().len() <= self.insertions() + 1
        &&& self.insertions() <= MAX_INSERTIONS
    }

    /// An empty table.
    pub fn new() -> (table: SlotTable)
        ensures
            table.wf(),
            table.entries() == Map::<u64, Resource>::empty(),
            table.generations() == seq![0u32],
            table.insertions() == 0,
    {
        let table = SlotTable { store: store_new(), inserted: 0 };
        table
    }

    /// Stores `value` under a fresh key. Fails only when the table has
    /// already accepted [`MAX_INSERTIONS`] insertions.
    pub fn insert(&mut self, value: Resource) -> (r: Option<u64>)
        requires
            old(self).wf(),
        ensures
            final(self).wf(),
            r is None <==> old(self).insertions() >= MAX_INSERTIONS,
            r is None ==> final(self).entries() == old(self).entries(),
            r is None ==> final(self).generations() == old(self).generations(),
            r is None ==> final(self).insertions() == old(self).insertions(),
            r matches Some(key) ==> slot_inserted(
                old(self).entries(),
                old(self).generations(),
                value,
                key,
                final(self).entries(),
                final(self).generations(),
            ),
            r matches Some(key) ==> !old(self).entries().contains_key(key) && key_version(key) % 2
                == 1,
            r is Some ==> final(self).insertions() == old(self).insertions() + 1,
    {
        if self.inserted >= MAX_INSERTIONS {
            return None;
        }
        let key = store_insert(&mut self.store, value);
        self.inserted = self.inserted + 1;
        proof {
            lemma_insert_coherent(
                old(self).entries(),
                old(self).generations(),
                value,
                key,
                self.entries(),
                self.generations(),
            );
        }
        Some(key)
    }

    /// How many insertions the table has accepted.
    pub fn insertions_made(&self) -> (n: u32)
        ensures
            n == self.insertions(),
    {
        self.inserted
    }

    /// Tests whether `key` has the form of an issued key: an odd generation.
    fn well_formed_key(key: u64) -> (r: bool)
        ensures
            r == (key_version(key) % 2 == 1),
    {
        generation_of_key(key) % 2 == 1
    }

    /// Looks up the value stored under `key`.
    pub fn get(&self, key: u64) -> (r: Option<Resource>)
        requires
            self.wf(),
        ensures
            r == lookup(self.entries(), key),
    {
        if !Self::well_formed_key(key) {
            return None;
        }
        store_get(&self.store, key)
    }

    /// Tests whether `key` is live.
    pub fn contains_key(&self, key: u64) -> (r: bool)
        requires
            self.wf(),
        ensures
            r == self.entries().contains_key(key),
    {
        self.get(key).is_some()
    }

    /// Replaces the value stored under a live key and returns the value it
    /// had. Any other key changes nothing.
    pub fn replace(&mut self, key: u64, value: Resource) -> (r: Option<Resource>)
        requires
            old(self).wf(),
        ensures
            final(self).wf(),
            r == lookup(old(self).entries(), key),
            r is Some ==> final(self).entries() == old(self).entries().insert(key, value),
            r is None ==> final(self).entries() == old(self).entries(),
            final(self).generations() == old(self).generations(),
            final(self).insertions() == old(self).insertions(),
    {
        if !Self::well_formed_key(key) {
            return None;
        }
        match store_get_mut(&mut self.store, key) {
            Some(slot) => {
                let previous = *slot;
                *slot = value;
                Some(previous)
            },
            None => None,
        }
    }

    /// Removes a live key and returns its value; the key is dead from then
    /// on. Any other key changes nothing.
    pub fn remove(&mut self, key: u64) -> (r: Option<Resource>)
        requires
            old(self).wf(),
        ensures
            final(self).wf(),
            r == lookup(old(self).entries(), key),
            r is Some ==> slot_removed(
                old(self).entries(),
                old(self).generations(),
                key,
                final(self).entries(),
                final(self).generations(),
            ),
            r is None ==> final(self).entries() == old(self).entries(),
            r is None ==> final(self).generations() == old(self).generations(),
            final(self).insertions() == old(self).insertions(),
    {
        if !Self::well_formed_key(key) {
            return None;
        }
        let removed = store_remove(&mut self.store, key);
        proof {
            if removed is Some {
                lemma_remove_coherent(
                    old(self).entries(),
                    old(self).generations(),
                    key,
                    self.entries(),
                    self.generations(),
                );
            }
        }
        removed
    }
    /// Removes every key of `keys`, in order. Returns each live key with the
    /// value it held; keys that are not live, or occur again, are passed
    /// over.
    pub fn remove_all(&mut self, keys: &Vec<u64>) -> (removed: Vec<(u64, Resource)>)
        requires
            old(self).wf(),
        ensures
            final(self).wf(),
            removed@ == removed_pairs(old(self).entries(), keys@),
            final(self).entries() == old(self).entries().remove_keys(key_set(keys@)),
            final(self).generations() == generations_after_removal(
                old(self).entries(),
                old(self).generations(),
                keys@,
            ),
            final(self).insertions() == old(self).insertions(),
    {
        let mut removed: Vec<(u64, Resource)> = Vec::new();
        let mut j: usize = 0;
        while j < keys.len()
            invariant
                j <= keys.len(),
                old(self).wf(),
                self.wf(),
                removed@ == removed_pairs(old(self).entries(), keys@.take(j as int)),
                self.entries() == old(self).entries().remove_keys(key_set(keys@.take(j as int))),
                self.generations() == generations_after_removal(
                    old(self).entries(),
                    old(self).generations(),
                    keys@.take(j as int),
                ),
                self.insertions() == old(self).insertions(),
            decreases keys.len() - j,
        {
            let key = keys[j];
            proof {
                lemma_remove_step(old(self).entries(), old(self).generations(), keys@, j as int);
            }
            match self.remove(key) {
                Some(value) => {
                    removed.push((key, value));
                },
                None => {
                },
            }
            j += 1;
        }
        proof {
            assert(keys@.take(j as int) == keys@);
        }
        removed
    }
}

} // verus!
