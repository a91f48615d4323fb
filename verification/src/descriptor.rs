//! The bindless descriptor tables: fixed-capacity arrays of binding slots.
//!
//! A resource whose usage asks for shader access is given the lowest free
//! slot of the matching table when it is created, and the slot is given back
//! when the resource is freed. Each occupied slot records who holds it.

use vstd::prelude::*;

verus! {

/// Who holds a binding slot.
#[derive(PartialEq, Eq, Debug, Copy, Clone, Structural)]
pub enum BindingOwner {
    /// The persistent resource with this key.
    Persistent(u64),
    /// The transient resource at this position of the current frame's list.
    Transient(usize),
}

/// How many slots each table has.
#[derive(PartialEq, Eq, Debug, Copy, Clone, Structural)]
pub struct DescriptorCount {
    pub storage_buffers: u32,
    pub storage_images: u32,
    pub sampled_images: u32,
    pub samplers: u32,
}

impl Default for DescriptorCount {
    fn default() -> (count: DescriptorCount)
        ensures
            count == (DescriptorCount {
                storage_buffers: 0,
                storage_images: 0,
                sampled_images: 0,
                samplers: 0,
            }),
    {
        DescriptorCount { storage_buffers: 0, storage_images: 0, sampled_images: 0, samplers: 0 }
    }
}

/// `index` is the lowest free slot of `slots`.
pub open spec fn is_first_free(slots: Seq<Option<BindingOwner>>, index: int) -> bool {
    &&& 0 <= index < slots.len()
    &&& slots[index] is None
    &&& forall|j: int| 0 <= j < index ==> slots[j] is Some
}

/// No slot of `slots` is free.
pub open spec fn all_bound(slots: Seq<Option<BindingOwner>>) -> bool {
    forall|j: int| 0 <= j < slots.len() ==> slots[j] is Some
}

/// The lowest free slot of `slots`, if any slot is free.
pub open spec fn first_free_index(slots: Seq<Option<BindingOwner>>) -> Option<int> {
    if exists|i: int| is_first_free(slots, i) {
        Some(choose|i: int| is_first_free(slots, i))
    } else {
        None
    }
}

/// There is at most one lowest free slot, and none when every slot is bound.
pub proof fn lemma_first_free_unique(slots: Seq<Option<BindingOwner>>, index: int)
    ensures
        is_first_free(slots, index) ==> first_free_index(slots) == Some(index),
        all_bound(slots) ==> first_free_index(slots) is None,
{
}

/// A table and the resources that hold its slots agree. `persistent` gives
/// the slot each live persistent key holds, `transient` the slot each
/// transient resource of the frame holds.
///
/// Every slot a resource records is bound to that resource, and every bound
/// slot is recorded by the resource it names. So no two resources share a
/// slot, and no slot is bound to a resource that is gone.
pub open spec fn bindings_consistent(
    slots: Seq<Option<BindingOwner>>,
    persistent: Map<u64, Option<u32>>,
    transient: Seq<Option<u32>>,
) -> bool {
    &&& slots.len() <= u32::MAX
    &&& transient.len() <= usize::MAX
    &&& forall|key: u64|
        #![trigger persistent[key]]
        persistent.contains_key(key) && persistent[key] is Some ==> {
            let index = persistent[key]->0 as int;
            index < slots.len() && slots[index] == Some(BindingOwner::Persistent(key))
        }
    &&& forall|t: int|
        #![trigger transient[t]]
        0 <= t < transient.len() && transient[t] is Some ==> {
            let index = transient[t]->0 as int;
            index < slots.len() && slots[index] == Some(BindingOwner::Transient(t as usize))
        }
    &&& forall|index: int|
        #![trigger slots[index]]
        0 <= index < slots.len() ==> match slots[index] {
            Some(BindingOwner::Persistent(key)) => persistent.contains_key(key) && persistent[key]
                == Some(index as u32),
            Some(BindingOwner::Transient(t)) => t < transient.len() && transient[t as int] == Some(
                index as u32,
            ),
            None => true,
        }
}

/// Giving a free slot to a persistent resource that is just being added
/// keeps table and resources in agreement.
pub proof fn lemma_bind_persistent(
    slots: Seq<Option<BindingOwner>>,
    persistent: Map<u64, Option<u32>>,
    transient: Seq<Option<u32>>,
    key: u64,
    index: u32,
)
    requires
        bindings_consistent(slots, persistent, transient),
        !persistent.contains_key(key),
        index < slots.len(),
        slots[index as int] is None,
    ensures
        bindings_consistent(
            slots.update(index as int, Some(BindingOwner::Persistent(key))),
            persistent.insert(key, Some(index)),
            transient,
        ),
{
    let slots_after = slots.update(index as int, Some(BindingOwner::Persistent(key)));
    let persistent_after = persistent.insert(key, Some(index));
    assert forall|k: u64|
        #![trigger persistent_after[k]]
        persistent_after.contains_key(k) && persistent_after[k] is Some implies {
            let i = persistent_after[k]->0 as int;
            i < slots_after.len() && slots_after[i] == Some(BindingOwner::Persistent(k))
        } by {}
    assert forall|t: int|
        #![trigger transient[t]]
        0 <= t < transient.len() && transient[t] is Some implies {
            let i = transient[t]->0 as int;
            i < slots_after.len() && slots_after[i] == Some(BindingOwner::Transient(t as usize))
        } by {}
    assert forall|i: int|
        #![trigger slots_after[i]]
        0 <= i < slots_after.len() implies match slots_after[i] {
        Some(BindingOwner::Persistent(k)) => persistent_after.contains_key(k) && persistent_after[k]
            == Some(i as u32),
        Some(BindingOwner::Transient(t)) => t < transient.len() && transient[t as int] == Some(
            i as u32,
        ),
        None => true,
    } by {}
}

/// Adding a persistent resource that holds no slot keeps table and resources
/// in agreement.
pub proof fn lemma_add_unbound_persistent(
    slots: Seq<Option<BindingOwner>>,
    persistent: Map<u64, Option<u32>>,
    transient: Seq<Option<u32>>,
    key: u64,
)
    requires
        bindings_consistent(slots, persistent, transient),
        !persistent.contains_key(key),
    ensures
        bindings_consistent(slots, persistent.insert(key, None), transient),
{
    let persistent_after = persistent.insert(key, None);
    assert forall|k: u64|
        #![trigger persistent_after[k]]
        persistent_after.contains_key(k) && persistent_after[k] is Some implies {
            let i = persistent_after[k]->0 as int;
            i < slots.len() && slots[i] == Some(BindingOwner::Persistent(k))
        } by {}
    assert forall|i: int| #![trigger slots[i]] 0 <= i < slots.len() implies match slots[i] {
        Some(BindingOwner::Persistent(k)) => persistent_after.contains_key(k) && persistent_after[k]
            == Some(i as u32),
        Some(BindingOwner::Transient(t)) => t < transient.len() && transient[t as int] == Some(
            i as u32,
        ),
        None => true,
    } by {}
}

/// The slots left when the slot recorded as `binding` is given back.
pub open spec fn released(slots: Seq<Option<BindingOwner>>, binding: Option<u32>) -> Seq<
    Option<BindingOwner>,
> {
    match binding {
        Some(index) => if index < slots.len() {
            slots.update(index as int, None)
        } else {
            slots
        },
        None => slots,
    }
}

/// Removing a persistent resource and giving its slot back keeps table and
/// resources in agreement.
pub proof fn lemma_release_persistent(
    slots: Seq<Option<BindingOwner>>,
    persistent: Map<u64, Option<u32>>,
    transient: Seq<Option<u32>>,
    key: u64,
)
    requires
        bindings_consistent(slots, persistent, transient),
        persistent.contains_key(key),
    ensures
        bindings_consistent(released(slots, persistent[key]), persistent.remove(key), transient),
        forall|i: int|
            0 <= i < slots.len() ==> #[trigger] released(slots, persistent[key])[i] == (if slots[i]
                == Some(BindingOwner::Persistent(key)) {
                None
            } else {
                slots[i]
            }),
        released(slots, persistent[key]).len() == slots.len(),
{
    let slots_after = released(slots, persistent[key]);
    let persistent_after = persistent.remove(key);
    assert forall|k: u64|
        #![trigger persistent_after[k]]
        persistent_after.contains_key(k) && persistent_after[k] is Some implies {
            let i = persistent_after[k]->0 as int;
            i < slots_after.len() && slots_after[i] == Some(BindingOwner::Persistent(k))
        } by {}
    assert forall|t: int|
        #![trigger transient[t]]
        0 <= t < transient.len() && transient[t] is Some implies {
            let i = transient[t]->0 as int;
            i < slots_after.len() && slots_after[i] == Some(BindingOwner::Transient(t as usize))
        } by {}
    assert forall|i: int|
        #![trigger slots_after[i]]
        0 <= i < slots_after.len() implies match slots_after[i] {
        Some(BindingOwner::Persistent(k)) => persistent_after.contains_key(k) && persistent_after[k]
            == Some(i as u32),
        Some(BindingOwner::Transient(t)) => t < transient.len() && transient[t as int] == Some(
            i as u32,
        ),
        None => true,
    } by {}
}

/// Giving a free slot to a transient resource that is just being appended
/// keeps table and resources in agreement.
pub proof fn lemma_bind_transient(
    slots: Seq<Option<BindingOwner>>,
    persistent: Map<u64, Option<u32>>,
    transient: Seq<Option<u32>>,
    index: u32,
)
    requires
        bindings_consistent(slots, persistent, transient),
        index < slots.len(),
        slots[index as int] is None,
        transient.len() < usize::MAX,
    ensures
        bindings_consistent(
            slots.update(index as int, Some(BindingOwner::Transient(transient.len() as usize))),
            persistent,
            transient.push(Some(index)),
        ),
{
    let slots_after = slots.update(
        index as int,
        Some(BindingOwner::Transient(transient.len() as usize)),
    );
    let transient_after = transient.push(Some(index));
    assert forall|k: u64|
        #![trigger persistent[k]]
        persistent.contains_key(k) && persistent[k] is Some implies {
            let i = persistent[k]->0 as int;
            i < slots_after.len() && slots_after[i] == Some(BindingOwner::Persistent(k))
        } by {}
    assert forall|t: int|
        #![trigger transient_after[t]]
        0 <= t < transient_after.len() && transient_after[t] is Some implies {
            let i = transient_after[t]->0 as int;
            i < slots_after.len() && slots_after[i] == Some(BindingOwner::Transient(t as usize))
        } by {}
    assert forall|i: int|
        #![trigger slots_after[i]]
        0 <= i < slots_after.len() implies match slots_after[i] {
        Some(BindingOwner::Persistent(k)) => persistent.contains_key(k) && persistent[k] == Some(
            i as u32,
        ),
        Some(BindingOwner::Transient(t)) => t < transient_after.len() && transient_after[t as int]
            == Some(i as u32),
        None => true,
    } by {}
}

/// Appending a transient resource that holds no slot keeps table and
/// resources in agreement.
pub proof fn lemma_add_unbound_transient(
    slots: Seq<Option<BindingOwner>>,
    persistent: Map<u64, Option<u32>>,
    transient: Seq<Option<u32>>,
)
    requires
        bindings_consistent(slots, persistent, transient),
        transient.len() < usize::MAX,
    ensures
        bindings_consistent(slots, persistent, transient.push(None)),
{
    let transient_after = transient.push(None);
    assert forall|t: int|
        #![trigger transient_after[t]]
        0 <= t < transient_after.len() && transient_after[t] is Some implies {
            let i = transient_after[t]->0 as int;
            i < slots.len() && slots[i] == Some(BindingOwner::Transient(t as usize))
        } by {}
    assert forall|i: int| #![trigger slots[i]] 0 <= i < slots.len() implies match slots[i] {
        Some(BindingOwner::Persistent(k)) => persistent.contains_key(k) && persistent[k] == Some(
            i as u32,
        ),
        Some(BindingOwner::Transient(t)) => t < transient_after.len() && transient_after[t as int]
            == Some(i as u32),
        None => true,
    } by {}
}

/// Dropping the last transient resource and giving its slot back keeps table
/// and resources in agreement.
pub proof fn lemma_release_last_transient(
    slots: Seq<Option<BindingOwner>>,
    persistent: Map<u64, Option<u32>>,
    transient: Seq<Option<u32>>,
)
    requires
        bindings_consistent(slots, persistent, transient),
        transient.len() > 0,
    ensures
        bindings_consistent(released(slots, transient.last()), persistent, transient.drop_last()),
        forall|i: int|
            0 <= i < slots.len() ==> #[trigger] released(slots, transient.last())[i] == (if slots[i]
                == Some(BindingOwner::Transient((transient.len() - 1) as usize)) {
                None
            } else {
                slots[i]
            }),
        released(slots, transient.last()).len() == slots.len(),
{
    let slots_after = released(slots, transient.last());
    let transient_after = transient.drop_last();
    assert forall|k: u64|
        #![trigger persistent[k]]
        persistent.contains_key(k) && persistent[k] is Some implies {
            let i = persistent[k]->0 as int;
            i < slots_after.len() && slots_after[i] == Some(BindingOwner::Persistent(k))
        } by {}
    assert forall|t: int|
        #![trigger transient_after[t]]
        0 <= t < transient_after.len() && transient_after[t] is Some implies {
            let i = transient_after[t]->0 as int;
            i < slots_after.len() && slots_after[i] == Some(BindingOwner::Transient(t as usize))
        } by {}
    assert forall|i: int|
        #![trigger slots_after[i]]
        0 <= i < slots_after.len() implies match slots_after[i] {
        Some(BindingOwner::Persistent(k)) => persistent.contains_key(k) && persistent[k] == Some(
            i as u32,
        ),
        Some(BindingOwner::Transient(t)) => t < transient_after.len() && transient_after[t as int]
            == Some(i as u32),
        None => true,
    } by {}
}

/// The slots left when every persistent resource of `gone` has given its
/// slot back.
pub open spec fn without_persistent(slots: Seq<Option<BindingOwner>>, gone: Set<u64>) -> Seq<
    Option<BindingOwner>,
> {
    Seq::new(
        slots.len(),
        |i: int|
            match slots[i] {
                Some(BindingOwner::Persistent(key)) => if gone.contains(key) {
                    None
                } else {
                    slots[i]
                },
                _ => slots[i],
            },
    )
}

/// The slots left when every transient resource has given its slot back.
pub open spec fn without_transient(slots: Seq<Option<BindingOwner>>) -> Seq<Option<BindingOwner>> {
    Seq::new(
        slots.len(),
        |i: int|
            match slots[i] {
                Some(BindingOwner::Transient(_)) => None,
                _ => slots[i],
            },
    )
}

/// When the persistent resources of `gone` and all transient resources go
/// and give their slots back, table and resources stay in agreement.
pub proof fn lemma_release_gone(
    slots: Seq<Option<BindingOwner>>,
    persistent: Map<u64, Option<u32>>,
    transient: Seq<Option<u32>>,
    gone: Set<u64>,
)
    requires
        bindings_consistent(slots, persistent, transient),
    ensures
        bindings_consistent(
            without_transient(without_persistent(slots, gone)),
            persistent.remove_keys(gone),
            Seq::empty(),
        ),
{
    let slots_after = without_transient(without_persistent(slots, gone));
    let persistent_after = persistent.remove_keys(gone);
    assert forall|key: u64|
        #![trigger persistent_after[key]]
        persistent_after.contains_key(key) && persistent_after[key] is Some implies {
            let index = persistent_after[key]->0 as int;
            index < slots_after.len() && slots_after[index] == Some(BindingOwner::Persistent(key))
        } by {}
    assert forall|index: int|
        #![trigger slots_after[index]]
        0 <= index < slots_after.len() implies match slots_after[index] {
        Some(BindingOwner::Persistent(key)) => persistent_after.contains_key(key)
            && persistent_after[key] == Some(index as u32),
        Some(BindingOwner::Transient(t)) => false,
        None => true,
    } by {}
}

/// The keys of the first `n` pairs.
pub open spec fn first_keys(pairs: Seq<(u64, Option<u32>)>, n: int) -> Set<u64> {
    Set::new(|key: u64| exists|j: int| 0 <= j < n && j < pairs.len() && (#[trigger] pairs[j]).0 == key)
}

/// `pairs` lists distinct live keys, each with the slot it holds.
pub open spec fn lists_bindings(
    pairs: Seq<(u64, Option<u32>)>,
    persistent: Map<u64, Option<u32>>,
) -> bool {
    &&& forall|j: int|
        0 <= j < pairs.len() ==> persistent.contains_key((#[trigger] pairs[j]).0) && persistent[pairs[j].0]
            == pairs[j].1
    &&& forall|a: int, b: int|
        0 <= a < b < pairs.len() ==> (#[trigger] pairs[a]).0 != (#[trigger] pairs[b]).0
}

/// One table of binding slots.
pub struct BindingTable {
    slots: Vec<Option<BindingOwner>>,
}

impl BindingTable {
    /// The slots of the table: for each, its holder if it is bound.
    pub closed spec fn view(&self) -> Seq<Option<BindingOwner>> {
        self.slots@
    }

    /// The table has no more slots than a 32-bit index can name.
    pub open spec fn wf(&self) -> bool {
        self@.len() <= u32::MAX
    }

    /// A table of `capacity` free slots.
    pub fn new(capacity: u32) -> (table: BindingTable)
        ensures
            table.wf(),
            table@.len() == capacity,
            forall|i: int| 0 <= i < capacity ==> table@[i] is None,
    {
        let mut slots: Vec<Option<BindingOwner>> = Vec::new();
        let mut i: u32 = 0;
        while i < capacity
            invariant
                i <= capacity,
                slots@.len() == i,
                forall|j: int| 0 <= j < i ==> slots@[j] is None,
            decreases capacity - i,
        {
            slots.push(None);
            i += 1;
        }
        BindingTable { slots }
    }

    /// The number of slots.
    pub fn capacity(&self) -> (n: u32)
        requires
            self.wf(),
        ensures
            n == self@.len(),
    {
        self.slots.len() as u32
    }

    /// The lowest free slot, if any slot is free.
    pub fn first_free(&self) -> (r: Option<u32>)
        requires
            self.wf(),
        ensures
            r matches Some(index) ==> is_first_free(self@, index as int),
            r is None ==> all_bound(self@),
    {
        let mut i: usize = 0;
        while i < self.slots.len()
            invariant
                i <= self.slots@.len(),
                self.slots@.len() <= u32::MAX,
                forall|j: int| 0 <= j < i ==> self.slots@[j] is Some,
            decreases self.slots@.len() - i,
        {
            if self.slots[i].is_none() {
                return Some(i as u32);
            }
            i += 1;
        }
        None
    }

    /// Gives the lowest free slot to `owner`. Fails, changing nothing, when
    /// every slot is bound.
    pub fn bind(&mut self, owner: BindingOwner) -> (r: Option<u32>)
        requires
            old(self).wf(),
        ensures
            final(self).wf(),
            r matches Some(index) ==> is_first_free(old(self)@, index as int) && final(self)@
                == old(self)@.update(index as int, Some(owner)),
            r is None ==> all_bound(old(self)@) && final(self)@ == old(self)@,
            r is Some <==> first_free_index(old(self)@) is Some,
            r matches Some(index) ==> first_free_index(old(self)@) == Some(index as int),
    {
        proof {
            lemma_first_free_unique(self@, 0);
        }
        match self.first_free() {
            Some(index) => {
                proof {
                    lemma_first_free_unique(self@, index as int);
                }
                self.slots[index as usize] = Some(owner);
                Some(index)
            },
            None => None,
        }
    }

    /// Records `owner` as the holder of slot `index`.
    pub fn assign(&mut self, index: u32, owner: BindingOwner)
        requires
            old(self).wf(),
            index < old(self)@.len(),
        ensures
            final(self).wf(),
            final(self)@ == old(self)@.update(index as int, Some(owner)),
    {
        self.slots[index as usize] = Some(owner);
    }

    /// Frees slot `index` and returns who held it. An index outside the
    /// table, or a slot that is free already, changes nothing.
    pub fn unbind(&mut self, index: u32) -> (r: Option<BindingOwner>)
        requires
            old(self).wf(),
        ensures
            final(self).wf(),
            r == (if index < old(self)@.len() {
                old(self)@[index as int]
            } else {
                None
            }),
            final(self)@ == (if index < old(self)@.len() {
                old(self)@.update(index as int, None)
            } else {
                old(self)@
            }),
    {
        if (index as usize) < self.slots.len() {
            let held = self.slots[index as usize];
            self.slots[index as usize] = None;
            held
        } else {
            None
        }
    }

    /// Gives back the slots of the persistent resources listed in `pairs`,
    /// which are being removed. `persistent` and `transient` are the slots
    /// that the resources held before.
    pub fn release_all(
        &mut self,
        pairs: &Vec<(u64, Option<u32>)>,
        Ghost(persistent): Ghost<Map<u64, Option<u32>>>,
        Ghost(transient): Ghost<Seq<Option<u32>>>,
    )
        requires
            bindings_consistent(old(self)@, persistent, transient),
            lists_bindings(pairs@, persistent),
        ensures
            final(self).wf(),
            final(self)@ == without_persistent(old(self)@, first_keys(pairs@, pairs@.len() as int)),
            bindings_consistent(
                final(self)@,
                persistent.remove_keys(first_keys(pairs@, pairs@.len() as int)),
                transient,
            ),
    {
        let mut j: usize = 0;
        while j < pairs.len()
            invariant
                j <= pairs.len(),
                self.wf(),
                bindings_consistent(old(self)@, persistent, transient),
                lists_bindings(pairs@, persistent),
                self@ == without_persistent(old(self)@, first_keys(pairs@, j as int)),
                bindings_consistent(
                    self@,
                    persistent.remove_keys(first_keys(pairs@, j as int)),
                    transient,
                ),
            decreases pairs.len() - j,
        {
            let key = pairs[j].0;
            let binding = pairs[j].1;
            let ghost now = persistent.remove_keys(first_keys(pairs@, j as int));
            proof {
                lemma_release_persistent(self@, now, transient, key);
            }
            match binding {
                Some(index) => {
                    self.unbind(index);
                },
                None => {},
            }
            j += 1;
        }
    }

    /// Gives back the slots of all transient resources, which are being
    /// dropped. `bindings` lists the slot of each, in order; `persistent` is
    /// what the persistent resources hold.
    pub fn release_transients(
        &mut self,
        bindings: &Vec<Option<u32>>,
        Ghost(persistent): Ghost<Map<u64, Option<u32>>>,
    )
        requires
            bindings_consistent(old(self)@, persistent, bindings@),
        ensures
            final(self).wf(),
            final(self)@ == without_transient(old(self)@),
            bindings_consistent(final(self)@, persistent, Seq::empty()),
    {
        let mut n: usize = bindings.len();
        while n > 0
            invariant
                n <= bindings.len(),
                self.wf(),
                bindings_consistent(old(self)@, persistent, bindings@),
                bindings_consistent(self@, persistent, bindings@.take(n as int)),
                self@.len() == old(self)@.len(),
                forall|i: int|
                    0 <= i < self@.len() ==> #[trigger] self@[i] == (match old(self)@[i] {
                        Some(BindingOwner::Transient(t)) => if t >= n {
                            None
                        } else {
                            old(self)@[i]
                        },
                        _ => old(self)@[i],
                    }),
            decreases n,
        {
            let ghost slots_before = self@;
            let ghost listed = bindings@.take(n as int);
            proof {
                lemma_release_last_transient(slots_before, persistent, listed);
            }
            n -= 1;
            match bindings[n] {
                Some(index) => {
                    self.unbind(index);
                },
                None => {},
            }
        }
    }

    /// Who holds slot `index`, if it exists and is bound.
    pub fn owner(&self, index: u32) -> (r: Option<BindingOwner>)
        requires
            self.wf(),
        ensures
            r == (if index < self@.len() {
                self@[index as int]
            } else {
                None
            }),
    {
        if (index as usize) < self.slots.len() {
            self.slots[index as usize]
        } else {
            None
        }
    }
}

/// The four bindless tables.
pub struct DescriptorSet {
    pub storage_buffers: BindingTable,
    pub storage_images: BindingTable,
    pub sampled_images: BindingTable,
    pub samplers: BindingTable,
}

impl DescriptorSet {
    /// Every table is within the range of a 32-bit index.
    pub open spec fn wf(&self) -> bool {
        &&& self.storage_buffers.wf()
        &&& self.storage_images.wf()
        &&& self.sampled_images.wf()
        &&& self.samplers.wf()
    }

    /// No slot of any table is bound.
    pub open spec fn is_unbound(&self) -> bool {
        &&& forall|i: int| 0 <= i < self.storage_buffers@.len() ==> self.storage_buffers@[i] is None
        &&& forall|i: int| 0 <= i < self.storage_images@.len() ==> self.storage_images@[i] is None
        &&& forall|i: int| 0 <= i < self.sampled_images@.len() ==> self.sampled_images@[i] is None
        &&& forall|i: int| 0 <= i < self.samplers@.len() ==> self.samplers@[i] is None
    }

    /// Tables of the given sizes, with every slot free.
    pub fn new(count: DescriptorCount) -> (set: DescriptorSet)
        ensures
            set.wf(),
            set.is_unbound(),
            set.storage_buffers@.len() == count.storage_buffers,
            set.storage_images@.len() == count.storage_images,
            set.sampled_images@.len() == count.sampled_images,
            set.samplers@.len() == count.samplers,
    {
        DescriptorSet {
            storage_buffers: BindingTable::new(count.storage_buffers),
            storage_images: BindingTable::new(count.storage_images),
            sampled_images: BindingTable::new(count.sampled_images),
            samplers: BindingTable::new(count.samplers),
        }
    }
}

} // verus!
