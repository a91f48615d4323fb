//! What the manager guarantees about the lifetime of persistent keys.
//!
//! These are statements about [`ManagerState`] alone: they hold of every
//! manager, whatever was done to it, because every operation is specified
//! over that state.

use crate::descriptor::{lemma_release_gone, without_persistent, without_transient};
use crate::resource::{Buffer, Image, Resource};
use crate::resource_manager::ManagerState;
use crate::slots::{
    generations_after_removal, key_index, key_set, key_version,
    lemma_removal_coherent, lookup, slot_inserted,
};
use vstd::prelude::*;

verus! {

/// Every queue of the ring is empty.
pub open spec fn nothing_pending(state: ManagerState) -> bool {
    &&& forall|i: int|
        0 <= i < state.pending_buffers.len() ==> (#[trigger] state.pending_buffers[i]).len() == 0
    &&& forall|i: int|
        0 <= i < state.pending_images.len() ==> (#[trigger] state.pending_images[i]).len() == 0
    &&& forall|i: int|
        0 <= i < state.pending_samplers.len() ==> (#[trigger] state.pending_samplers[i]).len() == 0
}

/// The frame holds no transient resource.
pub open spec fn nothing_transient(state: ManagerState) -> bool {
    state.transient_buffers.len() == 0 && state.transient_images.len() == 0
}

/// The state after `count` flushes in a row.
pub open spec fn flushed_times(state: ManagerState, count: nat) -> ManagerState
    decreases count,
{
    if count == 0 {
        state
    } else {
        flushed_times(state, (count - 1) as nat).flushed()
    }
}

/// A flush keeps the manager's invariant and the length of the ring, and
/// leaves no transient resource.
pub proof fn lemma_flush_wf(state: ManagerState)
    requires
        state.wf(),
    ensures
        state.flushed().wf(),
        state.flushed().frames_in_flight() == state.frames_in_flight(),
        nothing_transient(state.flushed()),
{
    let after = state.flushed();
    lemma_removal_coherent(state.buffers, state.buffer_generations, state.due_buffers());
    lemma_removal_coherent(state.images, state.image_generations, state.due_images());
    lemma_removal_coherent(state.samplers, state.sampler_generations, state.due_samplers());
    lemma_release_gone(
        state.sampler_slots,
        state.sampler_bindings(),
        Seq::empty(),
        key_set(state.due_samplers()),
    );
    assert(after.sampler_bindings() =~= state.sampler_bindings().remove_keys(
        key_set(state.due_samplers()),
    ));
    lemma_release_gone(
        state.storage_buffer_slots,
        state.buffer_bindings(),
        state.transient_buffer_bindings(),
        key_set(state.due_buffers()),
    );
    lemma_release_gone(
        state.storage_image_slots,
        state.image_storage_bindings(),
        state.transient_image_storage_bindings(),
        key_set(state.due_images()),
    );
    lemma_release_gone(
        state.sampled_image_slots,
        state.image_sampled_bindings(),
        state.transient_image_sampled_bindings(),
        key_set(state.due_images()),
    );
    assert(after.buffer_bindings() =~= state.buffer_bindings().remove_keys(
        key_set(state.due_buffers()),
    ));
    assert(after.image_storage_bindings() =~= state.image_storage_bindings().remove_keys(
        key_set(state.due_images()),
    ));
    assert(after.image_sampled_bindings() =~= state.image_sampled_bindings().remove_keys(
        key_set(state.due_images()),
    ));
}

/// A flush with nothing pending leaves the resource tables, their
/// generations and the ring as they are, and frees exactly the descriptor
/// slots of the transient resources. With no transient resource either, it
/// changes nothing at all.
pub proof fn lemma_idle_flush(state: ManagerState)
    requires
        state.wf(),
        nothing_pending(state),
    ensures
        state.flushed() == (ManagerState {
            storage_buffer_slots: without_transient(state.storage_buffer_slots),
            storage_image_slots: without_transient(state.storage_image_slots),
            sampled_image_slots: without_transient(state.sampled_image_slots),
            transient_buffers: Seq::empty(),
            transient_images: Seq::empty(),
            ..state
        }),
        nothing_pending(state.flushed()),
        nothing_transient(state) ==> state.flushed() == state,
{
    let after = state.flushed();
    let no_keys = Seq::<u64>::empty();
    assert(state.due_buffers() =~= no_keys);
    assert(state.due_images() =~= no_keys);
    assert(state.due_samplers() =~= no_keys);
    assert(key_set(no_keys) =~= Set::<u64>::empty());
    assert(state.buffers.remove_keys(Set::<u64>::empty()) =~= state.buffers);
    assert(state.images.remove_keys(Set::<u64>::empty()) =~= state.images);
    assert(state.samplers.remove_keys(Set::<u64>::empty()) =~= state.samplers);
    assert(generations_after_removal(state.buffers, state.buffer_generations, no_keys)
        =~= state.buffer_generations);
    assert(generations_after_removal(state.images, state.image_generations, no_keys)
        =~= state.image_generations);
    assert(generations_after_removal(state.samplers, state.sampler_generations, no_keys)
        =~= state.sampler_generations);
    assert(without_persistent(state.sampler_slots, Set::<u64>::empty()) =~= state.sampler_slots);
    assert(without_persistent(state.storage_buffer_slots, Set::<u64>::empty())
        =~= state.storage_buffer_slots);
    assert(without_persistent(state.storage_image_slots, Set::<u64>::empty())
        =~= state.storage_image_slots);
    assert(without_persistent(state.sampled_image_slots, Set::<u64>::empty())
        =~= state.sampled_image_slots);
    assert(after.pending_buffers =~= state.pending_buffers) by {
        assert forall|i: int| 0 <= i < state.pending_buffers.len() implies after.pending_buffers[i]
            == state.pending_buffers[i] by {}
    }
    assert(after.pending_images =~= state.pending_images) by {
        assert forall|i: int| 0 <= i < state.pending_images.len() implies after.pending_images[i]
            == state.pending_images[i] by {}
    }
    assert(after.pending_samplers =~= state.pending_samplers) by {
        assert forall|i: int| 0 <= i < state.pending_samplers.len() implies after.pending_samplers[i]
            == state.pending_samplers[i] by {}
    }
    if nothing_transient(state) {
        assert(without_transient(state.storage_buffer_slots) =~= state.storage_buffer_slots);
        assert(without_transient(state.storage_image_slots) =~= state.storage_image_slots);
        assert(without_transient(state.sampled_image_slots) =~= state.sampled_image_slots);
        assert(state.transient_buffers =~= Seq::<Buffer>::empty());
        assert(state.transient_images =~= Seq::<Image>::empty());
    }
}

/// Flushing with nothing pending is idempotent: a second flush changes
/// nothing that the first left.
pub proof fn lemma_idle_flush_idempotent(state: ManagerState)
    requires
        state.wf(),
        nothing_pending(state),
    ensures
        state.flushed().flushed() == state.flushed(),
        state.flushed().buffers == state.buffers,
        state.flushed().images == state.images,
        state.flushed().samplers == state.samplers,
        state.flushed().buffer_generations == state.buffer_generations,
        state.flushed().image_generations == state.image_generations,
        state.flushed().sampler_generations == state.sampler_generations,
        state.flushed().sampler_slots == state.sampler_slots,
{
    lemma_idle_flush(state);
    let once = state.flushed();
    lemma_flush_wf(state);
    lemma_idle_flush(once);
}

/// What a flush does to the ring and to the tables: every queue moves one
/// place towards reclamation, the first queue is empty, and a key leaves its
/// table exactly if it was live and in the last queue.
pub proof fn lemma_flush_defers(state: ManagerState)
    requires
        state.wf(),
    ensures
        state.flushed().pending_buffers.len() == state.pending_buffers.len(),
        state.flushed().pending_images.len() == state.pending_images.len(),
        state.flushed().pending_samplers.len() == state.pending_samplers.len(),
        state.flushed().pending_buffers[0] == Seq::<u64>::empty(),
        state.flushed().pending_images[0] == Seq::<u64>::empty(),
        state.flushed().pending_samplers[0] == Seq::<u64>::empty(),
        forall|i: int|
            0 <= i < state.pending_samplers.len() - 1
                ==> #[trigger] state.flushed().pending_samplers[i + 1] == state.pending_samplers[i],
        forall|key: u64|
            #![trigger state.flushed().samplers.contains_key(key)]
            state.flushed().samplers.contains_key(key) <==> (state.samplers.contains_key(key)
                && !state.due_samplers().contains(key)),
        forall|key: u64|
            #![trigger state.flushed().samplers[key]]
            state.flushed().samplers.contains_key(key) ==> state.flushed().samplers[key]
                == state.samplers[key],
        forall|i: int|
            0 <= i < state.pending_buffers.len() - 1 ==> #[trigger] state.flushed().pending_buffers[i
                + 1] == state.pending_buffers[i],
        forall|i: int|
            0 <= i < state.pending_images.len() - 1 ==> #[trigger] state.flushed().pending_images[i
                + 1] == state.pending_images[i],
        forall|key: u64|
            #![trigger state.flushed().buffers.contains_key(key)]
            state.flushed().buffers.contains_key(key) <==> (state.buffers.contains_key(key)
                && !state.due_buffers().contains(key)),
        forall|key: u64|
            #![trigger state.flushed().buffers[key]]
            state.flushed().buffers.contains_key(key) ==> state.flushed().buffers[key]
                == state.buffers[key],
        forall|key: u64|
            #![trigger state.flushed().images.contains_key(key)]
            state.flushed().images.contains_key(key) <==> (state.images.contains_key(key)
                && !state.due_images().contains(key)),
        forall|key: u64|
            #![trigger state.flushed().images[key]]
            state.flushed().images.contains_key(key) ==> state.flushed().images[key]
                == state.images[key],
{
}

/// A destroyed buffer outlives the frames in flight. A live key that stands
/// in queue `queue` of the ring, and in no later one, is still live after
/// every flush before the one that brings its queue to the end of the ring,
/// and is gone after that one: `frames_in_flight - queue` flushes in all, so
/// `frames_in_flight` flushes for a key destroyed in the frame in progress.
pub proof fn lemma_destroyed_buffer_lifetime(
    state: ManagerState,
    key: u64,
    queue: int,
    flushes: nat,
)
    requires
        state.wf(),
        state.buffers.contains_key(key),
        0 <= queue < state.pending_buffers.len(),
        state.pending_buffers[queue].contains(key),
        forall|j: int|
            queue < j < state.pending_buffers.len() ==> !state.pending_buffers[j].contains(key),
        flushes <= state.frames_in_flight() - queue,
    ensures
        flushed_times(state, flushes).wf(),
        flushed_times(state, flushes).frames_in_flight() == state.frames_in_flight(),
        flushes < state.frames_in_flight() - queue ==> lookup(
            flushed_times(state, flushes).buffers,
            key,
        ) == Some(state.buffers[key]),
        flushes == state.frames_in_flight() - queue ==> lookup(
            flushed_times(state, flushes).buffers,
            key,
        ) is None,
        flushes < state.frames_in_flight() - queue ==> flushed_times(
            state,
            flushes,
        ).pending_buffers[queue + flushes].contains(key) && forall|j: int|
            queue + flushes < j < state.pending_buffers.len() ==> !flushed_times(
                state,
                flushes,
            ).pending_buffers[j].contains(key),
    decreases flushes,
{
    if flushes > 0 {
        let earlier = (flushes - 1) as nat;
        lemma_destroyed_buffer_lifetime(state, key, queue, earlier);
        let before = flushed_times(state, earlier);
        lemma_flush_wf(before);
        lemma_flush_defers(before);
    }
}

/// A destroyed image outlives the frames in flight, as a destroyed buffer
/// does.
pub proof fn lemma_destroyed_image_lifetime(
    state: ManagerState,
    key: u64,
    queue: int,
    flushes: nat,
)
    requires
        state.wf(),
        state.images.contains_key(key),
        0 <= queue < state.pending_images.len(),
        state.pending_images[queue].contains(key),
        forall|j: int|
            queue < j < state.pending_images.len() ==> !state.pending_images[j].contains(key),
        flushes <= state.frames_in_flight() - queue,
    ensures
        flushed_times(state, flushes).wf(),
        flushed_times(state, flushes).frames_in_flight() == state.frames_in_flight(),
        flushes < state.frames_in_flight() - queue ==> lookup(
            flushed_times(state, flushes).images,
            key,
        ) == Some(state.images[key]),
        flushes == state.frames_in_flight() - queue ==> lookup(
            flushed_times(state, flushes).images,
            key,
        ) is None,
        flushes < state.frames_in_flight() - queue ==> flushed_times(
            state,
            flushes,
        ).pending_images[queue + flushes].contains(key) && forall|j: int|
            queue + flushes < j < state.pending_images.len() ==> !flushed_times(
                state,
                flushes,
            ).pending_images[j].contains(key),
    decreases flushes,
{
    if flushes > 0 {
        let earlier = (flushes - 1) as nat;
        lemma_destroyed_image_lifetime(state, key, queue, earlier);
        let before = flushed_times(state, earlier);
        lemma_flush_wf(before);
        lemma_flush_defers(before);
    }
}

/// A destroyed sampler outlives the frames in flight, as a destroyed buffer
/// does.
pub proof fn lemma_destroyed_sampler_lifetime(
    state: ManagerState,
    key: u64,
    queue: int,
    flushes: nat,
)
    requires
        state.wf(),
        state.samplers.contains_key(key),
        0 <= queue < state.pending_samplers.len(),
        state.pending_samplers[queue].contains(key),
        forall|j: int|
            queue < j < state.pending_samplers.len() ==> !state.pending_samplers[j].contains(key),
        flushes <= state.frames_in_flight() - queue,
    ensures
        flushed_times(state, flushes).wf(),
        flushed_times(state, flushes).frames_in_flight() == state.frames_in_flight(),
        flushes < state.frames_in_flight() - queue ==> lookup(
            flushed_times(state, flushes).samplers,
            key,
        ) == Some(state.samplers[key]),
        flushes == state.frames_in_flight() - queue ==> lookup(
            flushed_times(state, flushes).samplers,
            key,
        ) is None,
        flushes < state.frames_in_flight() - queue ==> flushed_times(
            state,
            flushes,
        ).pending_samplers[queue + flushes].contains(key) && forall|j: int|
            queue + flushes < j < state.pending_samplers.len() ==> !flushed_times(
                state,
                flushes,
            ).pending_samplers[j].contains(key),
    decreases flushes,
{
    if flushes > 0 {
        let earlier = (flushes - 1) as nat;
        lemma_destroyed_sampler_lifetime(state, key, queue, earlier);
        let before = flushed_times(state, earlier);
        lemma_flush_wf(before);
        lemma_flush_defers(before);
    }
}

/// A key that a flush reclaims is never handed out again by the insertion
/// that next takes its slot.
///
/// `entries` and `versions` are a table before a flush that reclaims the live
/// key `freed`; `versions_later` are the generations at some later time, at
/// which the slot of `freed` has not been touched since; the insertion of
/// `value` then returns `reused`, in that same slot. The new key has another
/// generation than the old one, and the old key finds nothing.
pub proof fn lemma_recycled_key_differs(
    entries: Map<u64, Resource>,
    versions: Seq<u32>,
    due: Seq<u64>,
    freed: u64,
    entries_later: Map<u64, Resource>,
    versions_later: Seq<u32>,
    value: Resource,
    reused: u64,
    entries_after: Map<u64, Resource>,
    versions_after: Seq<u32>,
)
    requires
        crate::slots::slots_coherent(entries, versions),
        entries.contains_key(freed),
        due.contains(freed),
        crate::slots::slots_coherent(entries_later, versions_later),
        key_index(freed) < versions_later.len(),
        versions_later[key_index(freed) as int] == generations_after_removal(
            entries,
            versions,
            due,
        )[key_index(freed) as int],
        slot_inserted(entries_later, versions_later, value, reused, entries_after, versions_after),
        key_index(reused) == key_index(freed),
    ensures
        key_version(reused) != key_version(freed),
        reused != freed,
        lookup(entries_after, freed) is None,
{
}

/// The law above, for the buffers of a manager: `state` is the manager
/// before the flush that reclaims `freed`, `later` the manager at the time of
/// the insertion.
pub proof fn lemma_recycled_buffer_key(
    state: ManagerState,
    freed: u64,
    later: ManagerState,
    value: Resource,
    reused: u64,
    after: ManagerState,
)
    requires
        state.wf(),
        state.buffers.contains_key(freed),
        state.due_buffers().contains(freed),
        later.wf(),
        key_index(freed) < later.buffer_generations.len(),
        later.buffer_generations[key_index(freed) as int]
            == state.flushed().buffer_generations[key_index(freed) as int],
        slot_inserted(
            later.buffers,
            later.buffer_generations,
            value,
            reused,
            after.buffers,
            after.buffer_generations,
        ),
        key_index(reused) == key_index(freed),
    ensures
        key_version(reused) != key_version(freed),
        reused != freed,
        lookup(state.flushed().buffers, freed) is None,
        lookup(after.buffers, freed) is None,
{
    lemma_recycled_key_differs(
        state.buffers,
        state.buffer_generations,
        state.due_buffers(),
        freed,
        later.buffers,
        later.buffer_generations,
        value,
        reused,
        after.buffers,
        after.buffer_generations,
    );
}

/// The same law for the images of a manager.
pub proof fn lemma_recycled_image_key(
    state: ManagerState,
    freed: u64,
    later: ManagerState,
    value: Resource,
    reused: u64,
    after: ManagerState,
)
    requires
        state.wf(),
        state.images.contains_key(freed),
        state.due_images().contains(freed),
        later.wf(),
        key_index(freed) < later.image_generations.len(),
        later.image_generations[key_index(freed) as int]
            == state.flushed().image_generations[key_index(freed) as int],
        slot_inserted(
            later.images,
            later.image_generations,
            value,
            reused,
            after.images,
            after.image_generations,
        ),
        key_index(reused) == key_index(freed),
    ensures
        key_version(reused) != key_version(freed),
        reused != freed,
        lookup(state.flushed().images, freed) is None,
        lookup(after.images, freed) is None,
{
    lemma_recycled_key_differs(
        state.images,
        state.image_generations,
        state.due_images(),
        freed,
        later.images,
        later.image_generations,
        value,
        reused,
        after.images,
        after.image_generations,
    );
}

/// The same law for the samplers of a manager.
pub proof fn lemma_recycled_sampler_key(
    state: ManagerState,
    freed: u64,
    later: ManagerState,
    value: Resource,
    reused: u64,
    after: ManagerState,
)
    requires
        state.wf(),
        state.samplers.contains_key(freed),
        state.due_samplers().contains(freed),
        later.wf(),
        key_index(freed) < later.sampler_generations.len(),
        later.sampler_generations[key_index(freed) as int]
            == state.flushed().sampler_generations[key_index(freed) as int],
        slot_inserted(
            later.samplers,
            later.sampler_generations,
            value,
            reused,
            after.samplers,
            after.sampler_generations,
        ),
        key_index(reused) == key_index(freed),
    ensures
        key_version(reused) != key_version(freed),
        reused != freed,
        lookup(state.flushed().samplers, freed) is None,
        lookup(after.samplers, freed) is None,
{
    lemma_recycled_key_differs(
        state.samplers,
        state.sampler_generations,
        state.due_samplers(),
        freed,
        later.samplers,
        later.sampler_generations,
        value,
        reused,
        after.samplers,
        after.sampler_generations,
    );
}

} // verus!
