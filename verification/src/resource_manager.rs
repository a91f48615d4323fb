//! The resource manager: persistent buffers, images and samplers under
//! generational keys, the bindless descriptor tables, the transient
//! resources of the frame in progress, and the ring that defers deletion
//! until no frame in flight can still name the resource.

use crate::access::{BufferResourceAccess, ImageResourceAccess};
use crate::descriptor::{
    all_bound, bindings_consistent, first_free_index, first_keys, lemma_add_unbound_persistent,
    lemma_add_unbound_transient, lemma_bind_persistent, lemma_bind_transient, lemma_first_free_unique,
    without_persistent, without_transient, BindingOwner,
    DescriptorCount, DescriptorSet,
};
use crate::error::Error;
use crate::flags::{
    contains_bits, has_all_bits, BUFFER_USAGE_STORAGE_BUFFER, IMAGE_USAGE_SAMPLED,
    IMAGE_USAGE_STORAGE,
};
use crate::render_graph::TransientImageDescription;
use crate::resource::{
    Buffer, BufferDescription, BufferKey, BufferResource, BufferTempResource, Extent2D, Image,
    ImageKey, ImageResource, ImageTempResource, Resource, Sampler, SamplerKey,
};
use crate::slots::{
    generations_after_removal, key_set, lemma_removed_pairs, lookup, removed_pairs, slot_inserted,
    slots_coherent, SlotTable, MAX_INSERTIONS,
};
use vstd::prelude::*;

verus! {

/// Slots in the storage-buffer table.
pub const STORAGE_BUFFER_SLOTS: u32 = 1024;

/// Slots in the storage-image table.
pub const STORAGE_IMAGE_SLOTS: u32 = 1024;

/// Slots in the sampled-image table.
pub const SAMPLED_IMAGE_SLOTS: u32 = 1024;

/// Slots in the sampler table.
pub const SAMPLER_SLOTS: u32 = 128;

/// The storage-buffer slot a stored value records.
pub open spec fn buffer_storage_binding(resource: Resource) -> Option<u32> {
    match resource {
        Resource::Buffer(b) => b.buffer.storage_binding,
        _ => None,
    }
}

/// The storage-image slot a stored value records.
pub open spec fn image_storage_binding(resource: Resource) -> Option<u32> {
    match resource {
        Resource::Image(i) => i.image.storage_binding,
        _ => None,
    }
}

/// The sampled-image slot a stored value records.
pub open spec fn image_sampled_binding(resource: Resource) -> Option<u32> {
    match resource {
        Resource::Image(i) => i.image.sampled_binding,
        _ => None,
    }
}

/// The sampler slot a stored value records.
pub open spec fn sampler_binding(resource: Resource) -> Option<u32> {
    match resource {
        Resource::Sampler(s) => s.binding,
        _ => None,
    }
}

/// Everything the manager holds, as mathematical values.
pub struct ManagerState {
    /// Live persistent buffers, by key.
    pub buffers: Map<u64, Resource>,
    /// Generation of each buffer slot.
    pub buffer_generations: Seq<u32>,
    /// Buffers added so far.
    pub buffer_insertions: nat,
    /// Live persistent images, by key.
    pub images: Map<u64, Resource>,
    /// Generation of each image slot.
    pub image_generations: Seq<u32>,
    /// Images added so far.
    pub image_insertions: nat,
    /// Live samplers, by key.
    pub samplers: Map<u64, Resource>,
    /// Generation of each sampler slot.
    pub sampler_generations: Seq<u32>,
    /// Samplers added so far.
    pub sampler_insertions: nat,
    pub storage_buffer_slots: Seq<Option<BindingOwner>>,
    pub storage_image_slots: Seq<Option<BindingOwner>>,
    pub sampled_image_slots: Seq<Option<BindingOwner>>,
    pub sampler_slots: Seq<Option<BindingOwner>>,
    /// Transient buffers of the frame in progress.
    pub transient_buffers: Seq<Buffer>,
    /// Transient images of the frame in progress.
    pub transient_images: Seq<Image>,
    /// Buffer keys waiting to be reclaimed: first those destroyed in the
    /// frame in progress, last those that the next flush reclaims.
    pub pending_buffers: Seq<Seq<u64>>,
    /// Image keys waiting to be reclaimed, in the same order.
    pub pending_images: Seq<Seq<u64>>,
    /// Sampler keys waiting to be reclaimed, in the same order.
    pub pending_samplers: Seq<Seq<u64>>,
}

impl ManagerState {
    /// The storage-buffer slot of each live buffer.
    pub open spec fn buffer_bindings(self) -> Map<u64, Option<u32>> {
        Map::new(
            |key: u64| self.buffers.contains_key(key),
            |key: u64| buffer_storage_binding(self.buffers[key]),
        )
    }

    /// The storage-image slot of each live image.
    pub open spec fn image_storage_bindings(self) -> Map<u64, Option<u32>> {
        Map::new(
            |key: u64| self.images.contains_key(key),
            |key: u64| image_storage_binding(self.images[key]),
        )
    }

    /// The sampled-image slot of each live image.
    pub open spec fn image_sampled_bindings(self) -> Map<u64, Option<u32>> {
        Map::new(
            |key: u64| self.images.contains_key(key),
            |key: u64| image_sampled_binding(self.images[key]),
        )
    }

    /// The sampler slot of each live sampler.
    pub open spec fn sampler_bindings(self) -> Map<u64, Option<u32>> {
        Map::new(
            |key: u64| self.samplers.contains_key(key),
            |key: u64| sampler_binding(self.samplers[key]),
        )
    }

    /// The storage-buffer slot of each transient buffer.
    pub open spec fn transient_buffer_bindings(self) -> Seq<Option<u32>> {
        Seq::new(self.transient_buffers.len(), |t: int| self.transient_buffers[t].storage_binding)
    }

    /// The storage-image slot of each transient image.
    pub open spec fn transient_image_storage_bindings(self) -> Seq<Option<u32>> {
        Seq::new(self.transient_images.len(), |t: int| self.transient_images[t].storage_binding)
    }

    /// The sampled-image slot of each transient image.
    pub open spec fn transient_image_sampled_bindings(self) -> Seq<Option<u32>> {
        Seq::new(self.transient_images.len(), |t: int| self.transient_images[t].sampled_binding)
    }

    /// How many flushes a destroyed resource outlives.
    pub open spec fn frames_in_flight(self) -> nat {
        self.pending_buffers.len()
    }

    /// The buffer keys that the next flush reclaims.
    pub open spec fn due_buffers(self) -> Seq<u64> {
        self.pending_buffers.last()
    }

    /// The image keys that the next flush reclaims.
    pub open spec fn due_images(self) -> Seq<u64> {
        self.pending_images.last()
    }

    /// The sampler keys that the next flush reclaims.
    pub open spec fn due_samplers(self) -> Seq<u64> {
        self.pending_samplers.last()
    }

    /// The state after a flush. The keys queued longest ago are removed, as
    /// far as they are live, and their slots move on by one generation; the
    /// transient resources are dropped; every descriptor slot held by a
    /// resource that went is free again; and the ring has turned by one, with
    /// an empty queue for the frame that begins.
    pub open spec fn flushed(self) -> ManagerState {
        ManagerState {
            buffers: self.buffers.remove_keys(key_set(self.due_buffers())),
            buffer_generations: generations_after_removal(
                self.buffers,
                self.buffer_generations,
                self.due_buffers(),
            ),
            images: self.images.remove_keys(key_set(self.due_images())),
            image_generations: generations_after_removal(
                self.images,
                self.image_generations,
                self.due_images(),
            ),
            storage_buffer_slots: without_transient(
                without_persistent(self.storage_buffer_slots, key_set(self.due_buffers())),
            ),
            storage_image_slots: without_transient(
                without_persistent(self.storage_image_slots, key_set(self.due_images())),
            ),
            sampled_image_slots: without_transient(
                without_persistent(self.sampled_image_slots, key_set(self.due_images())),
            ),
            samplers: self.samplers.remove_keys(key_set(self.due_samplers())),
            sampler_generations: generations_after_removal(
                self.samplers,
                self.sampler_generations,
                self.due_samplers(),
            ),
            sampler_slots: without_persistent(self.sampler_slots, key_set(self.due_samplers())),
            transient_buffers: Seq::empty(),
            transient_images: Seq::empty(),
            pending_buffers: self.pending_buffers.drop_last().insert(0, Seq::empty()),
            pending_images: self.pending_images.drop_last().insert(0, Seq::empty()),
            pending_samplers: self.pending_samplers.drop_last().insert(0, Seq::empty()),
            ..self
        }
    }

    /// The persistent resources that a flush reclaims: the buffers, then the
    /// images, then the samplers, under the live keys queued longest ago.
    pub open spec fn reclaimed(self) -> Seq<Resource> {
        removed_pairs(self.buffers, self.due_buffers()).map_values(
            |pair: (u64, Resource)| pair_value(pair),
        ) + removed_pairs(self.images, self.due_images()).map_values(
            |pair: (u64, Resource)| pair_value(pair),
        ) + removed_pairs(self.samplers, self.due_samplers()).map_values(
            |pair: (u64, Resource)| pair_value(pair),
        )
    }

    /// The state of a new manager: no resource, no key ever handed out, every
    /// descriptor slot free, and nothing waiting in the ring.
    pub open spec fn is_empty(self) -> bool {
        &&& self.buffers =~= Map::<u64, Resource>::empty()
        &&& self.images =~= Map::<u64, Resource>::empty()
        &&& self.samplers =~= Map::<u64, Resource>::empty()
        &&& self.buffer_generations =~= seq![0u32]
        &&& self.image_generations =~= seq![0u32]
        &&& self.sampler_generations =~= seq![0u32]
        &&& self.buffer_insertions == 0
        &&& self.image_insertions == 0
        &&& self.sampler_insertions == 0
        &&& self.storage_buffer_slots =~= Seq::new(
            STORAGE_BUFFER_SLOTS as nat,
            |i: int| None::<BindingOwner>,
        )
        &&& self.storage_image_slots =~= Seq::new(
            STORAGE_IMAGE_SLOTS as nat,
            |i: int| None::<BindingOwner>,
        )
        &&& self.sampled_image_slots =~= Seq::new(
            SAMPLED_IMAGE_SLOTS as nat,
            |i: int| None::<BindingOwner>,
        )
        &&& self.sampler_slots =~= Seq::new(SAMPLER_SLOTS as nat, |i: int| None::<BindingOwner>)
        &&& self.transient_buffers =~= Seq::<Buffer>::empty()
        &&& self.transient_images =~= Seq::<Image>::empty()
        &&& forall|i: int|
            0 <= i < self.pending_buffers.len() ==> #[trigger] self.pending_buffers[i]
                =~= Seq::<u64>::empty()
        &&& forall|i: int|
            0 <= i < self.pending_images.len() ==> #[trigger] self.pending_images[i]
                =~= Seq::<u64>::empty()
        &&& forall|i: int|
            0 <= i < self.pending_samplers.len() ==> #[trigger] self.pending_samplers[i]
                =~= Seq::<u64>::empty()
    }

    /// The three tables are sound.
    pub open spec fn tables_wf(self) -> bool {
        &&& slots_coherent(self.buffers, self.buffer_generations)
        &&& 1 <= self.buffer_generations.len() <= self.buffer_insertions + 1
        &&& self.buffer_insertions <= MAX_INSERTIONS
        &&& slots_coherent(self.images, self.image_generations)
        &&& 1 <= self.image_generations.len() <= self.image_insertions + 1
        &&& self.image_insertions <= MAX_INSERTIONS
        &&& slots_coherent(self.samplers, self.sampler_generations)
        &&& 1 <= self.sampler_generations.len() <= self.sampler_insertions + 1
        &&& self.sampler_insertions <= MAX_INSERTIONS
        &&& forall|key: u64| #[trigger]
            self.buffers.contains_key(key) ==> self.buffers[key] is Buffer
        &&& forall|key: u64| #[trigger] self.images.contains_key(key) ==> self.images[key] is Image
        &&& forall|key: u64| #[trigger]
            self.samplers.contains_key(key) ==> self.samplers[key] is Sampler
    }

    /// Every descriptor table agrees with the resources that hold its slots.
    pub open spec fn bindings_wf(self) -> bool {
        &&& bindings_consistent(
            self.storage_buffer_slots,
            self.buffer_bindings(),
            self.transient_buffer_bindings(),
        )
        &&& bindings_consistent(
            self.storage_image_slots,
            self.image_storage_bindings(),
            self.transient_image_storage_bindings(),
        )
        &&& bindings_consistent(
            self.sampled_image_slots,
            self.image_sampled_bindings(),
            self.transient_image_sampled_bindings(),
        )
        &&& bindings_consistent(self.sampler_slots, self.sampler_bindings(), Seq::empty())
    }

    /// The manager's invariant.
    pub open spec fn wf(self) -> bool {
        &&& self.tables_wf()
        &&& self.bindings_wf()
        &&& self.pending_buffers.len() >= 1
        &&& self.pending_images.len() == self.pending_buffers.len()
        &&& self.pending_samplers.len() == self.pending_buffers.len()
    }
}

/// The view of a ring of key queues.
pub open spec fn ring_view(ring: Seq<Vec<u64>>) -> Seq<Seq<u64>> {
    Seq::new(ring.len(), |i: int| ring[i]@)
}

/// What a flush hands back for destruction.
pub struct ReclaimedResources {
    /// The persistent buffers and then the persistent images reclaimed, each
    /// group in the order in which the keys were queued.
    pub persistent: Vec<Resource>,
    /// The transient buffers of the frame that ended.
    pub transient_buffers: Vec<Buffer>,
    /// The transient images of the frame that ended.
    pub transient_images: Vec<Image>,
}

/// The value of a removed pair.
pub open spec fn pair_value(pair: (u64, Resource)) -> Resource {
    pair.1
}

/// Owner of every persistent resource and of the frame's transient ones.
pub struct ResourceManager {
    buffers: SlotTable,
    images: SlotTable,
    samplers: SlotTable,
    descriptor_set: DescriptorSet,
    transient_buffers: Vec<Buffer>,
    transient_images: Vec<Image>,
    freed_buffers: Vec<Vec<u64>>,
    freed_images: Vec<Vec<u64>>,
    freed_samplers: Vec<Vec<u64>>,
}

impl View for ResourceManager {
    type V = ManagerState;

    closed spec fn view(&self) -> ManagerState {
        ManagerState {
            buffers: self.buffers.entries(),
            buffer_generations: self.buffers.generations(),
            buffer_insertions: self.buffers.insertions(),
            images: self.images.entries(),
            image_generations: self.images.generations(),
            image_insertions: self.images.insertions(),
            samplers: self.samplers.entries(),
            sampler_generations: self.samplers.generations(),
            sampler_insertions: self.samplers.insertions(),
            storage_buffer_slots: self.descriptor_set.storage_buffers@,
            storage_image_slots: self.descriptor_set.storage_images@,
            sampled_image_slots: self.descriptor_set.sampled_images@,
            sampler_slots: self.descriptor_set.samplers@,
            transient_buffers: self.transient_buffers@,
            transient_images: self.transient_images@,
            pending_buffers: ring_view(self.freed_buffers@),
            pending_images: ring_view(self.freed_images@),
            pending_samplers: ring_view(self.freed_samplers@),
        }
    }
}

/// What a buffer is stored as when it is added: bound to `binding` if its
/// usage asks for storage access, unbound otherwise, and not yet used.
pub open spec fn stored_buffer(buffer: Buffer, binding: Option<u32>) -> Resource {
    Resource::Buffer(
        BufferResource {
            buffer: Buffer {
                handle: buffer.handle,
                size: buffer.size,
                usage: buffer.usage,
                location: buffer.location,
                storage_binding: binding,
            },
            last_access: BufferResourceAccess::Unused,
        },
    )
}

/// Whether a buffer with these usage bits is given a storage-buffer slot.
pub open spec fn buffer_wants_storage(usage: u32) -> bool {
    has_all_bits(usage, BUFFER_USAGE_STORAGE_BUFFER)
}

/// The buffer stored under `key`, if the key is live.
pub open spec fn buffer_at(state: ManagerState, key: BufferKey) -> Option<BufferResource> {
    match lookup(state.buffers, key.0) {
        Some(Resource::Buffer(b)) => Some(b),
        _ => None,
    }
}

/// What an image is stored as when it is added: bound as given, and not yet
/// used.
pub open spec fn stored_image(image: Image, storage: Option<u32>, sampled: Option<u32>) -> Resource {
    Resource::Image(
        ImageResource {
            image: Image {
                handle: image.handle,
                size: image.size,
                format: image.format,
                usage: image.usage,
                location: image.location,
                storage_binding: storage,
                sampled_binding: sampled,
            },
            last_usage: ImageResourceAccess::Unused,
        },
    )
}

/// Whether an image with these usage bits is given a storage-image slot.
pub open spec fn image_wants_storage(usage: u32) -> bool {
    has_all_bits(usage, IMAGE_USAGE_STORAGE)
}

/// Whether an image with these usage bits is given a sampled-image slot.
pub open spec fn image_wants_sampled(usage: u32) -> bool {
    has_all_bits(usage, IMAGE_USAGE_SAMPLED)
}

/// The image stored under `key`, if the key is live.
pub open spec fn image_at(state: ManagerState, key: ImageKey) -> Option<ImageResource> {
    match lookup(state.images, key.0) {
        Some(Resource::Image(i)) => Some(i),
        _ => None,
    }
}

/// The sampler stored under `key`, if the key is live.
pub open spec fn sampler_at(state: ManagerState, key: SamplerKey) -> Option<Sampler> {
    match lookup(state.samplers, key.0) {
        Some(Resource::Sampler(s)) => Some(s),
        _ => None,
    }
}

/// The transient buffer made from a description, a device handle and a
/// binding.
pub open spec fn transient_buffer(
    description: BufferDescription,
    handle: u64,
    binding: Option<u32>,
) -> Buffer {
    Buffer {
        handle,
        size: description.size,
        usage: description.usage,
        location: description.location,
        storage_binding: binding,
    }
}

/// The transient image made from a description, its resolved size, a device
/// handle and its bindings.
pub open spec fn transient_image(
    description: TransientImageDescription,
    size: Extent2D,
    handle: u64,
    storage: Option<u32>,
    sampled: Option<u32>,
) -> Image {
    Image {
        handle,
        size,
        format: description.format,
        usage: description.usage,
        location: description.location,
        storage_binding: storage,
        sampled_binding: sampled,
    }
}

impl ManagerState {
    /// No buffer of this usage can be added: the table accepts no more
    /// insertions, or a storage-buffer slot is needed and none is free.
    pub open spec fn buffer_refused(self, usage: u32) -> bool {
        self.buffer_insertions >= MAX_INSERTIONS || (buffer_wants_storage(usage) && all_bound(
            self.storage_buffer_slots,
        ))
    }

    /// `after` is this state with `buffer` added under `key`: stored unused,
    /// bound to the lowest free storage-buffer slot if its usage asks for
    /// storage access and unbound otherwise, under a key that was not live.
    pub open spec fn buffer_added(self, buffer: Buffer, key: u64, after: ManagerState) -> bool {
        let binding = if buffer_wants_storage(buffer.usage) {
            Some(first_free_index(self.storage_buffer_slots)->0 as u32)
        } else {
            None
        };
        &&& slot_inserted(
            self.buffers,
            self.buffer_generations,
            stored_buffer(buffer, binding),
            key,
            after.buffers,
            after.buffer_generations,
        )
        &&& !self.buffers.contains_key(key)
        &&& after == (ManagerState {
            buffers: after.buffers,
            buffer_generations: after.buffer_generations,
            buffer_insertions: self.buffer_insertions + 1,
            storage_buffer_slots: match binding {
                Some(index) => self.storage_buffer_slots.update(
                    index as int,
                    Some(BindingOwner::Persistent(key)),
                ),
                None => self.storage_buffer_slots,
            },
            ..self
        })
    }

    /// No image of this usage can be added: the table accepts no more
    /// insertions, or a slot is needed and none is free.
    pub open spec fn image_refused(self, usage: u32) -> bool {
        self.image_insertions >= MAX_INSERTIONS || (image_wants_storage(usage) && all_bound(
            self.storage_image_slots,
        )) || (image_wants_sampled(usage) && all_bound(self.sampled_image_slots))
    }

    /// `after` is this state with `image` added under `key`: stored unused,
    /// bound to the lowest free slot of each table that its usage asks for,
    /// under a key that was not live.
    pub open spec fn image_added(self, image: Image, key: u64, after: ManagerState) -> bool {
        let storage = if image_wants_storage(image.usage) {
            Some(first_free_index(self.storage_image_slots)->0 as u32)
        } else {
            None
        };
        let sampled = if image_wants_sampled(image.usage) {
            Some(first_free_index(self.sampled_image_slots)->0 as u32)
        } else {
            None
        };
        &&& slot_inserted(
            self.images,
            self.image_generations,
            stored_image(image, storage, sampled),
            key,
            after.images,
            after.image_generations,
        )
        &&& !self.images.contains_key(key)
        &&& after == (ManagerState {
            images: after.images,
            image_generations: after.image_generations,
            image_insertions: self.image_insertions + 1,
            storage_image_slots: match storage {
                Some(index) => self.storage_image_slots.update(
                    index as int,
                    Some(BindingOwner::Persistent(key)),
                ),
                None => self.storage_image_slots,
            },
            sampled_image_slots: match sampled {
                Some(index) => self.sampled_image_slots.update(
                    index as int,
                    Some(BindingOwner::Persistent(key)),
                ),
                None => self.sampled_image_slots,
            },
            ..self
        })
    }

    /// This state with the buffer key `key` queued for removal.
    pub open spec fn buffer_queued(self, key: u64) -> ManagerState {
        ManagerState {
            pending_buffers: self.pending_buffers.update(0, self.pending_buffers[0].push(key)),
            ..self
        }
    }

    /// No sampler can be added: the table accepts no more insertions, or no
    /// sampler slot is free.
    pub open spec fn sampler_refused(self) -> bool {
        self.sampler_insertions >= MAX_INSERTIONS || all_bound(self.sampler_slots)
    }

    /// `after` is this state with the sampler of device handle `handle` added
    /// under `key`: bound to the lowest free sampler slot, under a key that
    /// was not live.
    pub open spec fn sampler_added(self, handle: u64, key: u64, after: ManagerState) -> bool {
        let index = first_free_index(self.sampler_slots)->0;
        &&& slot_inserted(
            self.samplers,
            self.sampler_generations,
            Resource::Sampler(Sampler { handle, binding: Some(index as u32) }),
            key,
            after.samplers,
            after.sampler_generations,
        )
        &&& !self.samplers.contains_key(key)
        &&& after == (ManagerState {
            samplers: after.samplers,
            sampler_generations: after.sampler_generations,
            sampler_insertions: self.sampler_insertions + 1,
            sampler_slots: self.sampler_slots.update(index, Some(BindingOwner::Persistent(key))),
            ..self
        })
    }

    /// This state with the sampler key `key` queued for removal.
    pub open spec fn sampler_queued(self, key: u64) -> ManagerState {
        ManagerState {
            pending_samplers: self.pending_samplers.update(0, self.pending_samplers[0].push(key)),
            ..self
        }
    }

    /// This state with the image key `key` queued for removal.
    pub open spec fn image_queued(self, key: u64) -> ManagerState {
        ManagerState {
            pending_images: self.pending_images.update(0, self.pending_images[0].push(key)),
            ..self
        }
    }

    /// Registers a transient buffer: it is appended to the frame's list and,
    /// if its usage asks for storage access, given the lowest free
    /// storage-buffer slot. Fails, changing nothing, when a slot is needed
    /// and none is free.
    pub open spec fn with_transient_buffer(self, description: BufferDescription, handle: u64) -> (
        ManagerState,
        Result<BufferTempResource, Error>,
    ) {
        let place = self.transient_buffers.len() as usize;
        if buffer_wants_storage(description.usage) {
            match first_free_index(self.storage_buffer_slots) {
                Some(index) => {
                    let buffer = transient_buffer(description, handle, Some(index as u32));
                    (
                        ManagerState {
                            storage_buffer_slots: self.storage_buffer_slots.update(
                                index,
                                Some(BindingOwner::Transient(place)),
                            ),
                            transient_buffers: self.transient_buffers.push(buffer),
                            ..self
                        },
                        Ok(BufferTempResource { buffer, last_access: BufferResourceAccess::Unused }),
                    )
                },
                None => (self, Err(Error::AllocationFailure)),
            }
        } else {
            let buffer = transient_buffer(description, handle, None);
            (
                ManagerState { transient_buffers: self.transient_buffers.push(buffer), ..self },
                Ok(BufferTempResource { buffer, last_access: BufferResourceAccess::Unused }),
            )
        }
    }

    /// Registers a transient image: it is appended to the frame's list and
    /// given the lowest free storage-image slot if its usage asks for storage
    /// access, and the lowest free sampled-image slot if its usage asks for
    /// sampling. Fails, changing nothing, when a slot is needed and none is
    /// free.
    pub open spec fn with_transient_image(
        self,
        description: TransientImageDescription,
        size: Extent2D,
        handle: u64,
    ) -> (ManagerState, Result<ImageTempResource, Error>) {
        let place = self.transient_images.len() as usize;
        let wants_storage = image_wants_storage(description.usage);
        let wants_sampled = image_wants_sampled(description.usage);
        let storage_slot = first_free_index(self.storage_image_slots);
        let sampled_slot = first_free_index(self.sampled_image_slots);
        if (wants_storage && storage_slot is None) || (wants_sampled && sampled_slot is None) {
            (self, Err(Error::AllocationFailure))
        } else {
            let storage = if wants_storage {
                Some(storage_slot->0 as u32)
            } else {
                None
            };
            let sampled = if wants_sampled {
                Some(sampled_slot->0 as u32)
            } else {
                None
            };
            let image = transient_image(description, size, handle, storage, sampled);
            (
                ManagerState {
                    storage_image_slots: if wants_storage {
                        self.storage_image_slots.update(
                            storage_slot->0,
                            Some(BindingOwner::Transient(place)),
                        )
                    } else {
                        self.storage_image_slots
                    },
                    sampled_image_slots: if wants_sampled {
                        self.sampled_image_slots.update(
                            sampled_slot->0,
                            Some(BindingOwner::Transient(place)),
                        )
                    } else {
                        self.sampled_image_slots
                    },
                    transient_images: self.transient_images.push(image),
                    ..self
                },
                Ok(ImageTempResource { image, last_usage: ImageResourceAccess::Unused }),
            )
        }
    }
}

impl ResourceManager {
    /// The manager's invariant holds.
    pub open spec fn wf(&self) -> bool {
        self@.wf()
    }

    /// A manager that holds nothing and defers each deletion by
    /// `frames_in_flight` flushes, by one if zero is given.
    pub fn new(frames_in_flight: usize) -> (manager: ResourceManager)
        ensures
            manager.wf(),
            manager@.is_empty(),
            manager@.frames_in_flight() == (if frames_in_flight == 0 {
                1
            } else {
                frames_in_flight
            }),
    {
        let generations = if frames_in_flight == 0 {
            1
        } else {
            frames_in_flight
        };
        let mut freed_buffers: Vec<Vec<u64>> = Vec::new();
        let mut freed_images: Vec<Vec<u64>> = Vec::new();
        let mut freed_samplers: Vec<Vec<u64>> = Vec::new();
        let mut i: usize = 0;
        while i < generations
            invariant
                i <= generations,
                freed_buffers@.len() == i,
                freed_images@.len() == i,
                freed_samplers@.len() == i,
                forall|j: int| 0 <= j < i ==> #[trigger] freed_buffers@[j]@.len() == 0,
                forall|j: int| 0 <= j < i ==> #[trigger] freed_images@[j]@.len() == 0,
                forall|j: int| 0 <= j < i ==> #[trigger] freed_samplers@[j]@.len() == 0,
            decreases generations - i,
        {
            freed_buffers.push(Vec::new());
            freed_images.push(Vec::new());
            freed_samplers.push(Vec::new());
            i += 1;
        }
        let descriptor_set = DescriptorSet::new(
            DescriptorCount {
                storage_buffers: STORAGE_BUFFER_SLOTS,
                storage_images: STORAGE_IMAGE_SLOTS,
                sampled_images: SAMPLED_IMAGE_SLOTS,
                samplers: SAMPLER_SLOTS,
            },
        );
        let manager = ResourceManager {
            buffers: SlotTable::new(),
            images: SlotTable::new(),
            samplers: SlotTable::new(),
            descriptor_set,
            transient_buffers: Vec::new(),
            transient_images: Vec::new(),
            freed_buffers,
            freed_images,
            freed_samplers,
        };
        manager
    }

    /// Takes ownership of a buffer. If its usage asks for storage access it
    /// is given the lowest free storage-buffer slot; otherwise it is stored
    /// unbound. Fails, changing nothing, when a slot is needed and none is
    /// free, or when the buffer table accepts no more insertions.
    pub fn add_buffer(&mut self, buffer: Buffer) -> (r: Result<BufferKey, Error>)
        requires
            old(self).wf(),
        ensures
            final(self).wf(),
            r is Err <==> old(self)@.buffer_refused(buffer.usage),
            r matches Err(e) ==> e == Error::AllocationFailure && final(self)@ == old(self)@,
            r matches Ok(key) ==> old(self)@.buffer_added(buffer, key.0, final(self)@),
    {
        if self.buffers.insertions_made() >= MAX_INSERTIONS {
            return Err(Error::AllocationFailure);
        }
        let wants = contains_bits(buffer.usage, BUFFER_USAGE_STORAGE_BUFFER);
        let binding = if wants {
            match self.descriptor_set.storage_buffers.first_free() {
                Some(index) => Some(index),
                None => {
                    return Err(Error::AllocationFailure);
                },
            }
        } else {
            None
        };
        proof {
            if wants {
                lemma_first_free_unique(
                    self@.storage_buffer_slots,
                    binding->0 as int,
                );
            }
        }
        let stored = Resource::Buffer(
            BufferResource {
                buffer: Buffer {
                    handle: buffer.handle,
                    size: buffer.size,
                    usage: buffer.usage,
                    location: buffer.location,
                    storage_binding: binding,
                },
                last_access: BufferResourceAccess::Unused,
            },
        );
        let inserted = self.buffers.insert(stored);
        let key = inserted.unwrap();
        match binding {
            Some(index) => {
                self.descriptor_set.storage_buffers.assign(index, BindingOwner::Persistent(key));
                proof {
                    lemma_bind_persistent(
                        old(self)@.storage_buffer_slots,
                        old(self)@.buffer_bindings(),
                        old(self)@.transient_buffer_bindings(),
                        key,
                        index,
                    );
                    assert(self@.buffer_bindings() =~= old(self)@.buffer_bindings().insert(
                        key,
                        Some(index),
                    ));
                }
            },
            None => {
                proof {
                    lemma_add_unbound_persistent(
                        old(self)@.storage_buffer_slots,
                        old(self)@.buffer_bindings(),
                        old(self)@.transient_buffer_bindings(),
                        key,
                    );
                    assert(self@.buffer_bindings() =~= old(self)@.buffer_bindings().insert(
                        key,
                        None,
                    ));
                }
            },
        }
        Ok(BufferKey(key))
    }

    /// Looks up a persistent buffer.
    pub fn get_buffer(&self, key: BufferKey) -> (r: Option<Buffer>)
        requires
            self.wf(),
        ensures
            r == (match buffer_at(self@, key) {
                Some(b) => Some(b.buffer),
                None => None,
            }),
    {
        match self.buffers.get(key.0) {
            Some(Resource::Buffer(b)) => Some(b.buffer),
            _ => None,
        }
    }

    /// Reads the access a persistent buffer was last put to and overwrites
    /// it with `new_last_access`. Returns the buffer with the access read.
    /// A key that is not live changes nothing.
    pub fn get_and_update_buffer_resource(
        &mut self,
        key: BufferKey,
        new_last_access: BufferResourceAccess,
    ) -> (r: Option<BufferTempResource>)
        requires
            old(self).wf(),
        ensures
            final(self).wf(),
            r == (match buffer_at(old(self)@, key) {
                Some(b) => Some(BufferTempResource { buffer: b.buffer, last_access: b.last_access }),
                None => None,
            }),
            final(self)@ == (match buffer_at(old(self)@, key) {
                Some(b) => ManagerState {
                    buffers: old(self)@.buffers.insert(
                        key.0,
                        Resource::Buffer(
                            BufferResource { buffer: b.buffer, last_access: new_last_access },
                        ),
                    ),
                    ..old(self)@
                },
                None => old(self)@,
            }),
    {
        match self.buffers.get(key.0) {
            Some(Resource::Buffer(b)) => {
                let updated = Resource::Buffer(
                    BufferResource { buffer: b.buffer, last_access: new_last_access },
                );
                self.buffers.replace(key.0, updated);
                proof {
                    assert(self@.buffer_bindings() =~= old(self)@.buffer_bindings());
                }
                Some(BufferTempResource { buffer: b.buffer, last_access: b.last_access })
            },
            _ => None,
        }
    }

    /// Queues a buffer key for deferred removal. The buffer stays live, and
    /// its key valid, until the ring has turned once round.
    pub fn remove_buffer(&mut self, key: BufferKey)
        requires
            old(self).wf(),
        ensures
            final(self).wf(),
            final(self)@ == old(self)@.buffer_queued(key.0),
    {
        self.freed_buffers[0].push(key.0);
        proof {
            assert(self@.pending_buffers =~= old(self)@.pending_buffers.update(
                0,
                old(self)@.pending_buffers[0].push(key.0),
            ));
        }
    }
    /// Queues an image key for deferred removal. The image stays live, and
    /// its key valid, until the ring has turned once round.
    pub fn remove_image(&mut self, key: ImageKey)
        requires
            old(self).wf(),
        ensures
            final(self).wf(),
            final(self)@ == old(self)@.image_queued(key.0),
    {
        self.freed_images[0].push(key.0);
        proof {
            assert(self@.pending_images =~= old(self)@.pending_images.update(
                0,
                old(self)@.pending_images[0].push(key.0),
            ));
        }
    }

    /// Takes ownership of an image. It is given the lowest free
    /// storage-image slot if its usage asks for storage access, and the
    /// lowest free sampled-image slot if its usage asks for sampling. Fails,
    /// changing nothing, when a slot is needed and none is free, or when the
    /// image table accepts no more insertions.
    pub fn add_image(&mut self, image: Image) -> (r: Result<ImageKey, Error>)
        requires
            old(self).wf(),
        ensures
            final(self).wf(),
            r is Err <==> old(self)@.image_refused(image.usage),
            r matches Err(e) ==> e == Error::AllocationFailure && final(self)@ == old(self)@,
            r matches Ok(key) ==> old(self)@.image_added(image, key.0, final(self)@),
    {
        if self.images.insertions_made() >= MAX_INSERTIONS {
            return Err(Error::AllocationFailure);
        }
        let storage = if contains_bits(image.usage, IMAGE_USAGE_STORAGE) {
            match self.descriptor_set.storage_images.first_free() {
                Some(index) => Some(index),
                None => {
                    return Err(Error::AllocationFailure);
                },
            }
        } else {
            None
        };
        let sampled = if contains_bits(image.usage, IMAGE_USAGE_SAMPLED) {
            match self.descriptor_set.sampled_images.first_free() {
                Some(index) => Some(index),
                None => {
                    return Err(Error::AllocationFailure);
                },
            }
        } else {
            None
        };
        proof {
            if storage is Some {
                lemma_first_free_unique(self@.storage_image_slots, storage->0 as int);
            }
            if sampled is Some {
                lemma_first_free_unique(self@.sampled_image_slots, sampled->0 as int);
            }
        }
        let stored = Resource::Image(
            ImageResource {
                image: Image {
                    handle: image.handle,
                    size: image.size,
                    format: image.format,
                    usage: image.usage,
                    location: image.location,
                    storage_binding: storage,
                    sampled_binding: sampled,
                },
                last_usage: ImageResourceAccess::Unused,
            },
        );
        let inserted = self.images.insert(stored);
        let key = inserted.unwrap();
        match storage {
            Some(index) => {
                self.descriptor_set.storage_images.assign(index, BindingOwner::Persistent(key));
                proof {
                    lemma_bind_persistent(
                        old(self)@.storage_image_slots,
                        old(self)@.image_storage_bindings(),
                        old(self)@.transient_image_storage_bindings(),
                        key,
                        index,
                    );
                    assert(self@.image_storage_bindings() =~= old(self)@.image_storage_bindings()
                        .insert(key, Some(index)));
                }
            },
            None => {
                proof {
                    lemma_add_unbound_persistent(
                        old(self)@.storage_image_slots,
                        old(self)@.image_storage_bindings(),
                        old(self)@.transient_image_storage_bindings(),
                        key,
                    );
                    assert(self@.image_storage_bindings() =~= old(self)@.image_storage_bindings()
                        .insert(key, None));
                }
            },
        }
        match sampled {
            Some(index) => {
                self.descriptor_set.sampled_images.assign(index, BindingOwner::Persistent(key));
                proof {
                    lemma_bind_persistent(
                        old(self)@.sampled_image_slots,
                        old(self)@.image_sampled_bindings(),
                        old(self)@.transient_image_sampled_bindings(),
                        key,
                        index,
                    );
                    assert(self@.image_sampled_bindings() =~= old(self)@.image_sampled_bindings()
                        .insert(key, Some(index)));
                }
            },
            None => {
                proof {
                    lemma_add_unbound_persistent(
                        old(self)@.sampled_image_slots,
                        old(self)@.image_sampled_bindings(),
                        old(self)@.transient_image_sampled_bindings(),
                        key,
                    );
                    assert(self@.image_sampled_bindings() =~= old(self)@.image_sampled_bindings()
                        .insert(key, None));
                }
            },
        }
        Ok(ImageKey(key))
    }

    /// Looks up a persistent image.
    pub fn get_image(&self, key: ImageKey) -> (r: Option<Image>)
        requires
            self.wf(),
        ensures
            r == (match image_at(self@, key) {
                Some(i) => Some(i.image),
                None => None,
            }),
    {
        match self.images.get(key.0) {
            Some(Resource::Image(i)) => Some(i.image),
            _ => None,
        }
    }

    /// Reads the access a persistent image was last put to and overwrites it
    /// with `new_last_usage`. Returns the image with the access read. A key
    /// that is not live changes nothing.
    pub fn get_and_update_image_resource(
        &mut self,
        key: ImageKey,
        new_last_usage: ImageResourceAccess,
    ) -> (r: Option<ImageResource>)
        requires
            old(self).wf(),
        ensures
            final(self).wf(),
            r == image_at(old(self)@, key),
            final(self)@ == (match image_at(old(self)@, key) {
                Some(i) => ManagerState {
                    images: old(self)@.images.insert(
                        key.0,
                        Resource::Image(ImageResource { image: i.image, last_usage: new_last_usage }),
                    ),
                    ..old(self)@
                },
                None => old(self)@,
            }),
    {
        match self.images.get(key.0) {
            Some(Resource::Image(i)) => {
                let updated = Resource::Image(
                    ImageResource { image: i.image, last_usage: new_last_usage },
                );
                self.images.replace(key.0, updated);
                proof {
                    assert(self@.image_storage_bindings() =~= old(self)@.image_storage_bindings());
                    assert(self@.image_sampled_bindings() =~= old(self)@.image_sampled_bindings());
                }
                Some(i)
            },
            _ => None,
        }
    }

    /// Takes ownership of a sampler and gives it the lowest free sampler
    /// slot. Fails, changing nothing, when no slot is free, or when the
    /// sampler table accepts no more insertions.
    pub fn add_sampler(&mut self, sampler: Sampler) -> (r: Result<SamplerKey, Error>)
        requires
            old(self).wf(),
        ensures
            final(self).wf(),
            r is Err <==> old(self)@.sampler_refused(),
            r matches Err(e) ==> e == Error::AllocationFailure && final(self)@ == old(self)@,
            r matches Ok(key) ==> old(self)@.sampler_added(sampler.handle, key.0, final(self)@),
    {
        if self.samplers.insertions_made() >= MAX_INSERTIONS {
            return Err(Error::AllocationFailure);
        }
        let index = match self.descriptor_set.samplers.first_free() {
            Some(index) => index,
            None => {
                return Err(Error::AllocationFailure);
            },
        };
        proof {
            lemma_first_free_unique(self@.sampler_slots, index as int);
        }
        let stored = Resource::Sampler(Sampler { handle: sampler.handle, binding: Some(index) });
        let inserted = self.samplers.insert(stored);
        let key = inserted.unwrap();
        self.descriptor_set.samplers.assign(index, BindingOwner::Persistent(key));
        proof {
            lemma_bind_persistent(
                old(self)@.sampler_slots,
                old(self)@.sampler_bindings(),
                Seq::empty(),
                key,
                index,
            );
            assert(self@.sampler_bindings() =~= old(self)@.sampler_bindings().insert(
                key,
                Some(index),
            ));
        }
        Ok(SamplerKey(key))
    }

    /// Looks up a sampler.
    pub fn get_sampler(&self, key: SamplerKey) -> (r: Option<Sampler>)
        requires
            self.wf(),
        ensures
            r == sampler_at(self@, key),
    {
        match self.samplers.get(key.0) {
            Some(Resource::Sampler(s)) => Some(s),
            _ => None,
        }
    }

    /// Queues a sampler key for deferred removal. The sampler stays live,
    /// and its key valid, until the ring has turned once round.
    pub fn remove_sampler(&mut self, key: SamplerKey)
        requires
            old(self).wf(),
        ensures
            final(self).wf(),
            final(self)@ == old(self)@.sampler_queued(key.0),
    {
        self.freed_samplers[0].push(key.0);
        proof {
            assert(self@.pending_samplers =~= old(self)@.pending_samplers.update(
                0,
                old(self)@.pending_samplers[0].push(key.0),
            ));
        }
    }

    /// How many flushes a destroyed resource outlives.
    pub fn frames_in_flight(&self) -> (n: usize)
        requires
            self.wf(),
        ensures
            n == self@.frames_in_flight(),
    {
        self.freed_buffers.len()
    }

    /// How many buffer keys wait in queue `queue` of the ring; none in a
    /// queue that the ring does not have.
    pub fn pending_buffer_count(&self, queue: usize) -> (n: usize)
        requires
            self.wf(),
        ensures
            n == (if queue < self@.pending_buffers.len() {
                self@.pending_buffers[queue as int].len()
            } else {
                0
            }),
    {
        if queue < self.freed_buffers.len() {
            self.freed_buffers[queue].len()
        } else {
            0
        }
    }

    /// How many image keys wait in queue `queue` of the ring; none in a
    /// queue that the ring does not have.
    pub fn pending_image_count(&self, queue: usize) -> (n: usize)
        requires
            self.wf(),
        ensures
            n == (if queue < self@.pending_images.len() {
                self@.pending_images[queue as int].len()
            } else {
                0
            }),
    {
        if queue < self.freed_images.len() {
            self.freed_images[queue].len()
        } else {
            0
        }
    }

    /// How many sampler keys wait in queue `queue` of the ring; none in a
    /// queue that the ring does not have.
    pub fn pending_sampler_count(&self, queue: usize) -> (n: usize)
        requires
            self.wf(),
        ensures
            n == (if queue < self@.pending_samplers.len() {
                self@.pending_samplers[queue as int].len()
            } else {
                0
            }),
    {
        if queue < self.freed_samplers.len() {
            self.freed_samplers[queue].len()
        } else {
            0
        }
    }

    /// How many transient buffers the frame holds.
    pub fn transient_buffer_count(&self) -> (n: usize)
        ensures
            n == self@.transient_buffers.len(),
    {
        self.transient_buffers.len()
    }

    /// How many transient images the frame holds.
    pub fn transient_image_count(&self) -> (n: usize)
        ensures
            n == self@.transient_images.len(),
    {
        self.transient_images.len()
    }

    /// Who holds slot `index` of the storage-buffer table.
    pub fn storage_buffer_owner(&self, index: u32) -> (r: Option<BindingOwner>)
        requires
            self.wf(),
        ensures
            r == (if index < self@.storage_buffer_slots.len() {
                self@.storage_buffer_slots[index as int]
            } else {
                None
            }),
    {
        self.descriptor_set.storage_buffers.owner(index)
    }

    /// Who holds slot `index` of the storage-image table.
    pub fn storage_image_owner(&self, index: u32) -> (r: Option<BindingOwner>)
        requires
            self.wf(),
        ensures
            r == (if index < self@.storage_image_slots.len() {
                self@.storage_image_slots[index as int]
            } else {
                None
            }),
    {
        self.descriptor_set.storage_images.owner(index)
    }

    /// Who holds slot `index` of the sampled-image table.
    pub fn sampled_image_owner(&self, index: u32) -> (r: Option<BindingOwner>)
        requires
            self.wf(),
        ensures
            r == (if index < self@.sampled_image_slots.len() {
                self@.sampled_image_slots[index as int]
            } else {
                None
            }),
    {
        self.descriptor_set.sampled_images.owner(index)
    }

    /// Who holds slot `index` of the sampler table.
    pub fn sampler_owner(&self, index: u32) -> (r: Option<BindingOwner>)
        requires
            self.wf(),
        ensures
            r == (if index < self@.sampler_slots.len() {
                self@.sampler_slots[index as int]
            } else {
                None
            }),
    {
        self.descriptor_set.samplers.owner(index)
    }

    /// Looks up a persistent buffer together with the access it was last put
    /// to.
    pub fn get_buffer_resource(&self, key: BufferKey) -> (r: Option<BufferResource>)
        requires
            self.wf(),
        ensures
            r == buffer_at(self@, key),
    {
        match self.buffers.get(key.0) {
            Some(Resource::Buffer(b)) => Some(b),
            _ => None,
        }
    }

    /// Looks up a persistent image together with the access it was last put
    /// to.
    pub fn get_image_resource(&self, key: ImageKey) -> (r: Option<ImageResource>)
        requires
            self.wf(),
        ensures
            r == image_at(self@, key),
    {
        match self.images.get(key.0) {
            Some(Resource::Image(i)) => Some(i),
            _ => None,
        }
    }

    /// Registers a transient buffer around the device object `handle`.
    pub fn add_transient_buffer(&mut self, description: &BufferDescription, handle: u64) -> (r: Result<
        BufferTempResource,
        Error,
    >)
        requires
            old(self).wf(),
        ensures
            final(self).wf(),
            (final(self)@, r) == old(self)@.with_transient_buffer(*description, handle),
    {
        let place = self.transient_buffers.len();
        let binding = if contains_bits(description.usage, BUFFER_USAGE_STORAGE_BUFFER) {
            match self.descriptor_set.storage_buffers.bind(BindingOwner::Transient(place)) {
                Some(index) => Some(index),
                None => {
                    proof {
                        lemma_first_free_unique(old(self)@.storage_buffer_slots, 0);
                    }
                    return Err(Error::AllocationFailure);
                },
            }
        } else {
            None
        };
        let buffer = Buffer {
            handle,
            size: description.size,
            usage: description.usage,
            location: description.location,
            storage_binding: binding,
        };
        self.transient_buffers.push(buffer);
        proof {
            assert(self.transient_buffers@.len() == self.transient_buffers.len());
            assert(self@.transient_buffer_bindings() =~= old(self)@.transient_buffer_bindings().push(
                binding,
            ));
            match binding {
                Some(index) => {
                    lemma_bind_transient(
                        old(self)@.storage_buffer_slots,
                        old(self)@.buffer_bindings(),
                        old(self)@.transient_buffer_bindings(),
                        index,
                    );
                },
                None => {
                    lemma_add_unbound_transient(
                        old(self)@.storage_buffer_slots,
                        old(self)@.buffer_bindings(),
                        old(self)@.transient_buffer_bindings(),
                    );
                },
            }
        }
        Ok(BufferTempResource { buffer, last_access: BufferResourceAccess::Unused })
    }

    /// Registers a transient image of the given size around the device
    /// object `handle`.
    pub fn add_transient_image(
        &mut self,
        description: &TransientImageDescription,
        size: Extent2D,
        handle: u64,
    ) -> (r: Result<ImageTempResource, Error>)
        requires
            old(self).wf(),
        ensures
            final(self).wf(),
            (final(self)@, r) == old(self)@.with_transient_image(*description, size, handle),
    {
        let place = self.transient_images.len();
        let storage = if contains_bits(description.usage, IMAGE_USAGE_STORAGE) {
            match self.descriptor_set.storage_images.first_free() {
                Some(index) => Some(index),
                None => {
                    proof {
                        lemma_first_free_unique(self@.storage_image_slots, 0);
                    }
                    return Err(Error::AllocationFailure);
                },
            }
        } else {
            None
        };
        let sampled = if contains_bits(description.usage, IMAGE_USAGE_SAMPLED) {
            match self.descriptor_set.sampled_images.first_free() {
                Some(index) => Some(index),
                None => {
                    proof {
                        lemma_first_free_unique(self@.sampled_image_slots, 0);
                    }
                    return Err(Error::AllocationFailure);
                },
            }
        } else {
            None
        };
        proof {
            if storage is Some {
                lemma_first_free_unique(self@.storage_image_slots, storage->0 as int);
            }
            if sampled is Some {
                lemma_first_free_unique(self@.sampled_image_slots, sampled->0 as int);
            }
        }
        let image = Image {
            handle,
            size,
            format: description.format,
            usage: description.usage,
            location: description.location,
            storage_binding: storage,
            sampled_binding: sampled,
        };
        self.transient_images.push(image);
        proof {
            assert(self.transient_images@.len() == self.transient_images.len());
            assert(self@.transient_image_storage_bindings() =~= old(self)@
                .transient_image_storage_bindings().push(storage));
            assert(self@.transient_image_sampled_bindings() =~= old(self)@
                .transient_image_sampled_bindings().push(sampled));
        }
        match storage {
            Some(index) => {
                self.descriptor_set.storage_images.assign(index, BindingOwner::Transient(place));
                proof {
                    lemma_bind_transient(
                        old(self)@.storage_image_slots,
                        old(self)@.image_storage_bindings(),
                        old(self)@.transient_image_storage_bindings(),
                        index,
                    );
                }
            },
            None => {
                proof {
                    lemma_add_unbound_transient(
                        old(self)@.storage_image_slots,
                        old(self)@.image_storage_bindings(),
                        old(self)@.transient_image_storage_bindings(),
                    );
                }
            },
        }
        match sampled {
            Some(index) => {
                self.descriptor_set.sampled_images.assign(index, BindingOwner::Transient(place));
                proof {
                    lemma_bind_transient(
                        old(self)@.sampled_image_slots,
                        old(self)@.image_sampled_bindings(),
                        old(self)@.transient_image_sampled_bindings(),
                        index,
                    );
                }
            },
            None => {
                proof {
                    lemma_add_unbound_transient(
                        old(self)@.sampled_image_slots,
                        old(self)@.image_sampled_bindings(),
                        old(self)@.transient_image_sampled_bindings(),
                    );
                }
            },
        }
        Ok(ImageTempResource { image, last_usage: ImageResourceAccess::Unused })
    }

    /// Lists each removed key with the storage-buffer slot of its value.
    fn binding_pairs_buffer(removed: &Vec<(u64, Resource)>) -> (pairs: Vec<(u64, Option<u32>)>)
        ensures
            pairs@.len() == removed@.len(),
            forall|j: int|
                0 <= j < pairs@.len() ==> #[trigger] pairs@[j] == (
                    removed@[j].0,
                    buffer_storage_binding(removed@[j].1),
                ),
    {
        let mut pairs: Vec<(u64, Option<u32>)> = Vec::new();
        let mut j: usize = 0;
        while j < removed.len()
            invariant
                j <= removed.len(),
                pairs@.len() == j,
                forall|i: int|
                    0 <= i < j ==> #[trigger] pairs@[i] == (
                        removed@[i].0,
                        buffer_storage_binding(removed@[i].1),
                    ),
            decreases removed.len() - j,
        {
            let binding = match removed[j].1 {
                Resource::Buffer(b) => b.buffer.storage_binding,
                _ => None,
            };
            pairs.push((removed[j].0, binding));
            j += 1;
        }
        pairs
    }

    /// Lists each removed key with the storage-image slot and with the
    /// sampled-image slot of its value.
    fn binding_pairs_image(removed: &Vec<(u64, Resource)>) -> (pairs: (
        Vec<(u64, Option<u32>)>,
        Vec<(u64, Option<u32>)>,
    ))
        ensures
            pairs.0@.len() == removed@.len(),
            pairs.1@.len() == removed@.len(),
            forall|j: int|
                0 <= j < removed@.len() ==> #[trigger] pairs.0@[j] == (
                    removed@[j].0,
                    image_storage_binding(removed@[j].1),
                ),
            forall|j: int|
                0 <= j < removed@.len() ==> #[trigger] pairs.1@[j] == (
                    removed@[j].0,
                    image_sampled_binding(removed@[j].1),
                ),
    {
        let mut storage: Vec<(u64, Option<u32>)> = Vec::new();
        let mut sampled: Vec<(u64, Option<u32>)> = Vec::new();
        let mut j: usize = 0;
        while j < removed.len()
            invariant
                j <= removed.len(),
                storage@.len() == j,
                sampled@.len() == j,
                forall|i: int|
                    0 <= i < j ==> #[trigger] storage@[i] == (
                        removed@[i].0,
                        image_storage_binding(removed@[i].1),
                    ),
                forall|i: int|
                    0 <= i < j ==> #[trigger] sampled@[i] == (
                        removed@[i].0,
                        image_sampled_binding(removed@[i].1),
                    ),
            decreases removed.len() - j,
        {
            let bindings = match removed[j].1 {
                Resource::Image(i) => (i.image.storage_binding, i.image.sampled_binding),
                _ => (None, None),
            };
            storage.push((removed[j].0, bindings.0));
            sampled.push((removed[j].0, bindings.1));
            j += 1;
        }
        (storage, sampled)
    }

    /// Lists each removed key with the sampler slot of its value.
    fn binding_pairs_sampler(removed: &Vec<(u64, Resource)>) -> (pairs: Vec<(u64, Option<u32>)>)
        ensures
            pairs@.len() == removed@.len(),
            forall|j: int|
                0 <= j < pairs@.len() ==> #[trigger] pairs@[j] == (
                    removed@[j].0,
                    sampler_binding(removed@[j].1),
                ),
    {
        let mut pairs: Vec<(u64, Option<u32>)> = Vec::new();
        let mut j: usize = 0;
        while j < removed.len()
            invariant
                j <= removed.len(),
                pairs@.len() == j,
                forall|i: int|
                    0 <= i < j ==> #[trigger] pairs@[i] == (
                        removed@[i].0,
                        sampler_binding(removed@[i].1),
                    ),
            decreases removed.len() - j,
        {
            let binding = match removed[j].1 {
                Resource::Sampler(s) => s.binding,
                _ => None,
            };
            pairs.push((removed[j].0, binding));
            j += 1;
        }
        pairs
    }

    /// Appends the values of `removed` to `out`.
    fn collect_values(out: &mut Vec<Resource>, removed: &Vec<(u64, Resource)>)
        ensures
            final(out)@ == old(out)@ + removed@.map_values(|pair: (u64, Resource)| pair_value(pair)),
    {
        let mut j: usize = 0;
        while j < removed.len()
            invariant
                j <= removed.len(),
                out@ == old(out)@ + removed@.take(j as int).map_values(
                    |pair: (u64, Resource)| pair_value(pair),
                ),
            decreases removed.len() - j,
        {
            out.push(removed[j].1);
            j += 1;
        }
    }

    /// Ends the frame. The buffer, image and sampler keys that were queued
    /// `frames_in_flight` flushes ago are removed for good, the transient resources of the frame are
    /// dropped, the descriptor slots of both are given back, and the ring
    /// turns by one. Returns what was reclaimed, for destruction.
    pub fn flush_frame(&mut self) -> (reclaimed: ReclaimedResources)
        requires
            old(self).wf(),
        ensures
            final(self).wf(),
            final(self)@ == old(self)@.flushed(),
            reclaimed.persistent@ == old(self)@.reclaimed(),
            reclaimed.transient_buffers@ == old(self)@.transient_buffers,
            reclaimed.transient_images@ == old(self)@.transient_images,
    {
        let ghost before = self@;
        let buffer_queue = self.freed_buffers.pop().unwrap();
        let image_queue = self.freed_images.pop().unwrap();
        let sampler_queue = self.freed_samplers.pop().unwrap();
        let mut persistent: Vec<Resource> = Vec::new();
        proof {
            lemma_removed_pairs(before.buffers, buffer_queue@);
            lemma_removed_pairs(before.images, image_queue@);
            lemma_removed_pairs(before.samplers, sampler_queue@);
        }

        let removed_buffers = self.buffers.remove_all(&buffer_queue);
        let buffer_pairs = Self::binding_pairs_buffer(&removed_buffers);
        Self::collect_values(&mut persistent, &removed_buffers);
        proof {
            assert(first_keys(buffer_pairs@, buffer_pairs@.len() as int) =~= key_set(
                buffer_queue@,
            ).intersect(before.buffers.dom())) by {
                assert forall|key: u64|
                    first_keys(buffer_pairs@, buffer_pairs@.len() as int).contains(key) <==> (
                    buffer_queue@.contains(key) && before.buffers.contains_key(key)) by {
                    if buffer_queue@.contains(key) && before.buffers.contains_key(key) {
                        let j = choose|j: int|
                            0 <= j < removed_buffers@.len() && (#[trigger] removed_buffers@[j]).0
                                == key;
                        assert(buffer_pairs@[j].0 == key);
                    }
                }
            }
        }
        self.descriptor_set.storage_buffers.release_all(
            &buffer_pairs,
            Ghost(before.buffer_bindings()),
            Ghost(before.transient_buffer_bindings()),
        );
        proof {
            assert(self@.buffer_bindings() =~= before.buffer_bindings().remove_keys(
                first_keys(buffer_pairs@, buffer_pairs@.len() as int),
            ));
            assert(self@.storage_buffer_slots =~= without_persistent(
                before.storage_buffer_slots,
                key_set(buffer_queue@),
            ));
        }

        let removed_images = self.images.remove_all(&image_queue);
        let (storage_pairs, sampled_pairs) = Self::binding_pairs_image(&removed_images);
        Self::collect_values(&mut persistent, &removed_images);
        proof {
            assert forall|key: u64|
                first_keys(storage_pairs@, storage_pairs@.len() as int).contains(key) <==> (
                image_queue@.contains(key) && before.images.contains_key(key)) by {
                if image_queue@.contains(key) && before.images.contains_key(key) {
                    let j = choose|j: int|
                        0 <= j < removed_images@.len() && (#[trigger] removed_images@[j]).0 == key;
                    assert(storage_pairs@[j].0 == key);
                }
            }
            assert forall|key: u64|
                first_keys(sampled_pairs@, sampled_pairs@.len() as int).contains(key) <==> (
                image_queue@.contains(key) && before.images.contains_key(key)) by {
                if image_queue@.contains(key) && before.images.contains_key(key) {
                    let j = choose|j: int|
                        0 <= j < removed_images@.len() && (#[trigger] removed_images@[j]).0 == key;
                    assert(sampled_pairs@[j].0 == key);
                }
            }
        }
        self.descriptor_set.storage_images.release_all(
            &storage_pairs,
            Ghost(before.image_storage_bindings()),
            Ghost(before.transient_image_storage_bindings()),
        );
        self.descriptor_set.sampled_images.release_all(
            &sampled_pairs,
            Ghost(before.image_sampled_bindings()),
            Ghost(before.transient_image_sampled_bindings()),
        );
        proof {
            assert(self@.image_storage_bindings() =~= before.image_storage_bindings().remove_keys(
                first_keys(storage_pairs@, storage_pairs@.len() as int),
            ));
            assert(self@.image_sampled_bindings() =~= before.image_sampled_bindings().remove_keys(
                first_keys(sampled_pairs@, sampled_pairs@.len() as int),
            ));
            assert(self@.storage_image_slots =~= without_persistent(
                before.storage_image_slots,
                key_set(image_queue@),
            ));
            assert(self@.sampled_image_slots =~= without_persistent(
                before.sampled_image_slots,
                key_set(image_queue@),
            ));
        }

        let removed_samplers = self.samplers.remove_all(&sampler_queue);
        let sampler_pairs = Self::binding_pairs_sampler(&removed_samplers);
        Self::collect_values(&mut persistent, &removed_samplers);
        proof {
            assert forall|key: u64|
                first_keys(sampler_pairs@, sampler_pairs@.len() as int).contains(key) <==> (
                sampler_queue@.contains(key) && before.samplers.contains_key(key)) by {
                if sampler_queue@.contains(key) && before.samplers.contains_key(key) {
                    let j = choose|j: int|
                        0 <= j < removed_samplers@.len() && (#[trigger] removed_samplers@[j]).0
                            == key;
                    assert(sampler_pairs@[j].0 == key);
                }
            }
        }
        self.descriptor_set.samplers.release_all(
            &sampler_pairs,
            Ghost(before.sampler_bindings()),
            Ghost(Seq::empty()),
        );
        proof {
            assert(self@.sampler_bindings() =~= before.sampler_bindings().remove_keys(
                first_keys(sampler_pairs@, sampler_pairs@.len() as int),
            ));
            assert(self@.sampler_slots =~= without_persistent(
                before.sampler_slots,
                key_set(sampler_queue@),
            ));
        }

        let mut buffer_slots: Vec<Option<u32>> = Vec::new();
        let mut t: usize = 0;
        while t < self.transient_buffers.len()
            invariant
                t <= self.transient_buffers@.len(),
                buffer_slots@.len() == t,
                forall|i: int|
                    0 <= i < t ==> #[trigger] buffer_slots@[i]
                        == self.transient_buffers@[i].storage_binding,
            decreases self.transient_buffers@.len() - t,
        {
            buffer_slots.push(self.transient_buffers[t].storage_binding);
            t += 1;
        }
        let mut storage_slots: Vec<Option<u32>> = Vec::new();
        let mut sampled_slots: Vec<Option<u32>> = Vec::new();
        let mut t: usize = 0;
        while t < self.transient_images.len()
            invariant
                t <= self.transient_images@.len(),
                storage_slots@.len() == t,
                sampled_slots@.len() == t,
                forall|i: int|
                    0 <= i < t ==> #[trigger] storage_slots@[i]
                        == self.transient_images@[i].storage_binding,
                forall|i: int|
                    0 <= i < t ==> #[trigger] sampled_slots@[i]
                        == self.transient_images@[i].sampled_binding,
            decreases self.transient_images@.len() - t,
        {
            storage_slots.push(self.transient_images[t].storage_binding);
            sampled_slots.push(self.transient_images[t].sampled_binding);
            t += 1;
        }
        proof {
            assert(buffer_slots@ =~= before.transient_buffer_bindings());
            assert(storage_slots@ =~= before.transient_image_storage_bindings());
            assert(sampled_slots@ =~= before.transient_image_sampled_bindings());
        }
        self.descriptor_set.storage_buffers.release_transients(
            &buffer_slots,
            Ghost(self@.buffer_bindings()),
        );
        self.descriptor_set.storage_images.release_transients(
            &storage_slots,
            Ghost(self@.image_storage_bindings()),
        );
        self.descriptor_set.sampled_images.release_transients(
            &sampled_slots,
            Ghost(self@.image_sampled_bindings()),
        );
        let mut transient_buffers: Vec<Buffer> = Vec::new();
        let mut transient_images: Vec<Image> = Vec::new();
        std::mem::swap(&mut self.transient_buffers, &mut transient_buffers);
        std::mem::swap(&mut self.transient_images, &mut transient_images);

        self.freed_buffers.insert(0, Vec::new());
        self.freed_images.insert(0, Vec::new());
        self.freed_samplers.insert(0, Vec::new());
        proof {
            assert(self@.pending_buffers =~= before.pending_buffers.drop_last().insert(
                0,
                Seq::empty(),
            ));
            assert(self@.pending_images =~= before.pending_images.drop_last().insert(
                0,
                Seq::empty(),
            ));
            assert(self@.pending_samplers =~= before.pending_samplers.drop_last().insert(
                0,
                Seq::empty(),
            ));
        }
        ReclaimedResources { persistent, transient_buffers, transient_images }
    }
}

} // verus!
