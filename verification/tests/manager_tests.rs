use neptune_render::access::{BufferResourceAccess, ImageResourceAccess};
use neptune_render::descriptor::{BindingOwner, BindingTable, DescriptorCount, DescriptorSet};
use neptune_render::error::Error;
use neptune_render::flags::{
    BUFFER_USAGE_STORAGE_BUFFER, BUFFER_USAGE_TRANSFER_DST, BUFFER_USAGE_VERTEX_BUFFER,
    IMAGE_USAGE_SAMPLED, IMAGE_USAGE_STORAGE, IMAGE_USAGE_TRANSFER_DST,
};
use neptune_render::resource::{
    Buffer, BufferKey, BufferResource, BufferTempResource, Extent2D, Image, ImageKey,
    ImageResource, MemoryType, Resource, Sampler, SamplerKey,
};
use neptune_render::resource_manager::{
    ResourceManager, SAMPLED_IMAGE_SLOTS, SAMPLER_SLOTS, STORAGE_BUFFER_SLOTS,
    STORAGE_IMAGE_SLOTS,
};
use neptune_render::slots::{generation_of_key, slot_of_key};
use neptune_render::types::TextureFormat;

fn buffer(handle: u64, usage: u32) -> Buffer {
    Buffer { handle, size: 64, usage, location: MemoryType::GpuOnly, storage_binding: None }
}

fn image(handle: u64, usage: u32) -> Image {
    Image {
        handle,
        size: Extent2D { width: 4, height: 8 },
        format: TextureFormat::Rgba8Unorm,
        usage,
        location: MemoryType::GpuOnly,
        storage_binding: None,
        sampled_binding: None,
    }
}

#[test]
fn table_sizes() {
    assert_eq!(STORAGE_BUFFER_SLOTS, 1024);
    assert_eq!(STORAGE_IMAGE_SLOTS, 1024);
    assert_eq!(SAMPLED_IMAGE_SLOTS, 1024);
    assert_eq!(SAMPLER_SLOTS, 128);
}

#[test]
fn new_manager_is_empty() {
    let manager = ResourceManager::new(2);
    assert_eq!(manager.frames_in_flight(), 2);
    assert_eq!(manager.pending_buffer_count(0), 0);
    assert_eq!(manager.pending_buffer_count(1), 0);
    assert_eq!(manager.pending_buffer_count(2), 0);
    assert_eq!(manager.pending_image_count(0), 0);
    assert_eq!(manager.transient_buffer_count(), 0);
    assert_eq!(manager.transient_image_count(), 0);
    assert_eq!(manager.storage_buffer_owner(0), None);
    assert_eq!(manager.storage_buffer_owner(STORAGE_BUFFER_SLOTS), None);
    assert_eq!(manager.get_buffer(BufferKey((1 << 32) | 1)), None);
}

#[test]
fn zero_frames_in_flight_counts_as_one() {
    assert_eq!(ResourceManager::new(0).frames_in_flight(), 1);
    assert_eq!(ResourceManager::new(1).frames_in_flight(), 1);
    assert_eq!(ResourceManager::new(5).frames_in_flight(), 5);
}

#[test]
fn storage_buffers_are_bound_in_order() {
    let mut manager = ResourceManager::new(2);
    let plain = manager.add_buffer(buffer(1, BUFFER_USAGE_VERTEX_BUFFER)).unwrap();
    let first = manager.add_buffer(buffer(2, BUFFER_USAGE_STORAGE_BUFFER)).unwrap();
    let second = manager
        .add_buffer(buffer(3, BUFFER_USAGE_STORAGE_BUFFER | BUFFER_USAGE_TRANSFER_DST))
        .unwrap();
    assert_eq!(manager.get_buffer(plain).unwrap().storage_binding, None);
    assert_eq!(manager.get_buffer(first).unwrap().storage_binding, Some(0));
    assert_eq!(manager.get_buffer(second).unwrap().storage_binding, Some(1));
    assert_eq!(manager.storage_buffer_owner(0), Some(BindingOwner::Persistent(first.0)));
    assert_eq!(manager.storage_buffer_owner(1), Some(BindingOwner::Persistent(second.0)));
    assert_eq!(manager.storage_buffer_owner(2), None);
    let stored = manager.get_buffer(second).unwrap();
    assert_eq!(stored.handle, 3);
    assert_eq!(stored.size, 64);
    assert_eq!(stored.usage, BUFFER_USAGE_STORAGE_BUFFER | BUFFER_USAGE_TRANSFER_DST);
    assert_eq!(
        manager.get_buffer_resource(second),
        Some(BufferResource { buffer: stored, last_access: BufferResourceAccess::Unused })
    );
}

#[test]
fn a_binding_passed_in_is_not_taken_over() {
    let mut manager = ResourceManager::new(2);
    let mut given = buffer(1, BUFFER_USAGE_VERTEX_BUFFER);
    given.storage_binding = Some(77);
    let key = manager.add_buffer(given).unwrap();
    assert_eq!(manager.get_buffer(key).unwrap().storage_binding, None);
    assert_eq!(manager.storage_buffer_owner(77), None);
}

#[test]
fn images_are_bound_per_usage() {
    let mut manager = ResourceManager::new(2);
    let none = manager.add_image(image(1, IMAGE_USAGE_TRANSFER_DST)).unwrap();
    let storage = manager.add_image(image(2, IMAGE_USAGE_STORAGE)).unwrap();
    let sampled = manager.add_image(image(3, IMAGE_USAGE_SAMPLED)).unwrap();
    let both = manager.add_image(image(4, IMAGE_USAGE_SAMPLED | IMAGE_USAGE_STORAGE)).unwrap();
    let stored = manager.get_image(none).unwrap();
    assert_eq!((stored.storage_binding, stored.sampled_binding), (None, None));
    let stored = manager.get_image(storage).unwrap();
    assert_eq!((stored.storage_binding, stored.sampled_binding), (Some(0), None));
    let stored = manager.get_image(sampled).unwrap();
    assert_eq!((stored.storage_binding, stored.sampled_binding), (None, Some(0)));
    let stored = manager.get_image(both).unwrap();
    assert_eq!((stored.storage_binding, stored.sampled_binding), (Some(1), Some(1)));
    assert_eq!(stored.size, Extent2D { width: 4, height: 8 });
    assert_eq!(manager.storage_image_owner(1), Some(BindingOwner::Persistent(both.0)));
    assert_eq!(manager.sampled_image_owner(0), Some(BindingOwner::Persistent(sampled.0)));
    assert_eq!(
        manager.get_image_resource(both),
        Some(ImageResource { image: stored, last_usage: ImageResourceAccess::Unused })
    );
}

#[test]
fn last_access_is_read_then_overwritten() {
    let mut manager = ResourceManager::new(2);
    let key = manager.add_buffer(buffer(1, BUFFER_USAGE_VERTEX_BUFFER)).unwrap();
    let stored = manager.get_buffer(key).unwrap();
    assert_eq!(
        manager.get_and_update_buffer_resource(key, BufferResourceAccess::TransferWrite),
        Some(BufferTempResource { buffer: stored, last_access: BufferResourceAccess::Unused })
    );
    assert_eq!(
        manager.get_and_update_buffer_resource(key, BufferResourceAccess::VertexRead),
        Some(BufferTempResource {
            buffer: stored,
            last_access: BufferResourceAccess::TransferWrite
        })
    );
    assert_eq!(
        manager.get_buffer_resource(key).unwrap().last_access,
        BufferResourceAccess::VertexRead
    );
    assert_eq!(
        manager.get_and_update_buffer_resource(BufferKey(key.0 + (2 << 32)), BufferResourceAccess::Unused),
        None
    );

    let image_key = manager.add_image(image(1, IMAGE_USAGE_SAMPLED)).unwrap();
    let first = manager
        .get_and_update_image_resource(image_key, ImageResourceAccess::TransferWrite)
        .unwrap();
    assert_eq!(first.last_usage, ImageResourceAccess::Unused);
    let second = manager
        .get_and_update_image_resource(image_key, ImageResourceAccess::SampledRead)
        .unwrap();
    assert_eq!(second.last_usage, ImageResourceAccess::TransferWrite);
    assert_eq!(second.image.sampled_binding, Some(0));
    assert_eq!(
        manager.get_and_update_image_resource(ImageKey(0), ImageResourceAccess::Unused),
        None
    );
}

#[test]
fn a_destroyed_buffer_outlives_two_flushes_of_three() {
    let mut manager = ResourceManager::new(3);
    let key = manager.add_buffer(buffer(9, BUFFER_USAGE_STORAGE_BUFFER)).unwrap();
    manager.remove_buffer(key);
    assert_eq!(manager.pending_buffer_count(0), 1);
    assert!(manager.get_buffer(key).is_some());

    let reclaimed = manager.flush_frame();
    assert!(reclaimed.persistent.is_empty());
    assert_eq!(manager.pending_buffer_count(0), 0);
    assert_eq!(manager.pending_buffer_count(1), 1);
    assert!(manager.get_buffer(key).is_some());

    let reclaimed = manager.flush_frame();
    assert!(reclaimed.persistent.is_empty());
    assert_eq!(manager.pending_buffer_count(2), 1);
    assert!(manager.get_buffer(key).is_some());
    assert_eq!(manager.storage_buffer_owner(0), Some(BindingOwner::Persistent(key.0)));

    let reclaimed = manager.flush_frame();
    assert_eq!(reclaimed.persistent.len(), 1);
    match reclaimed.persistent[0] {
        Resource::Buffer(b) => {
            assert_eq!(b.buffer.handle, 9);
            assert_eq!(b.buffer.storage_binding, Some(0));
        }
        _ => panic!("a buffer was reclaimed"),
    }
    assert_eq!(manager.get_buffer(key), None);
    assert_eq!(manager.storage_buffer_owner(0), None);
    assert_eq!(manager.pending_buffer_count(0), 0);
    assert_eq!(manager.pending_buffer_count(1), 0);
    assert_eq!(manager.pending_buffer_count(2), 0);
    assert_eq!(manager.frames_in_flight(), 3);
}

#[test]
fn with_two_frames_in_flight_the_second_flush_reclaims() {
    let mut manager = ResourceManager::new(2);
    let buffer_key = manager.add_buffer(buffer(1, 0)).unwrap();
    let image_key = manager.add_image(image(2, IMAGE_USAGE_SAMPLED | IMAGE_USAGE_STORAGE)).unwrap();
    manager.remove_buffer(buffer_key);
    manager.remove_image(image_key);
    assert_eq!(manager.pending_image_count(0), 1);
    let first = manager.flush_frame();
    assert!(first.persistent.is_empty());
    assert!(manager.get_buffer(buffer_key).is_some());
    assert!(manager.get_image(image_key).is_some());
    let second = manager.flush_frame();
    assert_eq!(second.persistent.len(), 2);
    assert!(matches!(second.persistent[0], Resource::Buffer(b) if b.buffer.handle == 1));
    assert!(matches!(second.persistent[1], Resource::Image(i) if i.image.handle == 2));
    assert_eq!(manager.get_buffer(buffer_key), None);
    assert_eq!(manager.get_image(image_key), None);
    assert_eq!(manager.storage_image_owner(0), None);
    assert_eq!(manager.sampled_image_owner(0), None);
}

#[test]
fn with_one_frame_in_flight_the_next_flush_reclaims() {
    let mut manager = ResourceManager::new(1);
    let key = manager.add_buffer(buffer(1, 0)).unwrap();
    manager.remove_buffer(key);
    assert!(manager.get_buffer(key).is_some());
    let reclaimed = manager.flush_frame();
    assert_eq!(reclaimed.persistent.len(), 1);
    assert_eq!(manager.get_buffer(key), None);
}

#[test]
fn a_recycled_key_has_another_generation_and_the_old_one_is_invalid() {
    let mut manager = ResourceManager::new(2);
    let old_key = manager.add_buffer(buffer(1, BUFFER_USAGE_STORAGE_BUFFER)).unwrap();
    manager.remove_buffer(old_key);
    // While the ring has not turned round, the slot is not handed out again.
    let early = manager.add_buffer(buffer(2, 0)).unwrap();
    assert_ne!(slot_of_key(early.0), slot_of_key(old_key.0));
    manager.flush_frame();
    let still_early = manager.add_buffer(buffer(3, 0)).unwrap();
    assert_ne!(slot_of_key(still_early.0), slot_of_key(old_key.0));
    manager.flush_frame();
    assert_eq!(manager.get_buffer(old_key), None);
    // Now the slot is free and the next buffer takes it.
    let new_key = manager.add_buffer(buffer(4, BUFFER_USAGE_STORAGE_BUFFER)).unwrap();
    assert_eq!(slot_of_key(new_key.0), slot_of_key(old_key.0));
    assert_ne!(generation_of_key(new_key.0), generation_of_key(old_key.0));
    assert_ne!(new_key, old_key);
    assert_eq!(manager.get_buffer(old_key), None);
    assert_eq!(
        manager.get_and_update_buffer_resource(old_key, BufferResourceAccess::StorageRead),
        None
    );
    assert_eq!(manager.get_buffer(new_key).unwrap().handle, 4);
    // The descriptor slot was given back and is taken again.
    assert_eq!(manager.get_buffer(new_key).unwrap().storage_binding, Some(0));
    assert_eq!(manager.storage_buffer_owner(0), Some(BindingOwner::Persistent(new_key.0)));
}

#[test]
fn destroying_twice_or_destroying_nothing_is_harmless() {
    let mut manager = ResourceManager::new(1);
    let key = manager.add_buffer(buffer(1, 0)).unwrap();
    let other = manager.add_buffer(buffer(2, 0)).unwrap();
    manager.remove_buffer(key);
    manager.remove_buffer(key);
    manager.remove_buffer(BufferKey(12345));
    manager.remove_image(ImageKey(key.0));
    let reclaimed = manager.flush_frame();
    assert_eq!(reclaimed.persistent.len(), 1);
    assert_eq!(manager.get_buffer(key), None);
    assert_eq!(manager.get_buffer(other).unwrap().handle, 2);
}

#[test]
fn idle_flushes_change_nothing() {
    let mut manager = ResourceManager::new(2);
    let a = manager.add_buffer(buffer(1, BUFFER_USAGE_STORAGE_BUFFER)).unwrap();
    let b = manager.add_image(image(2, IMAGE_USAGE_SAMPLED)).unwrap();
    let c = manager.add_sampler(Sampler { handle: 3, binding: None }).unwrap();
    manager.get_and_update_buffer_resource(a, BufferResourceAccess::StorageWrite);
    let before = (
        manager.get_buffer_resource(a),
        manager.get_image_resource(b),
        manager.get_sampler(c),
        manager.storage_buffer_owner(0),
        manager.sampled_image_owner(0),
        manager.sampler_owner(0),
    );
    for _ in 0..5 {
        let reclaimed = manager.flush_frame();
        assert!(reclaimed.persistent.is_empty());
        assert!(reclaimed.transient_buffers.is_empty());
        assert!(reclaimed.transient_images.is_empty());
        let after = (
            manager.get_buffer_resource(a),
            manager.get_image_resource(b),
            manager.get_sampler(c),
            manager.storage_buffer_owner(0),
            manager.sampled_image_owner(0),
            manager.sampler_owner(0),
        );
        assert_eq!(before, after);
        assert_eq!(manager.frames_in_flight(), 2);
        assert_eq!(manager.pending_buffer_count(0), 0);
        assert_eq!(manager.pending_buffer_count(1), 0);
    }
    // New keys still follow on from where the table stood.
    let next = manager.add_buffer(buffer(4, 0)).unwrap();
    assert_eq!(slot_of_key(next.0), slot_of_key(a.0) + 1);
}

#[test]
fn samplers_are_bound_and_removed_with_the_ring() {
    let mut manager = ResourceManager::new(2);
    let a = manager.add_sampler(Sampler { handle: 1, binding: Some(99) }).unwrap();
    let b = manager.add_sampler(Sampler { handle: 2, binding: None }).unwrap();
    assert_eq!(manager.get_sampler(a), Some(Sampler { handle: 1, binding: Some(0) }));
    assert_eq!(manager.get_sampler(b), Some(Sampler { handle: 2, binding: Some(1) }));
    assert_eq!(manager.sampler_owner(0), Some(BindingOwner::Persistent(a.0)));
    manager.remove_sampler(a);
    manager.remove_sampler(SamplerKey(7));
    assert_eq!(manager.pending_sampler_count(0), 2);
    assert_eq!(manager.get_sampler(a), Some(Sampler { handle: 1, binding: Some(0) }));
    assert!(manager.flush_frame().persistent.is_empty());
    assert_eq!(manager.pending_sampler_count(1), 2);
    assert!(manager.get_sampler(a).is_some());
    let reclaimed = manager.flush_frame();
    assert_eq!(reclaimed.persistent, vec![Resource::Sampler(Sampler { handle: 1, binding: Some(0) })]);
    assert_eq!(manager.get_sampler(a), None);
    assert_eq!(manager.sampler_owner(0), None);
    assert_eq!(manager.sampler_owner(1), Some(BindingOwner::Persistent(b.0)));
    assert_eq!(manager.pending_sampler_count(0), 0);
    assert_eq!(manager.pending_sampler_count(1), 0);
    // The freed slot is the lowest free one again, under a new key.
    let c = manager.add_sampler(Sampler { handle: 3, binding: None }).unwrap();
    assert_eq!(manager.get_sampler(c).unwrap().binding, Some(0));
    assert_eq!(slot_of_key(c.0), slot_of_key(a.0));
    assert_ne!(generation_of_key(c.0), generation_of_key(a.0));
    assert_eq!(manager.get_sampler(a), None);
}

#[test]
fn a_full_sampler_table_is_an_allocation_failure() {
    let mut manager = ResourceManager::new(2);
    let mut keys = Vec::new();
    for i in 0..SAMPLER_SLOTS {
        let key = manager.add_sampler(Sampler { handle: i as u64, binding: None }).unwrap();
        assert_eq!(manager.get_sampler(key).unwrap().binding, Some(i));
        keys.push(key);
    }
    assert_eq!(
        manager.add_sampler(Sampler { handle: 1000, binding: None }),
        Err(Error::AllocationFailure)
    );
    // Nothing changed, and freeing one slot makes room again.
    assert_eq!(manager.get_sampler(keys[5]).unwrap().binding, Some(5));
    manager.remove_sampler(keys[5]);
    manager.flush_frame();
    assert_eq!(
        manager.add_sampler(Sampler { handle: 1000, binding: None }),
        Err(Error::AllocationFailure)
    );
    manager.flush_frame();
    let again = manager.add_sampler(Sampler { handle: 1001, binding: None }).unwrap();
    assert_eq!(manager.get_sampler(again).unwrap().binding, Some(5));
}

#[test]
fn a_full_storage_table_refuses_only_what_needs_it() {
    let mut manager = ResourceManager::new(2);
    for i in 0..STORAGE_BUFFER_SLOTS {
        manager.add_buffer(buffer(i as u64, BUFFER_USAGE_STORAGE_BUFFER)).unwrap();
    }
    assert_eq!(
        manager.add_buffer(buffer(5000, BUFFER_USAGE_STORAGE_BUFFER)),
        Err(Error::AllocationFailure)
    );
    let plain = manager.add_buffer(buffer(5001, BUFFER_USAGE_VERTEX_BUFFER)).unwrap();
    assert_eq!(manager.get_buffer(plain).unwrap().handle, 5001);
    for i in 0..STORAGE_IMAGE_SLOTS {
        manager.add_image(image(i as u64, IMAGE_USAGE_STORAGE)).unwrap();
    }
    assert_eq!(
        manager.add_image(image(1, IMAGE_USAGE_STORAGE | IMAGE_USAGE_SAMPLED)),
        Err(Error::AllocationFailure)
    );
    // The refused image took no sampled slot either.
    assert_eq!(manager.sampled_image_owner(0), None);
    let sampled = manager.add_image(image(2, IMAGE_USAGE_SAMPLED)).unwrap();
    assert_eq!(manager.get_image(sampled).unwrap().sampled_binding, Some(0));
}

#[test]
fn binding_table_gives_the_lowest_free_slot() {
    let mut table = BindingTable::new(3);
    assert_eq!(table.capacity(), 3);
    assert_eq!(table.first_free(), Some(0));
    assert_eq!(table.bind(BindingOwner::Persistent(1)), Some(0));
    assert_eq!(table.bind(BindingOwner::Transient(0)), Some(1));
    assert_eq!(table.bind(BindingOwner::Persistent(2)), Some(2));
    assert_eq!(table.bind(BindingOwner::Persistent(3)), None);
    assert_eq!(table.first_free(), None);
    assert_eq!(table.unbind(1), Some(BindingOwner::Transient(0)));
    assert_eq!(table.unbind(1), None);
    assert_eq!(table.unbind(3), None);
    assert_eq!(table.owner(0), Some(BindingOwner::Persistent(1)));
    assert_eq!(table.owner(1), None);
    assert_eq!(table.owner(9), None);
    assert_eq!(table.bind(BindingOwner::Persistent(4)), Some(1));
    table.assign(0, BindingOwner::Transient(7));
    assert_eq!(table.owner(0), Some(BindingOwner::Transient(7)));
    let empty = BindingTable::new(0);
    assert_eq!(empty.first_free(), None);
}

#[test]
fn descriptor_set_has_the_sizes_asked_for() {
    let set = DescriptorSet::new(DescriptorCount {
        storage_buffers: 4,
        storage_images: 3,
        sampled_images: 2,
        samplers: 1,
    });
    assert_eq!(set.storage_buffers.capacity(), 4);
    assert_eq!(set.storage_images.capacity(), 3);
    assert_eq!(set.sampled_images.capacity(), 2);
    assert_eq!(set.samplers.capacity(), 1);
    assert_eq!(
        DescriptorCount::default(),
        DescriptorCount { storage_buffers: 0, storage_images: 0, sampled_images: 0, samplers: 0 }
    );
}
