use neptune_render::access::{BufferResourceAccess, ImageResourceAccess};
use neptune_render::descriptor::BindingOwner;
use neptune_render::error::Error;
use neptune_render::flags::{
    BUFFER_USAGE_STORAGE_BUFFER, BUFFER_USAGE_VERTEX_BUFFER, IMAGE_USAGE_COLOR_ATTACHMENT,
    IMAGE_USAGE_SAMPLED, IMAGE_USAGE_STORAGE,
};
use neptune_render::render_graph::{
    allocation_at, AcquiredSwapchainImage, Allocation, BufferGraphResource,
    BufferResourceDescription, ImageGraphResource, ImageResourceDescription, Scale,
    TransientImageDescription, TransientImageSize,
};
use neptune_render::resource::{
    Buffer, BufferDescription, BufferKey, Extent2D, Image, ImageHandle, ImageKey, MemoryType,
};
use neptune_render::resource_manager::{ResourceManager, STORAGE_BUFFER_SLOTS};
use neptune_render::sizing::get_transient_image_size;
use neptune_render::types::TextureFormat;

fn half() -> Scale {
    Scale { numerator: 1, denominator: 2 }
}

fn swapchain(width: u32, height: u32) -> AcquiredSwapchainImage {
    AcquiredSwapchainImage {
        image: Image {
            handle: 0xabc,
            size: Extent2D { width, height },
            format: TextureFormat::Rgba8Unorm,
            usage: IMAGE_USAGE_COLOR_ATTACHMENT,
            location: MemoryType::GpuOnly,
            storage_binding: None,
            sampled_binding: None,
        },
        image_index: 0,
    }
}

fn transient_image(size: TransientImageSize, usage: u32) -> ImageGraphResource {
    ImageGraphResource {
        description: ImageResourceDescription::Transient(TransientImageDescription {
            size,
            format: TextureFormat::D32Float,
            usage,
            location: MemoryType::GpuOnly,
        }),
    }
}

fn relative(target: usize) -> TransientImageSize {
    TransientImageSize::Relative([half(), half()], ImageHandle::Transient(target))
}

fn transient_buffer(size: u64, usage: u32) -> BufferGraphResource {
    BufferGraphResource {
        description: BufferResourceDescription::Transient(BufferDescription {
            size,
            usage,
            location: MemoryType::GpuOnly,
        }),
    }
}

#[test]
fn scaling_is_exact_and_rounds_down() {
    assert_eq!(half().apply(1600), 800);
    assert_eq!(half().apply(900), 450);
    assert_eq!(half().apply(901), 450);
    assert_eq!(half().apply(1), 0);
    assert_eq!(Scale::one().apply(1234), 1234);
    assert_eq!(Scale::one(), Scale { numerator: 1, denominator: 1 });
    assert_eq!(Scale { numerator: 3, denominator: 4 }.apply(1000), 750);
    assert_eq!(Scale { numerator: 2, denominator: 3 }.apply(100), 66);
    assert_eq!(Scale { numerator: 0, denominator: 5 }.apply(100), 0);
    assert_eq!(Scale { numerator: u32::MAX, denominator: u32::MAX }.apply(u32::MAX), u32::MAX);
}

#[test]
fn scaling_saturates() {
    assert_eq!(Scale { numerator: 4, denominator: 1 }.apply(u32::MAX), u32::MAX);
    assert_eq!(Scale { numerator: u32::MAX, denominator: 1 }.apply(2), u32::MAX);
    assert_eq!(Scale { numerator: 2, denominator: 1 }.apply(0x7fff_ffff), 0xffff_fffe);
    assert_eq!(Scale { numerator: 1, denominator: 0 }.apply(5), u32::MAX);
    assert_eq!(Scale { numerator: 1, denominator: 0 }.apply(0), 0);
    assert_eq!(Scale { numerator: 0, denominator: 0 }.apply(5), 0);
}

#[test]
fn half_of_the_swapchain_is_800_by_450() {
    let mut manager = ResourceManager::new(2);
    let images = [
        ImageGraphResource { description: ImageResourceDescription::Swapchain(0) },
        transient_image(relative(0), IMAGE_USAGE_SAMPLED),
    ];
    let swapchain_images = [swapchain(1600, 900)];
    let size = get_transient_image_size(&relative(0), &manager, &images, &swapchain_images, 2);
    assert_eq!(size, Ok(Extent2D { width: 800, height: 450 }));

    let resolved = manager
        .get_image_resources(
            &swapchain_images,
            &images,
            &[Allocation::Unused, Allocation::Created(77)],
        )
        .unwrap();
    assert_eq!(resolved.len(), 2);
    assert_eq!(resolved[0].image, swapchain_images[0].image);
    assert_eq!(resolved[0].last_usage, ImageResourceAccess::Unused);
    assert_eq!(resolved[1].image.size, Extent2D { width: 800, height: 450 });
    assert_eq!(resolved[1].image.handle, 77);
    assert_eq!(resolved[1].image.format, TextureFormat::D32Float);
    assert_eq!(resolved[1].image.sampled_binding, Some(0));
    assert_eq!(resolved[1].image.storage_binding, None);
    assert_eq!(resolved[1].last_usage, ImageResourceAccess::Unused);
    assert_eq!(manager.transient_image_count(), 1);
    assert_eq!(manager.sampled_image_owner(0), Some(BindingOwner::Transient(0)));
}

#[test]
fn sizes_chain_through_transient_images() {
    let manager = ResourceManager::new(2);
    let images = [
        transient_image(TransientImageSize::Exact(Extent2D { width: 1024, height: 512 }), 0),
        transient_image(relative(0), 0),
        transient_image(relative(1), 0),
        transient_image(relative(2), 0),
    ];
    let depth = images.len();
    assert_eq!(
        get_transient_image_size(&relative(3), &manager, &images, &[], depth),
        Ok(Extent2D { width: 64, height: 32 })
    );
    assert_eq!(
        get_transient_image_size(
            &TransientImageSize::Exact(Extent2D { width: 3, height: 5 }),
            &manager,
            &images,
            &[],
            0
        ),
        Ok(Extent2D { width: 3, height: 5 })
    );
    // The chain passes through four transient images: a smaller depth is a
    // recursion-limit error as well.
    assert_eq!(
        get_transient_image_size(&relative(3), &manager, &images, &[], 3),
        Err(Error::RecursionLimit)
    );
    assert_eq!(
        get_transient_image_size(&relative(3), &manager, &images, &[], 4),
        Ok(Extent2D { width: 64, height: 32 })
    );
    assert_eq!(
        get_transient_image_size(&relative(0), &manager, &images, &[], 1),
        Ok(Extent2D { width: 512, height: 256 })
    );
    assert_eq!(
        get_transient_image_size(&relative(0), &manager, &images, &[], 0),
        Err(Error::RecursionLimit)
    );
}

#[test]
fn a_cycle_of_sizes_is_a_recursion_limit_error() {
    let mut manager = ResourceManager::new(2);
    let images = [transient_image(relative(1), 0), transient_image(relative(0), 0)];
    for depth in [0usize, 1, 2, 3, 100] {
        assert_eq!(
            get_transient_image_size(&relative(1), &manager, &images, &[], depth),
            Err(Error::RecursionLimit)
        );
    }
    let outcome = manager.get_image_resources(
        &[],
        &images,
        &[Allocation::Created(1), Allocation::Created(2)],
    );
    assert_eq!(outcome, Err(Error::RecursionLimit));
    assert_eq!(manager.transient_image_count(), 0);
    // An image relative to itself is the shortest cycle.
    let own = [transient_image(relative(0), 0)];
    assert_eq!(
        manager.get_image_resources(&[], &own, &[Allocation::Created(1)]),
        Err(Error::RecursionLimit)
    );
}

#[test]
fn sizes_relative_to_missing_images_are_invalid_handles() {
    let mut manager = ResourceManager::new(2);
    let images = [transient_image(relative(5), 0)];
    assert_eq!(
        get_transient_image_size(&relative(5), &manager, &images, &[], 1),
        Err(Error::InvalidHandle)
    );
    let to_persistent =
        TransientImageSize::Relative([half(), half()], ImageHandle::Persistent(ImageKey(1 << 32 | 1)));
    assert_eq!(
        get_transient_image_size(&to_persistent, &manager, &images, &[], 1),
        Err(Error::InvalidHandle)
    );
    let to_swapchain = [
        ImageGraphResource { description: ImageResourceDescription::Swapchain(3) },
        transient_image(relative(0), 0),
    ];
    assert_eq!(
        get_transient_image_size(&relative(0), &manager, &to_swapchain, &[swapchain(8, 8)], 2),
        Err(Error::InvalidHandle)
    );
    let key = manager
        .add_image(Image {
            handle: 5,
            size: Extent2D { width: 300, height: 200 },
            format: TextureFormat::Rgba8Unorm,
            usage: 0,
            location: MemoryType::GpuOnly,
            storage_binding: None,
            sampled_binding: None,
        })
        .unwrap();
    let to_live = TransientImageSize::Relative([half(), Scale::one()], ImageHandle::Persistent(key));
    assert_eq!(
        get_transient_image_size(&to_live, &manager, &images, &[], 1),
        Ok(Extent2D { width: 150, height: 200 })
    );
    let through_graph = [
        ImageGraphResource { description: ImageResourceDescription::Persistent(key) },
        transient_image(relative(0), 0),
    ];
    assert_eq!(
        get_transient_image_size(&relative(0), &manager, &through_graph, &[], 0),
        Ok(Extent2D { width: 150, height: 100 })
    );
}

#[test]
fn resolving_nothing_changes_nothing() {
    let mut manager = ResourceManager::new(2);
    let key = manager
        .add_buffer(Buffer {
            handle: 1,
            size: 8,
            usage: BUFFER_USAGE_STORAGE_BUFFER,
            location: MemoryType::GpuOnly,
            storage_binding: None,
        })
        .unwrap();
    manager.remove_buffer(key);
    let before = (
        manager.get_buffer_resource(key),
        manager.storage_buffer_owner(0),
        manager.storage_buffer_owner(1),
        manager.transient_buffer_count(),
        manager.transient_image_count(),
        manager.pending_buffer_count(0),
    );
    assert_eq!(manager.get_buffer_resources(&[], &[]), Ok(vec![]));
    assert_eq!(manager.get_image_resources(&[], &[], &[]), Ok(vec![]));
    assert_eq!(manager.get_buffer_resources(&[], &[Allocation::Created(9)]), Ok(vec![]));
    assert_eq!(manager.get_image_resources(&[swapchain(1, 1)], &[], &[]), Ok(vec![]));
    let after = (
        manager.get_buffer_resource(key),
        manager.storage_buffer_owner(0),
        manager.storage_buffer_owner(1),
        manager.transient_buffer_count(),
        manager.transient_image_count(),
        manager.pending_buffer_count(0),
    );
    assert_eq!(before, after);
}

#[test]
fn buffers_resolve_in_order() {
    let mut manager = ResourceManager::new(2);
    let key = manager
        .add_buffer(Buffer {
            handle: 1,
            size: 8,
            usage: BUFFER_USAGE_STORAGE_BUFFER,
            location: MemoryType::CpuToGpu,
            storage_binding: None,
        })
        .unwrap();
    manager.get_and_update_buffer_resource(key, BufferResourceAccess::TransferWrite);
    let buffers = [
        transient_buffer(16, BUFFER_USAGE_STORAGE_BUFFER),
        BufferGraphResource { description: BufferResourceDescription::Persistent(key) },
        transient_buffer(32, BUFFER_USAGE_VERTEX_BUFFER),
    ];
    let resolved = manager
        .get_buffer_resources(
            &buffers,
            &[Allocation::Created(100), Allocation::Unused, Allocation::Created(200)],
        )
        .unwrap();
    assert_eq!(resolved.len(), 3);
    assert_eq!(resolved[0].buffer.handle, 100);
    assert_eq!(resolved[0].buffer.size, 16);
    assert_eq!(resolved[0].buffer.usage, BUFFER_USAGE_STORAGE_BUFFER);
    assert_eq!(resolved[0].buffer.storage_binding, Some(1));
    assert_eq!(resolved[0].last_access, BufferResourceAccess::Unused);
    assert_eq!(resolved[1].buffer.handle, 1);
    assert_eq!(resolved[1].buffer.storage_binding, Some(0));
    assert_eq!(resolved[1].buffer.location, MemoryType::CpuToGpu);
    assert_eq!(resolved[1].last_access, BufferResourceAccess::TransferWrite);
    assert_eq!(resolved[2].buffer.handle, 200);
    assert_eq!(resolved[2].buffer.storage_binding, None);
    assert_eq!(manager.transient_buffer_count(), 2);
    assert_eq!(manager.storage_buffer_owner(1), Some(BindingOwner::Transient(0)));
    // Resolution reads the stored access of a persistent buffer and leaves it.
    assert_eq!(
        manager.get_buffer_resource(key).unwrap().last_access,
        BufferResourceAccess::TransferWrite
    );

    let reclaimed = manager.flush_frame();
    assert_eq!(reclaimed.transient_buffers.len(), 2);
    assert_eq!(reclaimed.transient_buffers[0].handle, 100);
    assert_eq!(reclaimed.transient_buffers[1].handle, 200);
    assert_eq!(manager.transient_buffer_count(), 0);
    assert_eq!(manager.storage_buffer_owner(1), None);
    assert_eq!(manager.storage_buffer_owner(0), Some(BindingOwner::Persistent(key.0)));
}

#[test]
fn the_first_failing_buffer_ends_the_resolution() {
    let mut manager = ResourceManager::new(2);
    let buffers = [
        transient_buffer(16, BUFFER_USAGE_STORAGE_BUFFER),
        transient_buffer(16, 0),
        BufferGraphResource {
            description: BufferResourceDescription::Persistent(BufferKey(3 << 32 | 9)),
        },
        transient_buffer(16, 0),
    ];
    let all = [
        Allocation::Created(1),
        Allocation::Created(2),
        Allocation::Unused,
        Allocation::Created(4),
    ];
    assert_eq!(manager.get_buffer_resources(&buffers, &all), Err(Error::InvalidHandle));
    // What was registered before the failure stays until the flush.
    assert_eq!(manager.transient_buffer_count(), 2);
    assert_eq!(manager.storage_buffer_owner(0), Some(BindingOwner::Transient(0)));
    let reclaimed = manager.flush_frame();
    assert_eq!(reclaimed.transient_buffers.len(), 2);
    assert_eq!(manager.storage_buffer_owner(0), None);

    let failed = [Allocation::Created(1), Allocation::Failed(Error::DeviceLost)];
    assert_eq!(manager.get_buffer_resources(&buffers[..2], &failed), Err(Error::DeviceLost));
    manager.flush_frame();
    let api = [Allocation::Failed(Error::ApiError(-3)), Allocation::Created(1)];
    assert_eq!(manager.get_buffer_resources(&buffers[..2], &api), Err(Error::ApiError(-3)));
    assert_eq!(manager.transient_buffer_count(), 0);
    // A transient buffer without a device object cannot be resolved.
    assert_eq!(
        manager.get_buffer_resources(&buffers[..1], &[]),
        Err(Error::AllocationFailure)
    );
    assert_eq!(
        manager.get_buffer_resources(&buffers[..1], &[Allocation::Unused]),
        Err(Error::AllocationFailure)
    );
}

#[test]
fn transient_buffers_fail_when_the_storage_table_is_full() {
    let mut manager = ResourceManager::new(2);
    let mut buffers = Vec::new();
    let mut allocations = Vec::new();
    for i in 0..STORAGE_BUFFER_SLOTS {
        buffers.push(transient_buffer(4, BUFFER_USAGE_STORAGE_BUFFER));
        allocations.push(Allocation::Created(i as u64));
    }
    let resolved = manager.get_buffer_resources(&buffers, &allocations).unwrap();
    assert_eq!(resolved[1023].buffer.storage_binding, Some(1023));
    assert_eq!(
        manager.get_buffer_resources(
            &[transient_buffer(4, BUFFER_USAGE_STORAGE_BUFFER)],
            &[Allocation::Created(1)]
        ),
        Err(Error::AllocationFailure)
    );
    assert_eq!(manager.transient_buffer_count(), 1024);
    manager.flush_frame();
    assert!(manager
        .get_buffer_resources(
            &[transient_buffer(4, BUFFER_USAGE_STORAGE_BUFFER)],
            &[Allocation::Created(1)]
        )
        .is_ok());
}

#[test]
fn images_resolve_in_order() {
    let mut manager = ResourceManager::new(2);
    let key = manager
        .add_image(Image {
            handle: 5,
            size: Extent2D { width: 30, height: 20 },
            format: TextureFormat::Rgba8Unorm,
            usage: IMAGE_USAGE_STORAGE,
            location: MemoryType::GpuOnly,
            storage_binding: None,
            sampled_binding: None,
        })
        .unwrap();
    manager.get_and_update_image_resource(key, ImageResourceAccess::StorageWrite);
    let images = [
        ImageGraphResource { description: ImageResourceDescription::Persistent(key) },
        transient_image(
            TransientImageSize::Exact(Extent2D { width: 7, height: 9 }),
            IMAGE_USAGE_STORAGE | IMAGE_USAGE_SAMPLED,
        ),
        ImageGraphResource { description: ImageResourceDescription::Swapchain(1) },
    ];
    let swapchain_images = [swapchain(10, 10), swapchain(640, 480)];
    let resolved = manager
        .get_image_resources(
            &swapchain_images,
            &images,
            &[Allocation::Unused, Allocation::Created(50), Allocation::Unused],
        )
        .unwrap();
    assert_eq!(resolved[0].image.handle, 5);
    assert_eq!(resolved[0].last_usage, ImageResourceAccess::StorageWrite);
    assert_eq!(resolved[1].image.size, Extent2D { width: 7, height: 9 });
    assert_eq!(resolved[1].image.storage_binding, Some(1));
    assert_eq!(resolved[1].image.sampled_binding, Some(0));
    assert_eq!(resolved[2].image.size, Extent2D { width: 640, height: 480 });
    assert_eq!(resolved[2].last_usage, ImageResourceAccess::Unused);
    assert_eq!(manager.transient_image_count(), 1);

    let missing = [ImageGraphResource { description: ImageResourceDescription::Swapchain(2) }];
    assert_eq!(
        manager.get_image_resources(&swapchain_images, &missing, &[]),
        Err(Error::InvalidHandle)
    );
    let stale = [ImageGraphResource {
        description: ImageResourceDescription::Persistent(ImageKey(key.0 + (2 << 32))),
    }];
    assert_eq!(manager.get_image_resources(&[], &stale, &[]), Err(Error::InvalidHandle));
    let unallocated =
        [transient_image(TransientImageSize::Exact(Extent2D { width: 1, height: 1 }), 0)];
    assert_eq!(
        manager.get_image_resources(&[], &unallocated, &[]),
        Err(Error::AllocationFailure)
    );
    assert_eq!(
        manager.get_image_resources(&[], &unallocated, &[Allocation::Failed(Error::DeviceLost)]),
        Err(Error::DeviceLost)
    );
    let reclaimed = manager.flush_frame();
    assert_eq!(reclaimed.transient_images.len(), 1);
    assert_eq!(reclaimed.transient_images[0].handle, 50);
    assert_eq!(manager.storage_image_owner(1), None);
    assert_eq!(manager.sampled_image_owner(0), None);
    assert_eq!(manager.storage_image_owner(0), Some(BindingOwner::Persistent(key.0)));
}

#[test]
fn what_to_create_is_listed_with_resolved_sizes() {
    let manager = ResourceManager::new(2);
    let images = [
        ImageGraphResource { description: ImageResourceDescription::Swapchain(0) },
        transient_image(relative(0), IMAGE_USAGE_SAMPLED),
        transient_image(TransientImageSize::Exact(Extent2D { width: 3, height: 4 }), 0),
    ];
    let listed = manager.transient_image_descriptions(&[swapchain(1600, 900)], &images).unwrap();
    assert_eq!(listed.len(), 3);
    assert_eq!(listed[0], None);
    let half_size = listed[1].unwrap();
    assert_eq!(half_size.size, [800, 450]);
    assert_eq!(half_size.format, TextureFormat::D32Float);
    assert_eq!(half_size.usage, IMAGE_USAGE_SAMPLED);
    assert_eq!(listed[2].unwrap().size, [3, 4]);
    assert_eq!(manager.transient_image_descriptions(&[], &[]), Ok(vec![]));
    assert_eq!(
        manager.transient_image_descriptions(&[], &images).err(),
        Some(Error::InvalidHandle)
    );
    let cycle = [transient_image(relative(1), 0), transient_image(relative(0), 0)];
    assert_eq!(
        manager.transient_image_descriptions(&[], &cycle).err(),
        Some(Error::RecursionLimit)
    );
}

#[test]
fn allocations_beyond_the_list_are_unused() {
    let list = [Allocation::Created(1), Allocation::Failed(Error::DeviceLost)];
    assert_eq!(allocation_at(&list, 0), Allocation::Created(1));
    assert_eq!(allocation_at(&list, 1), Allocation::Failed(Error::DeviceLost));
    assert_eq!(allocation_at(&list, 2), Allocation::Unused);
    assert_eq!(allocation_at(&[], 0), Allocation::Unused);
}

#[test]
fn transient_description_keeps_format_and_usage() {
    let description = TransientImageDescription {
        size: TransientImageSize::Exact(Extent2D { width: 1, height: 1 }),
        format: TextureFormat::R16Uint,
        usage: 7,
        location: MemoryType::GpuToCpu,
    };
    let made = description.to_image_description([10, 20]);
    assert_eq!(made.size, [10, 20]);
    assert_eq!(made.format, TextureFormat::R16Uint);
    assert_eq!(made.usage, 7);
    assert_eq!(made.location, MemoryType::GpuToCpu);
}
