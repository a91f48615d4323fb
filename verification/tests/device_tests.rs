use neptune_render::access::{BufferResourceAccess, Queue};
use neptune_render::device::{build_transfer_pass, AshQueue, DestroyOutcome, Device, DeviceSettings};
use neptune_render::error::Error;
use neptune_render::flags::{
    BUFFER_USAGE_STORAGE_BUFFER, BUFFER_USAGE_TRANSFER_SRC, BUFFER_USAGE_VERTEX_BUFFER,
    IMAGE_USAGE_SAMPLED,
};
use neptune_render::render_graph::{
    BufferGraphResource, BufferResourceDescription, RenderGraph, RenderPass,
};
use neptune_render::resource::{
    BufferDescription, BufferHandle, BufferKey, Extent2D, ImageDescription2D, ImageHandle,
    MemoryType, RasterPipelineHandle, RasterPipleineKey, SurfaceHandle,
};
use neptune_render::swapchain::{ConfigureAction, SurfaceSettings, Swapchain, SwapchainState};
use neptune_render::texture::{
    after_stage, get_vk_texture_2d_create_info, image_create_info, is_depth_stencil_code,
    CreationStage, CreationStep, TextureBindingType, TextureUsage, FIRST_DEPTH_STENCIL_FORMAT,
    LAST_DEPTH_STENCIL_FORMAT,
};
use neptune_render::types::TextureFormat;

fn device() -> Device {
    Device::new(&DeviceSettings { frames_in_flight: 2 })
}

fn description(usage: u32) -> BufferDescription {
    BufferDescription { size: 256, usage, location: MemoryType::GpuOnly }
}

fn key_of(handle: BufferHandle) -> BufferKey {
    match handle {
        BufferHandle::Persistent(key) => key,
        BufferHandle::Transient(_) => panic!("created buffers are persistent"),
    }
}

#[test]
fn a_new_device_owns_nothing() {
    let mut device = device();
    assert_eq!(device.resources().frames_in_flight(), 2);
    assert!(device.pending_transfers().is_empty());
    assert_eq!(
        device.configure_surface(SurfaceHandle(1), &SurfaceSettings::default()),
        ConfigureAction::Create
    );
    assert!(device.swapchain(SurfaceHandle(1)).is_none());
    let queue = AshQueue { family_index: 1, handle: 2, flags: 3 };
    assert_eq!(queue, AshQueue { family_index: 1, handle: 2, flags: 3 });
}

#[test]
fn created_buffers_are_persistent_and_bound() {
    let mut device = device();
    let handle = device.create_buffer(&description(BUFFER_USAGE_STORAGE_BUFFER), 0x10).unwrap();
    let key = key_of(handle);
    let stored = device.resources().get_buffer(key).unwrap();
    assert_eq!(stored.handle, 0x10);
    assert_eq!(stored.size, 256);
    assert_eq!(stored.usage, BUFFER_USAGE_STORAGE_BUFFER);
    assert_eq!(stored.location, MemoryType::GpuOnly);
    assert_eq!(stored.storage_binding, Some(0));
    assert_eq!(
        device.resources().get_buffer_resource(key).unwrap().last_access,
        BufferResourceAccess::Unused
    );
}

#[test]
fn destroying_a_transient_handle_does_nothing() {
    let mut device = device();
    let handle = device.create_buffer(&description(0), 1).unwrap();
    assert_eq!(device.destroy_buffer(BufferHandle::Transient(0)), DestroyOutcome::TransientIgnored);
    assert_eq!(device.resources().pending_buffer_count(0), 0);
    assert_eq!(device.destroy_buffer(handle), DestroyOutcome::Queued);
    assert_eq!(device.resources().pending_buffer_count(0), 1);
    assert!(device.resources().get_buffer(key_of(handle)).is_some());
    assert_eq!(device.destroy_image(ImageHandle::Transient(3)), DestroyOutcome::TransientIgnored);
    assert_eq!(device.resources().pending_image_count(0), 0);
}

#[test]
fn created_images_are_persistent() {
    let mut device = device();
    let handle = device
        .create_image(
            &ImageDescription2D {
                size: [320, 200],
                format: TextureFormat::Rgba8Unorm,
                usage: IMAGE_USAGE_SAMPLED,
                location: MemoryType::GpuOnly,
            },
            0x20,
        )
        .unwrap();
    let key = match handle {
        ImageHandle::Persistent(key) => key,
        ImageHandle::Transient(_) => panic!("created images are persistent"),
    };
    let stored = device.resources().get_image(key).unwrap();
    assert_eq!(stored.handle, 0x20);
    assert_eq!(stored.size, Extent2D { width: 320, height: 200 });
    assert_eq!(stored.sampled_binding, Some(0));
    assert_eq!(device.destroy_image(handle), DestroyOutcome::Queued);
    assert_eq!(device.resources().pending_image_count(0), 1);
    device.flush_frame();
    let reclaimed = device.flush_frame();
    assert_eq!(reclaimed.persistent.len(), 1);
    assert!(device.resources().get_image(key).is_none());
}

#[test]
fn uploads_wait_for_the_next_frame_and_staging_goes_with_it() {
    let mut device = device();
    let target = device.create_buffer(&description(BUFFER_USAGE_VERTEX_BUFFER), 1).unwrap();
    assert_eq!(device.update_data_to_buffer(target, 48, 0x99), Ok(()));
    assert_eq!(device.pending_transfers().len(), 1);
    let (staging, to) = device.pending_transfers()[0];
    assert_eq!(to, target);
    let staging_buffer = device.resources().get_buffer(key_of(staging)).unwrap();
    assert_eq!(staging_buffer.handle, 0x99);
    assert_eq!(staging_buffer.size, 48);
    assert_eq!(staging_buffer.usage, BUFFER_USAGE_TRANSFER_SRC);
    assert_eq!(staging_buffer.location, MemoryType::CpuToGpu);
    assert_eq!(staging_buffer.storage_binding, None);
    // The staging buffer is queued for removal at once, but lives on.
    assert_eq!(device.resources().pending_buffer_count(0), 1);

    let graph = RenderGraph { buffers: vec![], images: vec![], passes: vec![] };
    let frame = device.submit_frame(&graph, &[], &[], &[]).unwrap();
    assert_eq!(frame.transfers, vec![(staging, target)]);
    assert!(frame.is_transfer_pass(0));
    assert!(!frame.is_transfer_pass(1));
    assert!(device.pending_transfers().is_empty());
    assert_eq!(frame.plan.passes.len(), 1);
    let batch = &frame.plan.passes[0];
    assert_eq!(batch.buffer_barriers.len(), 2);
    assert_eq!(batch.buffer_barriers[0].buffer.handle, 0x99);
    assert_eq!(
        batch.buffer_barriers[0].barrier.dst,
        BufferResourceAccess::TransferRead.get_barrier_flags()
    );
    assert_eq!(batch.buffer_barriers[1].buffer.handle, 1);
    assert_eq!(
        batch.buffer_barriers[1].barrier.dst,
        BufferResourceAccess::TransferWrite.get_barrier_flags()
    );

    // With nothing pending any more, the next frame has no transfer pass.
    let frame = device.submit_frame(&graph, &[], &[], &[]).unwrap();
    assert!(frame.transfers.is_empty());
    assert!(frame.plan.passes.is_empty());
    assert!(!frame.is_transfer_pass(0));

    assert!(device.flush_frame().persistent.is_empty());
    let reclaimed = device.flush_frame();
    assert_eq!(reclaimed.persistent.len(), 1);
    assert!(device.resources().get_buffer(key_of(staging)).is_none());
    assert!(device.resources().get_buffer(key_of(target)).is_some());
}

#[test]
fn a_buffer_can_be_created_with_its_first_contents() {
    let mut device = device();
    let handle = device
        .create_buffer_init(&description(BUFFER_USAGE_STORAGE_BUFFER), 5, 256, 6)
        .unwrap();
    assert_eq!(device.resources().get_buffer(key_of(handle)).unwrap().handle, 5);
    assert_eq!(device.pending_transfers().len(), 1);
    assert_eq!(device.pending_transfers()[0].1, handle);
    let staging = key_of(device.pending_transfers()[0].0);
    assert_eq!(device.resources().get_buffer(staging).unwrap().handle, 6);
    assert_ne!(staging, key_of(handle));
}

#[test]
fn the_transfer_pass_reads_staging_and_writes_targets() {
    assert!(build_transfer_pass(&vec![]).is_none());
    let a = BufferHandle::Persistent(BufferKey(1));
    let b = BufferHandle::Persistent(BufferKey(2));
    let c = BufferHandle::Transient(0);
    let pass: RenderPass = build_transfer_pass(&vec![(a, b), (c, b), (b, a)]).unwrap();
    assert_eq!(pass.name, "Transfer Pass");
    assert_eq!(pass.queue, Queue::Graphics);
    assert!(pass.image_usages.is_empty());
    assert!(pass.framebuffer.is_none());
    assert!(pass.build_cmd_fn.is_none());
    // Each buffer is declared once; a later declaration replaces an earlier.
    assert_eq!(
        pass.buffer_usages,
        vec![
            (a, BufferResourceAccess::TransferWrite),
            (b, BufferResourceAccess::TransferRead),
            (c, BufferResourceAccess::TransferRead),
        ]
    );
}

#[test]
fn submitting_takes_the_uploads_even_when_the_frame_fails() {
    let mut device = device();
    let target = device.create_buffer(&description(0), 1).unwrap();
    device.update_data_to_buffer(target, 8, 2).unwrap();
    let graph = RenderGraph {
        buffers: vec![BufferGraphResource {
            description: BufferResourceDescription::Persistent(BufferKey(77)),
        }],
        images: vec![],
        passes: vec![],
    };
    assert_eq!(device.submit_frame(&graph, &[], &[], &[]).err(), Some(Error::InvalidHandle));
    assert!(device.pending_transfers().is_empty());
}

#[test]
fn pipelines_are_kept_under_generational_handles() {
    let mut device = device();
    let first = device.create_raster_pipeline(0xa).unwrap();
    let second = device.create_raster_pipeline(0xb).unwrap();
    assert_ne!(first, second);
    assert_eq!(device.destroy_raster_pipeline(first), Some(0xa));
    assert_eq!(device.destroy_raster_pipeline(first), None);
    assert_eq!(
        device.destroy_raster_pipeline(RasterPipelineHandle(RasterPipleineKey(12345))),
        None
    );
    let third = device.create_raster_pipeline(0xc).unwrap();
    assert_ne!(third, first);
    assert_eq!(device.destroy_raster_pipeline(first), None);
    assert_eq!(device.destroy_raster_pipeline(third), Some(0xc));
    assert_eq!(device.destroy_raster_pipeline(second), Some(0xb));
}

#[test]
fn surfaces_go_through_the_device() {
    let mut device = device();
    let surface = SurfaceHandle(3);
    let settings = SurfaceSettings::default();
    assert_eq!(device.configure_surface(surface, &settings), ConfigureAction::Create);
    let mut swapchain = Swapchain::new(surface, settings);
    swapchain.handle = 0x31;
    assert!(device.install_swapchain(swapchain).is_none());
    let fewer = SurfaceSettings { image_count: 2, ..settings };
    assert_eq!(device.configure_surface(surface, &fewer), ConfigureAction::Reconfigure(0x31));
    assert_eq!(device.swapchain(surface).unwrap().settings, fewer);
    let released = device.release_surface(surface).unwrap();
    assert_eq!(released.state, SwapchainState::Released);
    assert_eq!(released.handle, 0x31);
    assert!(device.release_surface(surface).is_none());
    assert_eq!(device.configure_surface(surface, &settings), ConfigureAction::Create);
}

#[test]
fn samplers_go_through_the_device() {
    let mut device = device();
    let key = device.create_sampler(0x51).unwrap();
    let stored = device.resources().get_sampler(key).unwrap();
    assert_eq!(stored.handle, 0x51);
    assert_eq!(stored.binding, Some(0));
    device.destroy_sampler(key);
    assert_eq!(device.resources().pending_sampler_count(0), 1);
    assert!(device.resources().get_sampler(key).is_some());
    device.flush_frame();
    let reclaimed = device.flush_frame();
    assert_eq!(reclaimed.persistent.len(), 1);
    assert!(device.resources().get_sampler(key).is_none());
}

#[test]
fn texture_create_info() {
    let info = get_vk_texture_2d_create_info(
        TextureUsage { bits: TextureUsage::ATTACHMENT },
        TextureBindingType { bits: 0 },
        44,
        [640, 480],
    );
    assert_eq!(info.format, 44);
    assert_eq!(info.image_type, ash::vk::ImageType::TYPE_2D.as_raw());
    assert_eq!(
        info.usage,
        (ash::vk::ImageUsageFlags::TRANSFER_SRC
            | ash::vk::ImageUsageFlags::TRANSFER_DST
            | ash::vk::ImageUsageFlags::COLOR_ATTACHMENT)
            .as_raw()
    );
    assert_eq!(info.extent, [640, 480, 1]);
    assert_eq!(info.array_layers, 1);
    assert_eq!(info.mip_levels, 1);
    assert_eq!(info.samples, ash::vk::SampleCountFlags::TYPE_1.as_raw());
    assert_eq!(info.tiling, ash::vk::ImageTiling::OPTIMAL.as_raw());
    assert_eq!(info.sharing_mode, ash::vk::SharingMode::EXCLUSIVE.as_raw());

    // Sampled and storage binding are asked for separately.
    assert_ne!(TextureBindingType::SAMPLED, TextureBindingType::STORAGE);
    let base = ash::vk::ImageUsageFlags::TRANSFER_SRC | ash::vk::ImageUsageFlags::TRANSFER_DST;
    let sampled = get_vk_texture_2d_create_info(
        TextureUsage { bits: 0 },
        TextureBindingType { bits: TextureBindingType::SAMPLED },
        37,
        [1, 1],
    );
    assert_eq!(sampled.usage, (base | ash::vk::ImageUsageFlags::SAMPLED).as_raw());
    let storage = get_vk_texture_2d_create_info(
        TextureUsage { bits: 0 },
        TextureBindingType { bits: TextureBindingType::STORAGE },
        37,
        [1, 1],
    );
    assert_eq!(storage.usage, (base | ash::vk::ImageUsageFlags::STORAGE).as_raw());
    let both = get_vk_texture_2d_create_info(
        TextureUsage { bits: 0 },
        TextureBindingType { bits: TextureBindingType::SAMPLED | TextureBindingType::STORAGE },
        37,
        [1, 1],
    );
    assert_eq!(
        both.usage,
        (base | ash::vk::ImageUsageFlags::SAMPLED | ash::vk::ImageUsageFlags::STORAGE).as_raw()
    );
    let plain = get_vk_texture_2d_create_info(
        TextureUsage { bits: 0 },
        TextureBindingType { bits: 0 },
        37,
        [1, 1],
    );
    assert_eq!(plain.usage, 3);
    assert!(TextureUsage { bits: 3 }.contains(TextureUsage::ATTACHMENT));
    assert!(!TextureUsage { bits: 2 }.contains(TextureUsage::ATTACHMENT));
    assert!(TextureBindingType { bits: 2 }.contains(TextureBindingType::STORAGE));
    assert!(!TextureBindingType { bits: 2 }.contains(TextureBindingType::SAMPLED));
}

#[test]
fn a_depth_texture_is_a_depth_attachment() {
    let depth_formats = [
        ash::vk::Format::D16_UNORM,
        ash::vk::Format::X8_D24_UNORM_PACK32,
        ash::vk::Format::D32_SFLOAT,
        ash::vk::Format::S8_UINT,
        ash::vk::Format::D16_UNORM_S8_UINT,
        ash::vk::Format::D24_UNORM_S8_UINT,
        ash::vk::Format::D32_SFLOAT_S8_UINT,
    ];
    let base = ash::vk::ImageUsageFlags::TRANSFER_SRC | ash::vk::ImageUsageFlags::TRANSFER_DST;
    for format in depth_formats {
        assert!(is_depth_stencil_code(format.as_raw()));
        let info = get_vk_texture_2d_create_info(
            TextureUsage { bits: TextureUsage::ATTACHMENT },
            TextureBindingType { bits: 0 },
            format.as_raw(),
            [8, 8],
        );
        assert_eq!(
            info.usage,
            (base | ash::vk::ImageUsageFlags::DEPTH_STENCIL_ATTACHMENT).as_raw()
        );
        let unattached = get_vk_texture_2d_create_info(
            TextureUsage { bits: 0 },
            TextureBindingType { bits: 0 },
            format.as_raw(),
            [8, 8],
        );
        assert_eq!(unattached.usage, base.as_raw());
    }
    let colour_formats = [
        ash::vk::Format::UNDEFINED,
        ash::vk::Format::R8G8B8A8_UNORM,
        ash::vk::Format::B8G8R8A8_UNORM,
        ash::vk::Format::B10G11R11_UFLOAT_PACK32,
        ash::vk::Format::E5B9G9R9_UFLOAT_PACK32,
        ash::vk::Format::BC1_RGB_UNORM_BLOCK,
    ];
    for format in colour_formats {
        assert!(!is_depth_stencil_code(format.as_raw()));
    }
    assert_eq!(FIRST_DEPTH_STENCIL_FORMAT, ash::vk::Format::D16_UNORM.as_raw());
    assert_eq!(LAST_DEPTH_STENCIL_FORMAT, ash::vk::Format::D32_SFLOAT_S8_UINT.as_raw());
    assert_eq!(ash::vk::Format::E5B9G9R9_UFLOAT_PACK32.as_raw(), FIRST_DEPTH_STENCIL_FORMAT - 1);
    assert_eq!(ash::vk::Format::BC1_RGB_UNORM_BLOCK.as_raw(), LAST_DEPTH_STENCIL_FORMAT + 1);
    for format in [
        TextureFormat::D16Unorm,
        TextureFormat::D24UnormS8Uint,
        TextureFormat::D32Float,
        TextureFormat::D32FloatS8Uint,
        TextureFormat::Rgba8Unorm,
        TextureFormat::R16Sint,
    ] {
        assert_eq!(is_depth_stencil_code(format.to_device_format()), format.is_depth_stencil());
    }
}

#[test]
fn image_create_info_follows_the_description() {
    let info = image_create_info(&ImageDescription2D {
        size: [320, 200],
        format: TextureFormat::D32Float,
        usage: 0x25,
        location: MemoryType::GpuOnly,
    });
    assert_eq!(info.format, ash::vk::Format::D32_SFLOAT.as_raw());
    assert_eq!(info.usage, 0x25);
    assert_eq!(info.extent, [320, 200, 1]);
    assert_eq!(info.image_type, ash::vk::ImageType::TYPE_2D.as_raw());
    assert_eq!(info.array_layers, 1);
    assert_eq!(info.mip_levels, 1);
    assert_eq!(info.samples, ash::vk::SampleCountFlags::TYPE_1.as_raw());
    assert_eq!(info.tiling, ash::vk::ImageTiling::OPTIMAL.as_raw());
    assert_eq!(info.sharing_mode, ash::vk::SharingMode::EXCLUSIVE.as_raw());
}

#[test]
fn a_failed_creation_stage_gives_back_what_was_made() {
    assert_eq!(
        after_stage(CreationStage::CreateImage, Ok(())),
        CreationStep::Proceed(CreationStage::AllocateMemory)
    );
    assert_eq!(
        after_stage(CreationStage::AllocateMemory, Ok(())),
        CreationStep::Proceed(CreationStage::BindMemory)
    );
    assert_eq!(after_stage(CreationStage::BindMemory, Ok(())), CreationStep::Finished);
    assert_eq!(
        after_stage(CreationStage::CreateImage, Err(Error::ApiError(-3))),
        CreationStep::Abort { destroy_image: false, free_allocation: false, error: Error::ApiError(-3) }
    );
    assert_eq!(
        after_stage(CreationStage::AllocateMemory, Err(Error::AllocationFailure)),
        CreationStep::Abort {
            destroy_image: true,
            free_allocation: false,
            error: Error::AllocationFailure
        }
    );
    assert_eq!(
        after_stage(CreationStage::BindMemory, Err(Error::DeviceLost)),
        CreationStep::Abort { destroy_image: true, free_allocation: true, error: Error::DeviceLost }
    );
}
