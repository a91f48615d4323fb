use neptune_render::access::{BufferResourceAccess, ImageResourceAccess, Queue};
use neptune_render::builder::{
    lower_buffer_usage, lower_texture_usage, render_graph_test, ComputePassBuilder,
    RasterPassBuilder, RenderGraphBuilder, HALF, ONE, QUARTER,
};
use neptune_render::error::Error;
use neptune_render::flags::{
    BUFFER_USAGE_INDEX_BUFFER, BUFFER_USAGE_INDIRECT_BUFFER, BUFFER_USAGE_STORAGE_BUFFER,
    BUFFER_USAGE_TRANSFER_DST, BUFFER_USAGE_UNIFORM_BUFFER, BUFFER_USAGE_VERTEX_BUFFER,
    IMAGE_USAGE_COLOR_ATTACHMENT, IMAGE_USAGE_DEPTH_STENCIL_ATTACHMENT, IMAGE_USAGE_SAMPLED,
    IMAGE_USAGE_STORAGE, IMAGE_USAGE_TRANSFER_DST, IMAGE_USAGE_TRANSFER_SRC,
    RESULT_ERROR_DEVICE_LOST, RESULT_ERROR_MEMORY_MAP_FAILED, RESULT_ERROR_OUT_OF_DATE,
    RESULT_ERROR_OUT_OF_DEVICE_MEMORY, RESULT_ERROR_OUT_OF_HOST_MEMORY,
    RESULT_ERROR_SURFACE_LOST,
};
use neptune_render::pipeline::VertexElement;
use neptune_render::render_graph::{
    BufferResourceDescription, ImageResourceDescription, RecordFn, TransientImageSize,
};
use neptune_render::resource::{BufferHandle, BufferKey, Extent2D, ImageHandle, ImageKey, MemoryType};
use neptune_render::types::{
    AddressMode, BorderColor, BufferDescription, BufferGraphResource, BufferUsage,
    ColorAttachment, CompositeAlphaMode, DepthStencilAttachment, FilterMode, PresentMode,
    SamplerDescription, ShaderResourceAccess, TextureDescription, TextureFormat,
    TextureGraphResource, TextureUsage,
};

#[test]
fn clear_values_are_single_precision_bit_patterns() {
    assert_eq!(ONE, 1.0f32.to_bits());
    assert_eq!(HALF, 0.5f32.to_bits());
    assert_eq!(QUARTER, 0.25f32.to_bits());
    assert_eq!(0u32, 0.0f32.to_bits());
}

#[test]
fn vertex_element_sizes() {
    assert_eq!(VertexElement::float.get_size_bytes(), 4);
    assert_eq!(VertexElement::float2.get_size_bytes(), 8);
    assert_eq!(VertexElement::float3.get_size_bytes(), 12);
    assert_eq!(VertexElement::float4.get_size_bytes(), 16);
    assert_eq!(VertexElement::float.get_size_bytes() as usize, std::mem::size_of::<f32>());
}

#[test]
fn depth_formats_are_not_colour_formats() {
    let depth = [
        TextureFormat::D16Unorm,
        TextureFormat::D24UnormS8Uint,
        TextureFormat::D32Float,
        TextureFormat::D32FloatS8Uint,
    ];
    for format in depth {
        assert!(format.is_depth_stencil());
        assert!(!format.is_color());
    }
    let color = [
        TextureFormat::R8Unorm,
        TextureFormat::Rgba8Unorm,
        TextureFormat::Rg8Snorm,
        TextureFormat::Rgb8Uint,
        TextureFormat::Rgba8Sint,
        TextureFormat::R16Unorm,
        TextureFormat::Rgba16Snorm,
        TextureFormat::Rg16Uint,
        TextureFormat::Rgba16Sint,
    ];
    for format in color {
        assert!(format.is_color());
        assert!(!format.is_depth_stencil());
    }
}

#[test]
fn flag_sets_contain_their_bits() {
    let usage = BufferUsage::from_bits(BufferUsage::VERTEX | BufferUsage::STORAGE);
    assert!(usage.contains(BufferUsage::VERTEX));
    assert!(usage.contains(BufferUsage::STORAGE));
    assert!(usage.contains(BufferUsage::VERTEX | BufferUsage::STORAGE));
    assert!(!usage.contains(BufferUsage::INDEX));
    assert!(!usage.contains(BufferUsage::VERTEX | BufferUsage::INDEX));
    assert!(usage.contains(0));
    assert_eq!(
        [
            BufferUsage::VERTEX,
            BufferUsage::INDEX,
            BufferUsage::UNIFORM,
            BufferUsage::STORAGE,
            BufferUsage::INDIRECT
        ],
        [1, 2, 4, 8, 16]
    );
    let texture = TextureUsage::from_bits(TextureUsage::SAMPLED);
    assert!(texture.contains(TextureUsage::SAMPLED));
    assert!(!texture.contains(TextureUsage::ATTACHMENT));
    assert_eq!([TextureUsage::ATTACHMENT, TextureUsage::SAMPLED, TextureUsage::STORAGE], [1, 2, 4]);
}

#[test]
fn defaults() {
    assert_eq!(AddressMode::default(), AddressMode::Repeat);
    assert_eq!(FilterMode::default(), FilterMode::Nearest);
    assert_eq!(BorderColor::default(), BorderColor::TransparentBlack);
    assert_eq!(PresentMode::default(), PresentMode::Fifo);
    assert_eq!(CompositeAlphaMode::default(), CompositeAlphaMode::Auto);
    let sampler = SamplerDescription::default();
    assert_eq!(sampler.address_mode_u, AddressMode::Repeat);
    assert_eq!(sampler.mip_filter, FilterMode::Nearest);
    assert_eq!(sampler.lod_clamp_range, None);
    assert_eq!(sampler.anisotropy_clamp, None);
    assert!(!sampler.unnormalized_coordinates);
}

#[test]
fn attachments_keep_or_clear() {
    let texture = TextureGraphResource(4);
    let kept = ColorAttachment::new(texture);
    assert_eq!(kept.texture, texture);
    assert_eq!(kept.clear, None);
    let cleared = ColorAttachment::new_clear(texture, [ONE, 0, 0, ONE]);
    assert_eq!(cleared.clear, Some([ONE, 0, 0, ONE]));
    let depth = DepthStencilAttachment::new(texture);
    assert_eq!(depth.clear, None);
    let depth = DepthStencilAttachment::new_clear(texture, (ONE, 3));
    assert_eq!(depth.texture, texture);
    assert_eq!(depth.clear, Some((ONE, 3)));
}

#[test]
fn error_classification() {
    assert_eq!(Error::from_result_code(RESULT_ERROR_OUT_OF_HOST_MEMORY), Error::AllocationFailure);
    assert_eq!(
        Error::from_result_code(RESULT_ERROR_OUT_OF_DEVICE_MEMORY),
        Error::AllocationFailure
    );
    assert_eq!(Error::from_result_code(RESULT_ERROR_DEVICE_LOST), Error::DeviceLost);
    assert_eq!(Error::from_result_code(RESULT_ERROR_OUT_OF_DATE), Error::SwapchainLost);
    assert_eq!(Error::from_result_code(RESULT_ERROR_SURFACE_LOST), Error::SwapchainLost);
    assert_eq!(
        Error::from_result_code(RESULT_ERROR_MEMORY_MAP_FAILED),
        Error::ApiError(RESULT_ERROR_MEMORY_MAP_FAILED)
    );
    assert_eq!(Error::from_result_code(-3), Error::ApiError(-3));
    assert!(Error::SwapchainLost.is_recoverable());
    for error in [
        Error::AllocationFailure,
        Error::InvalidHandle,
        Error::DeviceLost,
        Error::ApiError(-3),
        Error::RecursionLimit,
    ] {
        assert!(!error.is_recoverable());
    }
    assert!(Error::DeviceLost.is_fatal());
    assert!(!Error::SwapchainLost.is_fatal());
    assert!(!Error::AllocationFailure.is_fatal());
}

#[test]
fn buffer_usage_is_lowered_bit_by_bit() {
    assert_eq!(lower_buffer_usage(BufferUsage::from_bits(0)), BUFFER_USAGE_TRANSFER_DST);
    assert_eq!(
        lower_buffer_usage(BufferUsage::from_bits(BufferUsage::VERTEX)),
        BUFFER_USAGE_TRANSFER_DST | BUFFER_USAGE_VERTEX_BUFFER
    );
    assert_eq!(
        lower_buffer_usage(BufferUsage::from_bits(BufferUsage::INDEX)),
        BUFFER_USAGE_TRANSFER_DST | BUFFER_USAGE_INDEX_BUFFER
    );
    assert_eq!(
        lower_buffer_usage(BufferUsage::from_bits(BufferUsage::UNIFORM)),
        BUFFER_USAGE_TRANSFER_DST | BUFFER_USAGE_UNIFORM_BUFFER
    );
    assert_eq!(
        lower_buffer_usage(BufferUsage::from_bits(BufferUsage::STORAGE)),
        BUFFER_USAGE_TRANSFER_DST | BUFFER_USAGE_STORAGE_BUFFER
    );
    assert_eq!(
        lower_buffer_usage(BufferUsage::from_bits(BufferUsage::INDIRECT)),
        BUFFER_USAGE_TRANSFER_DST | BUFFER_USAGE_INDIRECT_BUFFER
    );
    assert_eq!(
        lower_buffer_usage(BufferUsage::from_bits(31)),
        BUFFER_USAGE_TRANSFER_DST
            | BUFFER_USAGE_VERTEX_BUFFER
            | BUFFER_USAGE_INDEX_BUFFER
            | BUFFER_USAGE_UNIFORM_BUFFER
            | BUFFER_USAGE_STORAGE_BUFFER
            | BUFFER_USAGE_INDIRECT_BUFFER
    );
}

#[test]
fn texture_usage_is_lowered_by_format() {
    let base = IMAGE_USAGE_TRANSFER_SRC | IMAGE_USAGE_TRANSFER_DST;
    assert_eq!(lower_texture_usage(TextureUsage::from_bits(0), TextureFormat::Rgba8Unorm), base);
    assert_eq!(
        lower_texture_usage(
            TextureUsage::from_bits(TextureUsage::ATTACHMENT),
            TextureFormat::Rgba8Unorm
        ),
        base | IMAGE_USAGE_COLOR_ATTACHMENT
    );
    assert_eq!(
        lower_texture_usage(
            TextureUsage::from_bits(TextureUsage::ATTACHMENT),
            TextureFormat::D32Float
        ),
        base | IMAGE_USAGE_DEPTH_STENCIL_ATTACHMENT
    );
    assert_eq!(
        lower_texture_usage(
            TextureUsage::from_bits(TextureUsage::SAMPLED | TextureUsage::STORAGE),
            TextureFormat::D32Float
        ),
        base | IMAGE_USAGE_SAMPLED | IMAGE_USAGE_STORAGE
    );
}

#[test]
fn the_builder_hands_out_indices_in_order() {
    let mut builder = RenderGraphBuilder::new([800, 600]);
    let a = builder.create_buffer(BufferDescription {
        size: 4,
        usage: BufferUsage::from_bits(BufferUsage::UNIFORM),
    });
    let b = builder.import_buffer(BufferKey(9));
    assert_eq!((a, b), (BufferGraphResource(0), BufferGraphResource(1)));
    let texture = builder.create_texture(TextureDescription {
        size: [32, 16],
        format: TextureFormat::Rgba8Unorm,
        usage: TextureUsage::from_bits(TextureUsage::SAMPLED),
        sampler: None,
    });
    assert_eq!(texture, TextureGraphResource(0));
    let (swapchain, size) = builder.get_swapchain_image();
    assert_eq!((swapchain, size), (TextureGraphResource(1), [800, 600]));
    let imported = builder.import_texture(ImageKey(5));
    assert_eq!(imported, TextureGraphResource(2));
    // Asking again gives the same image and adds nothing.
    assert_eq!(builder.get_swapchain_image(), (TextureGraphResource(1), [800, 600]));
    let graph = builder.build();
    assert_eq!(graph.buffers.len(), 2);
    assert_eq!(graph.images.len(), 3);
    assert!(graph.passes.is_empty());
    match graph.buffers[0].description {
        BufferResourceDescription::Transient(description) => {
            assert_eq!(description.size, 4);
            assert_eq!(description.usage, BUFFER_USAGE_TRANSFER_DST | BUFFER_USAGE_UNIFORM_BUFFER);
            assert_eq!(description.location, MemoryType::GpuOnly);
        }
        _ => panic!("a created buffer is transient"),
    }
    assert_eq!(graph.buffers[1].description, BufferResourceDescription::Persistent(BufferKey(9)));
    match graph.images[0].description {
        ImageResourceDescription::Transient(description) => {
            assert!(matches!(
                description.size,
                TransientImageSize::Exact(Extent2D { width: 32, height: 16 })
            ));
            assert_eq!(
                description.usage,
                IMAGE_USAGE_TRANSFER_SRC | IMAGE_USAGE_TRANSFER_DST | IMAGE_USAGE_SAMPLED
            );
        }
        _ => panic!("a created texture is transient"),
    }
    assert!(matches!(graph.images[1].description, ImageResourceDescription::Swapchain(0)));
    assert!(matches!(
        graph.images[2].description,
        ImageResourceDescription::Persistent(ImageKey(5))
    ));
}

#[test]
fn raster_passes_declare_what_they_touch() {
    let buffer = BufferGraphResource(0);
    let other = BufferGraphResource(1);
    let texture = TextureGraphResource(0);
    let target = TextureGraphResource(1);
    let pass = RasterPassBuilder::new("draw")
        .vertex_buffer(buffer)
        .index_buffer(other)
        .shader_access(ShaderResourceAccess::BufferStorageWrite(buffer))
        .shader_access(ShaderResourceAccess::TextureSampleRead(texture))
        .attachments(&[ColorAttachment::new(target), ColorAttachment::new(texture)], None)
        .raster_fn(RecordFn(8))
        .pass;
    assert_eq!(pass.name, "draw");
    assert_eq!(pass.queue, Queue::Graphics);
    assert_eq!(pass.build_cmd_fn, Some(RecordFn(8)));
    // The shader write replaced the vertex read of the same buffer.
    assert_eq!(
        pass.buffer_usages,
        vec![
            (BufferHandle::Transient(0), BufferResourceAccess::StorageWrite),
            (BufferHandle::Transient(1), BufferResourceAccess::IndexRead),
        ]
    );
    // Being an attachment replaced the sampling of the same texture.
    assert_eq!(
        pass.image_usages,
        vec![
            (ImageHandle::Transient(0), ImageResourceAccess::AttachmentWrite),
            (ImageHandle::Transient(1), ImageResourceAccess::AttachmentWrite),
        ]
    );
    let framebuffer = pass.framebuffer.unwrap();
    assert_eq!(
        framebuffer.color_attachments,
        vec![(ImageHandle::Transient(1), None), (ImageHandle::Transient(0), None)]
    );
    assert_eq!(framebuffer.depth_stencil_attachment, None);
    assert!(framebuffer.input_attachments.is_empty());
}

#[test]
fn compute_passes_declare_what_they_touch() {
    let pass = ComputePassBuilder::new("cull")
        .shader_access(ShaderResourceAccess::BufferUniformRead(BufferGraphResource(2)))
        .shader_access(ShaderResourceAccess::BufferStorageRead(BufferGraphResource(0)))
        .shader_access(ShaderResourceAccess::TextureStorageRead(TextureGraphResource(1)))
        .shader_access(ShaderResourceAccess::TextureStorageWrite(TextureGraphResource(3)))
        .indirect_buffer(BufferGraphResource(5))
        .compute_fn(RecordFn(1))
        .pass;
    assert_eq!(pass.name, "cull");
    assert_eq!(
        pass.buffer_usages,
        vec![
            (BufferHandle::Transient(2), BufferResourceAccess::UniformRead),
            (BufferHandle::Transient(0), BufferResourceAccess::StorageRead),
            (BufferHandle::Transient(5), BufferResourceAccess::IndirectRead),
        ]
    );
    assert_eq!(
        pass.image_usages,
        vec![
            (ImageHandle::Transient(1), ImageResourceAccess::StorageRead),
            (ImageHandle::Transient(3), ImageResourceAccess::StorageWrite),
        ]
    );
    assert!(pass.framebuffer.is_none());
    assert_eq!(pass.build_cmd_fn, Some(RecordFn(1)));
    let mut builder = RenderGraphBuilder::new([1, 1]);
    builder.add_compute_pass(ComputePassBuilder::new("a"));
    builder.add_raster_pass(RasterPassBuilder::new("b"));
    let graph = builder.build();
    assert_eq!(graph.passes.len(), 2);
    assert_eq!(graph.passes[0].name, "a");
    assert_eq!(graph.passes[1].name, "b");
}

#[test]
fn the_test_graph_is_as_declared() {
    let mut builder = RenderGraphBuilder::new([1600, 900]);
    render_graph_test(&mut builder);
    let graph = builder.build();
    assert_eq!(graph.buffers.len(), 1);
    assert_eq!(graph.images.len(), 2);
    assert_eq!(graph.passes.len(), 1);
    let pass = &graph.passes[0];
    assert_eq!(pass.name, "Test");
    // The pass writes both the buffer and its attachments.
    assert_eq!(
        pass.buffer_usages,
        vec![(BufferHandle::Transient(0), BufferResourceAccess::StorageWrite)]
    );
    assert!(pass.buffer_usages.iter().all(|(_, access)| access.is_write()));
    assert_eq!(
        pass.image_usages,
        vec![
            (ImageHandle::Transient(0), ImageResourceAccess::AttachmentWrite),
            (ImageHandle::Transient(1), ImageResourceAccess::AttachmentWrite),
        ]
    );
    assert!(pass.image_usages.iter().all(|(_, access)| access.is_write()));
    assert_eq!(pass.build_cmd_fn, Some(RecordFn(0)));
    let framebuffer = pass.framebuffer.clone().unwrap();
    assert_eq!(
        framebuffer.color_attachments,
        vec![(
            ImageHandle::Transient(0),
            Some([1.0f32.to_bits(), 0.5f32.to_bits(), 0.25f32.to_bits(), 0.0f32.to_bits()])
        )]
    );
    assert_eq!(
        framebuffer.depth_stencil_attachment,
        Some((ImageHandle::Transient(1), Some((1.0f32.to_bits(), 0))))
    );

    // Declared into a graph that already has resources, it follows on.
    let mut builder = RenderGraphBuilder::new([640, 480]);
    builder.get_swapchain_image();
    builder.import_buffer(BufferKey(1));
    render_graph_test(&mut builder);
    let graph = builder.build();
    assert_eq!(graph.buffers.len(), 2);
    assert_eq!(graph.images.len(), 2);
    assert_eq!(
        graph.passes[0].buffer_usages,
        vec![(BufferHandle::Transient(1), BufferResourceAccess::StorageWrite)]
    );
}

#[test]
fn device_format_codes_match_the_device_headers() {
    let table = [
        (TextureFormat::R8Unorm, ash::vk::Format::R8_UNORM),
        (TextureFormat::Rg8Unorm, ash::vk::Format::R8G8_UNORM),
        (TextureFormat::Rgb8Unorm, ash::vk::Format::R8G8B8_UNORM),
        (TextureFormat::Rgba8Unorm, ash::vk::Format::R8G8B8A8_UNORM),
        (TextureFormat::R8Snorm, ash::vk::Format::R8_SNORM),
        (TextureFormat::Rg8Snorm, ash::vk::Format::R8G8_SNORM),
        (TextureFormat::Rgb8Snorm, ash::vk::Format::R8G8B8_SNORM),
        (TextureFormat::Rgba8Snorm, ash::vk::Format::R8G8B8A8_SNORM),
        (TextureFormat::R8Uint, ash::vk::Format::R8_UINT),
        (TextureFormat::Rg8Uint, ash::vk::Format::R8G8_UINT),
        (TextureFormat::Rgb8Uint, ash::vk::Format::R8G8B8_UINT),
        (TextureFormat::Rgba8Uint, ash::vk::Format::R8G8B8A8_UINT),
        (TextureFormat::R8Sint, ash::vk::Format::R8_SINT),
        (TextureFormat::Rg8Sint, ash::vk::Format::R8G8_SINT),
        (TextureFormat::Rgb8Sint, ash::vk::Format::R8G8B8_SINT),
        (TextureFormat::Rgba8Sint, ash::vk::Format::R8G8B8A8_SINT),
        (TextureFormat::R16Unorm, ash::vk::Format::R16_UNORM),
        (TextureFormat::Rg16Unorm, ash::vk::Format::R16G16_UNORM),
        (TextureFormat::Rgb16Unorm, ash::vk::Format::R16G16B16_UNORM),
        (TextureFormat::Rgba16Unorm, ash::vk::Format::R16G16B16A16_UNORM),
        (TextureFormat::R16Snorm, ash::vk::Format::R16_SNORM),
        (TextureFormat::Rg16Snorm, ash::vk::Format::R16G16_SNORM),
        (TextureFormat::Rgb16Snorm, ash::vk::Format::R16G16B16_SNORM),
        (TextureFormat::Rgba16Snorm, ash::vk::Format::R16G16B16A16_SNORM),
        (TextureFormat::R16Uint, ash::vk::Format::R16_UINT),
        (TextureFormat::Rg16Uint, ash::vk::Format::R16G16_UINT),
        (TextureFormat::Rgb16Uint, ash::vk::Format::R16G16B16_UINT),
        (TextureFormat::Rgba16Uint, ash::vk::Format::R16G16B16A16_UINT),
        (TextureFormat::R16Sint, ash::vk::Format::R16_SINT),
        (TextureFormat::Rg16Sint, ash::vk::Format::R16G16_SINT),
        (TextureFormat::Rgb16Sint, ash::vk::Format::R16G16B16_SINT),
        (TextureFormat::Rgba16Sint, ash::vk::Format::R16G16B16A16_SINT),
        (TextureFormat::D16Unorm, ash::vk::Format::D16_UNORM),
        (TextureFormat::D24UnormS8Uint, ash::vk::Format::D24_UNORM_S8_UINT),
        (TextureFormat::D32Float, ash::vk::Format::D32_SFLOAT),
        (TextureFormat::D32FloatS8Uint, ash::vk::Format::D32_SFLOAT_S8_UINT),
    ];
    assert_eq!(table.len(), 36);
    for (format, device) in table {
        assert_eq!(format.to_device_format(), device.as_raw());
        assert_eq!(TextureFormat::from_device_format(device.as_raw()), Some(format));
    }
    assert_eq!(TextureFormat::from_device_format(ash::vk::Format::B8G8R8A8_UNORM.as_raw()), None);
    assert_eq!(TextureFormat::from_device_format(0), None);
    assert_eq!(TextureFormat::from_device_format(-1), None);
}
