use ash::vk;
use neptune_render::flags;

#[test]
fn stage_masks_match_the_device_headers() {
    assert_eq!(flags::STAGE_NONE, vk::PipelineStageFlags2::NONE.as_raw());
    assert_eq!(flags::STAGE_DRAW_INDIRECT, vk::PipelineStageFlags2::DRAW_INDIRECT.as_raw());
    assert_eq!(flags::STAGE_VERTEX_INPUT, vk::PipelineStageFlags2::VERTEX_INPUT.as_raw());
    assert_eq!(flags::STAGE_VERTEX_SHADER, vk::PipelineStageFlags2::VERTEX_SHADER.as_raw());
    assert_eq!(flags::STAGE_FRAGMENT_SHADER, vk::PipelineStageFlags2::FRAGMENT_SHADER.as_raw());
    assert_eq!(
        flags::STAGE_EARLY_FRAGMENT_TESTS,
        vk::PipelineStageFlags2::EARLY_FRAGMENT_TESTS.as_raw()
    );
    assert_eq!(
        flags::STAGE_LATE_FRAGMENT_TESTS,
        vk::PipelineStageFlags2::LATE_FRAGMENT_TESTS.as_raw()
    );
    assert_eq!(
        flags::STAGE_COLOR_ATTACHMENT_OUTPUT,
        vk::PipelineStageFlags2::COLOR_ATTACHMENT_OUTPUT.as_raw()
    );
    assert_eq!(flags::STAGE_COMPUTE_SHADER, vk::PipelineStageFlags2::COMPUTE_SHADER.as_raw());
    assert_eq!(flags::STAGE_TRANSFER, vk::PipelineStageFlags2::TRANSFER.as_raw());
    assert_eq!(flags::STAGE_BOTTOM_OF_PIPE, vk::PipelineStageFlags2::BOTTOM_OF_PIPE.as_raw());
    assert_eq!(flags::STAGE_TASK_SHADER, vk::PipelineStageFlags2::TASK_SHADER_EXT.as_raw());
    assert_eq!(flags::STAGE_MESH_SHADER, vk::PipelineStageFlags2::MESH_SHADER_EXT.as_raw());
    assert_eq!(
        flags::STAGE_RAY_TRACING_SHADER,
        vk::PipelineStageFlags2::RAY_TRACING_SHADER_KHR.as_raw()
    );
}

#[test]
fn combined_stage_masks_are_unions() {
    let shader_all = vk::PipelineStageFlags2::VERTEX_SHADER
        | vk::PipelineStageFlags2::FRAGMENT_SHADER
        | vk::PipelineStageFlags2::COMPUTE_SHADER
        | vk::PipelineStageFlags2::TASK_SHADER_EXT
        | vk::PipelineStageFlags2::MESH_SHADER_EXT
        | vk::PipelineStageFlags2::RAY_TRACING_SHADER_KHR;
    assert_eq!(flags::STAGE_ALL_SHADERS, shader_all.as_raw());
    let tests = vk::PipelineStageFlags2::EARLY_FRAGMENT_TESTS
        | vk::PipelineStageFlags2::LATE_FRAGMENT_TESTS;
    assert_eq!(flags::STAGE_FRAGMENT_TESTS, tests.as_raw());
    let writes = vk::AccessFlags2::SHADER_WRITE
        | vk::AccessFlags2::COLOR_ATTACHMENT_WRITE
        | vk::AccessFlags2::DEPTH_STENCIL_ATTACHMENT_WRITE
        | vk::AccessFlags2::TRANSFER_WRITE
        | vk::AccessFlags2::MEMORY_WRITE;
    assert_eq!(flags::ACCESS_ANY_WRITE, writes.as_raw());
}

#[test]
fn access_masks_match_the_device_headers() {
    assert_eq!(flags::ACCESS_NONE, vk::AccessFlags2::NONE.as_raw());
    assert_eq!(
        flags::ACCESS_INDIRECT_COMMAND_READ,
        vk::AccessFlags2::INDIRECT_COMMAND_READ.as_raw()
    );
    assert_eq!(flags::ACCESS_INDEX_READ, vk::AccessFlags2::INDEX_READ.as_raw());
    assert_eq!(
        flags::ACCESS_VERTEX_ATTRIBUTE_READ,
        vk::AccessFlags2::VERTEX_ATTRIBUTE_READ.as_raw()
    );
    assert_eq!(flags::ACCESS_UNIFORM_READ, vk::AccessFlags2::UNIFORM_READ.as_raw());
    assert_eq!(flags::ACCESS_SHADER_READ, vk::AccessFlags2::SHADER_READ.as_raw());
    assert_eq!(flags::ACCESS_SHADER_WRITE, vk::AccessFlags2::SHADER_WRITE.as_raw());
    assert_eq!(
        flags::ACCESS_COLOR_ATTACHMENT_WRITE,
        vk::AccessFlags2::COLOR_ATTACHMENT_WRITE.as_raw()
    );
    assert_eq!(
        flags::ACCESS_DEPTH_STENCIL_ATTACHMENT_WRITE,
        vk::AccessFlags2::DEPTH_STENCIL_ATTACHMENT_WRITE.as_raw()
    );
    assert_eq!(flags::ACCESS_TRANSFER_READ, vk::AccessFlags2::TRANSFER_READ.as_raw());
    assert_eq!(flags::ACCESS_TRANSFER_WRITE, vk::AccessFlags2::TRANSFER_WRITE.as_raw());
    assert_eq!(flags::ACCESS_MEMORY_READ, vk::AccessFlags2::MEMORY_READ.as_raw());
    assert_eq!(flags::ACCESS_MEMORY_WRITE, vk::AccessFlags2::MEMORY_WRITE.as_raw());
    assert_eq!(
        flags::ACCESS_SHADER_STORAGE_READ,
        vk::AccessFlags2::SHADER_STORAGE_READ.as_raw()
    );
}

#[test]
fn image_layouts_match_the_device_headers() {
    assert_eq!(flags::LAYOUT_UNDEFINED, vk::ImageLayout::UNDEFINED.as_raw());
    assert_eq!(flags::LAYOUT_GENERAL, vk::ImageLayout::GENERAL.as_raw());
    assert_eq!(
        flags::LAYOUT_COLOR_ATTACHMENT_OPTIMAL,
        vk::ImageLayout::COLOR_ATTACHMENT_OPTIMAL.as_raw()
    );
    assert_eq!(
        flags::LAYOUT_SHADER_READ_ONLY_OPTIMAL,
        vk::ImageLayout::SHADER_READ_ONLY_OPTIMAL.as_raw()
    );
    assert_eq!(
        flags::LAYOUT_TRANSFER_SRC_OPTIMAL,
        vk::ImageLayout::TRANSFER_SRC_OPTIMAL.as_raw()
    );
    assert_eq!(
        flags::LAYOUT_TRANSFER_DST_OPTIMAL,
        vk::ImageLayout::TRANSFER_DST_OPTIMAL.as_raw()
    );
    assert_eq!(flags::LAYOUT_PRESENT_SRC, vk::ImageLayout::PRESENT_SRC_KHR.as_raw());
    assert_eq!(flags::LAYOUT_ATTACHMENT_OPTIMAL, vk::ImageLayout::ATTACHMENT_OPTIMAL.as_raw());
}

#[test]
fn usage_bits_match_the_device_headers() {
    assert_eq!(flags::BUFFER_USAGE_TRANSFER_SRC, vk::BufferUsageFlags::TRANSFER_SRC.as_raw());
    assert_eq!(flags::BUFFER_USAGE_TRANSFER_DST, vk::BufferUsageFlags::TRANSFER_DST.as_raw());
    assert_eq!(flags::BUFFER_USAGE_UNIFORM_BUFFER, vk::BufferUsageFlags::UNIFORM_BUFFER.as_raw());
    assert_eq!(flags::BUFFER_USAGE_STORAGE_BUFFER, vk::BufferUsageFlags::STORAGE_BUFFER.as_raw());
    assert_eq!(flags::BUFFER_USAGE_INDEX_BUFFER, vk::BufferUsageFlags::INDEX_BUFFER.as_raw());
    assert_eq!(flags::BUFFER_USAGE_VERTEX_BUFFER, vk::BufferUsageFlags::VERTEX_BUFFER.as_raw());
    assert_eq!(
        flags::BUFFER_USAGE_INDIRECT_BUFFER,
        vk::BufferUsageFlags::INDIRECT_BUFFER.as_raw()
    );
    assert_eq!(flags::IMAGE_USAGE_TRANSFER_SRC, vk::ImageUsageFlags::TRANSFER_SRC.as_raw());
    assert_eq!(flags::IMAGE_USAGE_TRANSFER_DST, vk::ImageUsageFlags::TRANSFER_DST.as_raw());
    assert_eq!(flags::IMAGE_USAGE_SAMPLED, vk::ImageUsageFlags::SAMPLED.as_raw());
    assert_eq!(flags::IMAGE_USAGE_STORAGE, vk::ImageUsageFlags::STORAGE.as_raw());
    assert_eq!(
        flags::IMAGE_USAGE_COLOR_ATTACHMENT,
        vk::ImageUsageFlags::COLOR_ATTACHMENT.as_raw()
    );
    assert_eq!(
        flags::IMAGE_USAGE_DEPTH_STENCIL_ATTACHMENT,
        vk::ImageUsageFlags::DEPTH_STENCIL_ATTACHMENT.as_raw()
    );
}

#[test]
fn creation_and_presentation_values_match_the_device_headers() {
    assert_eq!(flags::IMAGE_TYPE_2D, vk::ImageType::TYPE_2D.as_raw());
    assert_eq!(flags::SAMPLE_COUNT_1, vk::SampleCountFlags::TYPE_1.as_raw());
    assert_eq!(flags::IMAGE_TILING_OPTIMAL, vk::ImageTiling::OPTIMAL.as_raw());
    assert_eq!(flags::SHARING_MODE_EXCLUSIVE, vk::SharingMode::EXCLUSIVE.as_raw());
    assert_eq!(flags::PRESENT_MODE_IMMEDIATE, vk::PresentModeKHR::IMMEDIATE.as_raw());
    assert_eq!(flags::PRESENT_MODE_MAILBOX, vk::PresentModeKHR::MAILBOX.as_raw());
    assert_eq!(flags::PRESENT_MODE_FIFO, vk::PresentModeKHR::FIFO.as_raw());
    assert_eq!(flags::FORMAT_UNDEFINED, vk::Format::UNDEFINED.as_raw());
    assert_eq!(flags::FORMAT_B8G8R8A8_UNORM, vk::Format::B8G8R8A8_UNORM.as_raw());
    assert_eq!(flags::COMPOSITE_ALPHA_OPAQUE, vk::CompositeAlphaFlagsKHR::OPAQUE.as_raw());
}

#[test]
fn result_codes_match_the_device_headers() {
    assert_eq!(flags::RESULT_SUCCESS, vk::Result::SUCCESS.as_raw());
    assert_eq!(flags::RESULT_SUBOPTIMAL, vk::Result::SUBOPTIMAL_KHR.as_raw());
    assert_eq!(
        flags::RESULT_ERROR_OUT_OF_HOST_MEMORY,
        vk::Result::ERROR_OUT_OF_HOST_MEMORY.as_raw()
    );
    assert_eq!(
        flags::RESULT_ERROR_OUT_OF_DEVICE_MEMORY,
        vk::Result::ERROR_OUT_OF_DEVICE_MEMORY.as_raw()
    );
    assert_eq!(flags::RESULT_ERROR_DEVICE_LOST, vk::Result::ERROR_DEVICE_LOST.as_raw());
    assert_eq!(
        flags::RESULT_ERROR_MEMORY_MAP_FAILED,
        vk::Result::ERROR_MEMORY_MAP_FAILED.as_raw()
    );
    assert_eq!(flags::RESULT_ERROR_SURFACE_LOST, vk::Result::ERROR_SURFACE_LOST_KHR.as_raw());
    assert_eq!(flags::RESULT_ERROR_OUT_OF_DATE, vk::Result::ERROR_OUT_OF_DATE_KHR.as_raw());
}

#[test]
fn contains_bits_agrees_with_the_device_flag_type() {
    let cases: [(u32, u32); 6] = [(0, 0), (0x21, 0x20), (0x21, 0x22), (0xff, 0x81), (0x80, 0x100), (7, 0)];
    for (mask, bits) in cases {
        let expected = vk::BufferUsageFlags::from_raw(mask).contains(vk::BufferUsageFlags::from_raw(bits));
        assert_eq!(flags::contains_bits(mask, bits), expected);
    }
    assert_eq!(flags::select_bits(true, 0x10), 0x10);
    assert_eq!(flags::select_bits(false, 0x10), 0);
}
