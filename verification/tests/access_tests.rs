use ash::vk;
use neptune_render::access::BufferResourceAccess as B;
use neptune_render::access::ImageResourceAccess as I;
use neptune_render::access::{
    BufferBarrierFlags, BufferResourceAccess, ImageBarrierFlags, ImageResourceAccess, Queue,
};
use neptune_render::flags::ACCESS_ANY_WRITE;
use neptune_render::barrier::{
    buffer_transition, image_transition, record_buffer_access, record_image_access,
    track_buffer_accesses, track_image_accesses, BufferBarrier,
};

fn shader_all() -> vk::PipelineStageFlags2 {
    vk::PipelineStageFlags2::VERTEX_SHADER
        | vk::PipelineStageFlags2::FRAGMENT_SHADER
        | vk::PipelineStageFlags2::COMPUTE_SHADER
        | vk::PipelineStageFlags2::TASK_SHADER_EXT
        | vk::PipelineStageFlags2::MESH_SHADER_EXT
        | vk::PipelineStageFlags2::RAY_TRACING_SHADER_KHR
}

fn buffer_flags(stage: vk::PipelineStageFlags2, access: vk::AccessFlags2) -> BufferBarrierFlags {
    BufferBarrierFlags { stage_mask: stage.as_raw(), access_flags: access.as_raw() }
}

fn image_flags(
    stage: vk::PipelineStageFlags2,
    access: vk::AccessFlags2,
    layout: vk::ImageLayout,
) -> ImageBarrierFlags {
    ImageBarrierFlags {
        stage_mask: stage.as_raw(),
        access_flags: access.as_raw(),
        layout: layout.as_raw(),
    }
}

#[test]
fn buffer_access_table() {
    assert_eq!(
        B::Unused.get_barrier_flags(),
        buffer_flags(vk::PipelineStageFlags2::NONE, vk::AccessFlags2::NONE)
    );
    assert_eq!(
        B::TransferRead.get_barrier_flags(),
        buffer_flags(vk::PipelineStageFlags2::TRANSFER, vk::AccessFlags2::MEMORY_READ)
    );
    assert_eq!(
        B::TransferWrite.get_barrier_flags(),
        buffer_flags(vk::PipelineStageFlags2::TRANSFER, vk::AccessFlags2::MEMORY_WRITE)
    );
    assert_eq!(
        B::VertexRead.get_barrier_flags(),
        buffer_flags(
            vk::PipelineStageFlags2::VERTEX_INPUT,
            vk::AccessFlags2::VERTEX_ATTRIBUTE_READ
        )
    );
    assert_eq!(
        B::IndexRead.get_barrier_flags(),
        buffer_flags(vk::PipelineStageFlags2::VERTEX_INPUT, vk::AccessFlags2::INDEX_READ)
    );
    assert_eq!(
        B::IndirectRead.get_barrier_flags(),
        buffer_flags(
            vk::PipelineStageFlags2::DRAW_INDIRECT,
            vk::AccessFlags2::INDIRECT_COMMAND_READ
        )
    );
    assert_eq!(
        B::UniformRead.get_barrier_flags(),
        buffer_flags(shader_all(), vk::AccessFlags2::UNIFORM_READ)
    );
    assert_eq!(
        B::StorageRead.get_barrier_flags(),
        buffer_flags(shader_all(), vk::AccessFlags2::SHADER_STORAGE_READ)
    );
    assert_eq!(
        B::StorageWrite.get_barrier_flags(),
        buffer_flags(shader_all(), vk::AccessFlags2::SHADER_WRITE)
    );
}

#[test]
fn image_access_table() {
    for is_color in [true, false] {
        assert_eq!(
            I::Unused.get_barrier_flags(is_color),
            image_flags(
                vk::PipelineStageFlags2::NONE,
                vk::AccessFlags2::NONE,
                vk::ImageLayout::UNDEFINED
            )
        );
        assert_eq!(
            I::TransferRead.get_barrier_flags(is_color),
            image_flags(
                vk::PipelineStageFlags2::TRANSFER,
                vk::AccessFlags2::TRANSFER_READ,
                vk::ImageLayout::TRANSFER_SRC_OPTIMAL
            )
        );
        assert_eq!(
            I::TransferWrite.get_barrier_flags(is_color),
            image_flags(
                vk::PipelineStageFlags2::TRANSFER,
                vk::AccessFlags2::TRANSFER_WRITE,
                vk::ImageLayout::TRANSFER_DST_OPTIMAL
            )
        );
        assert_eq!(
            I::SampledRead.get_barrier_flags(is_color),
            image_flags(
                shader_all(),
                vk::AccessFlags2::SHADER_READ,
                vk::ImageLayout::SHADER_READ_ONLY_OPTIMAL
            )
        );
        assert_eq!(
            I::StorageRead.get_barrier_flags(is_color),
            image_flags(shader_all(), vk::AccessFlags2::SHADER_READ, vk::ImageLayout::GENERAL)
        );
        assert_eq!(
            I::StorageWrite.get_barrier_flags(is_color),
            image_flags(shader_all(), vk::AccessFlags2::SHADER_WRITE, vk::ImageLayout::GENERAL)
        );
    }
    assert_eq!(
        I::AttachmentWrite.get_barrier_flags(true),
        image_flags(
            vk::PipelineStageFlags2::COLOR_ATTACHMENT_OUTPUT,
            vk::AccessFlags2::COLOR_ATTACHMENT_WRITE,
            vk::ImageLayout::COLOR_ATTACHMENT_OPTIMAL
        )
    );
    assert_eq!(
        I::AttachmentWrite.get_barrier_flags(false),
        image_flags(
            vk::PipelineStageFlags2::EARLY_FRAGMENT_TESTS
                | vk::PipelineStageFlags2::LATE_FRAGMENT_TESTS,
            vk::AccessFlags2::DEPTH_STENCIL_ATTACHMENT_WRITE,
            vk::ImageLayout::ATTACHMENT_OPTIMAL
        )
    );
}

#[test]
fn defaults_are_unused() {
    assert_eq!(BufferResourceAccess::default(), BufferResourceAccess::Unused);
    assert_eq!(ImageResourceAccess::default(), ImageResourceAccess::Unused);
    assert_eq!(Queue::default(), Queue::Graphics);
    assert_eq!(
        BufferBarrierFlags::default(),
        BufferResourceAccess::Unused.get_barrier_flags()
    );
    assert_eq!(
        ImageBarrierFlags::default(),
        ImageResourceAccess::Unused.get_barrier_flags(true)
    );
}

#[test]
fn write_accesses_are_classified() {
    let buffer_writes = [B::TransferWrite, B::StorageWrite];
    let buffer_reads = [
        B::Unused,
        B::TransferRead,
        B::VertexRead,
        B::IndexRead,
        B::IndirectRead,
        B::UniformRead,
        B::StorageRead,
    ];
    for access in buffer_writes {
        assert!(access.is_write());
        assert_ne!(access.get_barrier_flags().access_flags & ACCESS_ANY_WRITE, 0);
    }
    for access in buffer_reads {
        assert!(!access.is_write());
        assert_eq!(access.get_barrier_flags().access_flags & ACCESS_ANY_WRITE, 0);
    }
    for access in [I::TransferWrite, I::AttachmentWrite, I::StorageWrite] {
        assert!(access.is_write());
    }
    for access in [I::Unused, I::TransferRead, I::SampledRead, I::StorageRead] {
        assert!(!access.is_write());
    }
}

#[test]
fn unused_to_unused_needs_no_barrier() {
    assert_eq!(
        buffer_transition(BufferResourceAccess::Unused, BufferResourceAccess::Unused),
        None
    );
    assert_eq!(
        image_transition(ImageResourceAccess::Unused, ImageResourceAccess::Unused, true),
        None
    );
}

#[test]
fn every_other_transition_needs_a_barrier() {
    let all = [
        B::Unused,
        B::TransferRead,
        B::TransferWrite,
        B::VertexRead,
        B::IndexRead,
        B::IndirectRead,
        B::UniformRead,
        B::StorageRead,
        B::StorageWrite,
    ];
    for last in all {
        for next in all {
            let barrier = buffer_transition(last, next);
            if last == B::Unused && next == B::Unused {
                assert_eq!(barrier, None);
            } else {
                assert_eq!(
                    barrier,
                    Some(BufferBarrier {
                        src: last.get_barrier_flags(),
                        dst: next.get_barrier_flags()
                    })
                );
            }
        }
    }
}

#[test]
fn recording_an_access_overwrites_the_stored_one() {
    let mut last = BufferResourceAccess::Unused;
    assert_eq!(record_buffer_access(&mut last, BufferResourceAccess::Unused), None);
    assert_eq!(last, BufferResourceAccess::Unused);
    let barrier = record_buffer_access(&mut last, BufferResourceAccess::TransferWrite).unwrap();
    assert_eq!(last, BufferResourceAccess::TransferWrite);
    assert_eq!(barrier.src, BufferResourceAccess::Unused.get_barrier_flags());
    assert_eq!(barrier.dst, BufferResourceAccess::TransferWrite.get_barrier_flags());

    let mut image = ImageResourceAccess::TransferWrite;
    let barrier = record_image_access(&mut image, ImageResourceAccess::SampledRead, true).unwrap();
    assert_eq!(image, ImageResourceAccess::SampledRead);
    assert_eq!(barrier.src.layout, vk::ImageLayout::TRANSFER_DST_OPTIMAL.as_raw());
    assert_eq!(barrier.dst.layout, vk::ImageLayout::SHADER_READ_ONLY_OPTIMAL.as_raw());
}

#[test]
fn storage_sequence_emits_three_barriers() {
    let (barriers, last) =
        track_buffer_accesses(B::Unused, &[B::Unused, B::StorageWrite, B::StorageRead, B::TransferRead]);
    assert_eq!(last, B::TransferRead);
    assert_eq!(barriers.len(), 3);
    // Nothing to wait on before the first write, but the write is recorded.
    assert_eq!(barriers[0].src, B::Unused.get_barrier_flags());
    assert_eq!(barriers[0].src.stage_mask, 0);
    assert_eq!(barriers[0].src.access_flags, 0);
    assert_eq!(barriers[0].dst, B::StorageWrite.get_barrier_flags());
    // The transition off the write is a real one: write to read.
    assert_eq!(barriers[1].src, B::StorageWrite.get_barrier_flags());
    assert_eq!(barriers[1].dst, B::StorageRead.get_barrier_flags());
    assert_ne!(barriers[1].src, barriers[1].dst);
    assert_eq!(barriers[1].src.access_flags, vk::AccessFlags2::SHADER_WRITE.as_raw());
    assert_eq!(barriers[1].dst.access_flags, vk::AccessFlags2::SHADER_STORAGE_READ.as_raw());
    assert_eq!(barriers[1].src.stage_mask, shader_all().as_raw());
    assert_eq!(barriers[1].dst.stage_mask, shader_all().as_raw());
    assert_eq!(barriers[2].src, B::StorageRead.get_barrier_flags());
    assert_eq!(barriers[2].dst, B::TransferRead.get_barrier_flags());
}

#[test]
fn tracking_nothing_emits_nothing() {
    let (barriers, last) = track_buffer_accesses(BufferResourceAccess::StorageRead, &[]);
    assert!(barriers.is_empty());
    assert_eq!(last, BufferResourceAccess::StorageRead);
    let (barriers, last) = track_image_accesses(ImageResourceAccess::Unused, &[], false);
    assert!(barriers.is_empty());
    assert_eq!(last, ImageResourceAccess::Unused);
}

#[test]
fn unused_steps_inside_a_sequence_still_advance_the_state() {
    let (barriers, last) = track_buffer_accesses(B::Unused, &[B::Unused, B::Unused, B::VertexRead, B::Unused, B::Unused]);
    assert_eq!(last, B::Unused);
    // unused->unused twice: nothing; unused->vertex, vertex->unused: two; unused->unused: nothing.
    assert_eq!(barriers.len(), 2);
    assert_eq!(barriers[0].dst, B::VertexRead.get_barrier_flags());
    assert_eq!(barriers[1].src, B::VertexRead.get_barrier_flags());
    assert_eq!(barriers[1].dst, B::Unused.get_barrier_flags());
}

#[test]
fn image_sequence_chains_layouts() {
    let (barriers, last) =
        track_image_accesses(I::Unused, &[I::TransferWrite, I::SampledRead, I::AttachmentWrite], false);
    assert_eq!(last, I::AttachmentWrite);
    assert_eq!(barriers.len(), 3);
    assert_eq!(barriers[0].src.layout, vk::ImageLayout::UNDEFINED.as_raw());
    for i in 0..2 {
        assert_eq!(barriers[i].dst.layout, barriers[i + 1].src.layout);
    }
    assert_eq!(barriers[2].dst.layout, vk::ImageLayout::ATTACHMENT_OPTIMAL.as_raw());
    assert_eq!(
        barriers[2].dst.access_flags,
        vk::AccessFlags2::DEPTH_STENCIL_ATTACHMENT_WRITE.as_raw()
    );
}
