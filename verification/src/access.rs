//! Access states and the barriers derived from them.
//!
//! Every way a pass can touch a buffer or an image is one value of a closed
//! enumeration. Each value maps to a fixed stage mask, access mask and (for
//! images) layout; a barrier is the pair of what came before and what is asked
//! for now.

use crate::flags::{
    ACCESS_ANY_WRITE, ACCESS_COLOR_ATTACHMENT_WRITE, ACCESS_DEPTH_STENCIL_ATTACHMENT_WRITE,
    ACCESS_INDEX_READ, ACCESS_INDIRECT_COMMAND_READ, ACCESS_MEMORY_READ, ACCESS_MEMORY_WRITE,
    ACCESS_NONE, ACCESS_SHADER_READ, ACCESS_SHADER_STORAGE_READ, ACCESS_SHADER_WRITE,
    ACCESS_TRANSFER_READ, ACCESS_TRANSFER_WRITE, ACCESS_UNIFORM_READ,
    ACCESS_VERTEX_ATTRIBUTE_READ, LAYOUT_ATTACHMENT_OPTIMAL, LAYOUT_COLOR_ATTACHMENT_OPTIMAL,
    LAYOUT_GENERAL, LAYOUT_SHADER_READ_ONLY_OPTIMAL, LAYOUT_TRANSFER_DST_OPTIMAL,
    LAYOUT_TRANSFER_SRC_OPTIMAL, LAYOUT_UNDEFINED, STAGE_ALL_SHADERS,
    STAGE_COLOR_ATTACHMENT_OUTPUT, STAGE_DRAW_INDIRECT, STAGE_FRAGMENT_TESTS, STAGE_NONE,
    STAGE_TRANSFER, STAGE_VERTEX_INPUT,
};
use vstd::prelude::*;

verus! {

/// The queue a pass is submitted to.
#[derive(Debug, Eq, PartialEq, Copy, Clone, Structural)]
pub enum Queue {
    Graphics,
}

impl Default for Queue {
    fn default() -> (q: Queue)
        ensures
            q == Queue::Graphics,
    {
        Queue::Graphics
    }
}

/// Stage and access masks on one side of a buffer barrier.
#[derive(Debug, Eq, PartialEq, Copy, Clone, Structural)]
pub struct BufferBarrierFlags {
    pub stage_mask: u64,
    pub access_flags: u64,
}

impl Default for BufferBarrierFlags {
    fn default() -> (f: BufferBarrierFlags)
        ensures
            f == BufferResourceAccess::Unused.barrier_flags(),
    {
        BufferBarrierFlags { stage_mask: STAGE_NONE, access_flags: ACCESS_NONE }
    }
}

/// How a pass touches a buffer.
#[derive(Clone, Copy, Debug, PartialEq, Eq, Hash, Structural)]
pub enum BufferResourceAccess {
    /// Not touched yet, or declared without any use.
    Unused,
    TransferRead,
    TransferWrite,
    VertexRead,
    IndexRead,
    IndirectRead,
    UniformRead,
    StorageRead,
    StorageWrite,
}

impl Default for BufferResourceAccess {
    fn default() -> (a: BufferResourceAccess)
        ensures
            a == BufferResourceAccess::Unused,
    {
        BufferResourceAccess::Unused
    }
}

impl BufferResourceAccess {
    /// The pipeline stages in which the access takes place.
    pub open spec fn stage_mask(self) -> u64 {
        match self {
            Self::Unused => STAGE_NONE,
            Self::TransferRead | Self::TransferWrite => STAGE_TRANSFER,
            Self::VertexRead | Self::IndexRead => STAGE_VERTEX_INPUT,
            Self::IndirectRead => STAGE_DRAW_INDIRECT,
            Self::UniformRead | Self::StorageRead | Self::StorageWrite => STAGE_ALL_SHADERS,
        }
    }

    /// The kind of memory access made.
    pub open spec fn access_mask(self) -> u64 {
        match self {
            Self::Unused => ACCESS_NONE,
            Self::TransferRead => ACCESS_MEMORY_READ,
            Self::TransferWrite => ACCESS_MEMORY_WRITE,
            Self::VertexRead => ACCESS_VERTEX_ATTRIBUTE_READ,
            Self::IndexRead => ACCESS_INDEX_READ,
            Self::IndirectRead => ACCESS_INDIRECT_COMMAND_READ,
            Self::UniformRead => ACCESS_UNIFORM_READ,
            Self::StorageRead => ACCESS_SHADER_STORAGE_READ,
            Self::StorageWrite => ACCESS_SHADER_WRITE,
        }
    }

    /// Both masks of the access.
    pub open spec fn barrier_flags(self) -> BufferBarrierFlags {
        BufferBarrierFlags { stage_mask: self.stage_mask(), access_flags: self.access_mask() }
    }

    /// Whether the access modifies the buffer.
    pub open spec fn writes(self) -> bool {
        self is TransferWrite || self is StorageWrite
    }

    /// Looks up the stage and access masks of this access.
    pub fn get_barrier_flags(&self) -> (flags: BufferBarrierFlags)
        ensures
            flags == self.barrier_flags(),
    {
        match self {
            Self::Unused => BufferBarrierFlags { stage_mask: STAGE_NONE, access_flags: ACCESS_NONE },
            Self::TransferRead => BufferBarrierFlags {
                stage_mask: STAGE_TRANSFER,
                access_flags: ACCESS_MEMORY_READ,
            },
            Self::TransferWrite => BufferBarrierFlags {
                stage_mask: STAGE_TRANSFER,
                access_flags: ACCESS_MEMORY_WRITE,
            },
            Self::VertexRead => BufferBarrierFlags {
                stage_mask: STAGE_VERTEX_INPUT,
                access_flags: ACCESS_VERTEX_ATTRIBUTE_READ,
            },
            Self::IndexRead => BufferBarrierFlags {
                stage_mask: STAGE_VERTEX_INPUT,
                access_flags: ACCESS_INDEX_READ,
            },
            Self::IndirectRead => BufferBarrierFlags {
                stage_mask: STAGE_DRAW_INDIRECT,
                access_flags: ACCESS_INDIRECT_COMMAND_READ,
            },
            Self::UniformRead => BufferBarrierFlags {
                stage_mask: STAGE_ALL_SHADERS,
                access_flags: ACCESS_UNIFORM_READ,
            },
            Self::StorageRead => BufferBarrierFlags {
                stage_mask: STAGE_ALL_SHADERS,
                access_flags: ACCESS_SHADER_STORAGE_READ,
            },
            Self::StorageWrite => BufferBarrierFlags {
                stage_mask: STAGE_ALL_SHADERS,
                access_flags: ACCESS_SHADER_WRITE,
            },
        }
    }

    /// Tests [`BufferResourceAccess::writes`].
    pub fn is_write(&self) -> (r: bool)
        ensures
            r == self.writes(),
    {
        match self {
            Self::TransferWrite | Self::StorageWrite => true,
            _ => false,
        }
    }
}

/// Stage mask, access mask and layout on one side of an image barrier.
#[derive(Debug, Eq, PartialEq, Copy, Clone, Structural)]
pub struct ImageBarrierFlags {
    pub stage_mask: u64,
    pub access_flags: u64,
    pub layout: i32,
}

impl Default for ImageBarrierFlags {
    fn default() -> (f: ImageBarrierFlags)
        ensures
            f == ImageResourceAccess::Unused.barrier_flags(true),
    {
        ImageBarrierFlags {
            stage_mask: STAGE_NONE,
            access_flags: ACCESS_NONE,
            layout: LAYOUT_UNDEFINED,
        }
    }
}

/// How a pass touches an image.
#[derive(Clone, Copy, Debug, PartialEq, Eq, Hash, Structural)]
pub enum ImageResourceAccess {
    /// Not touched yet, or declared without any use.
    Unused,
    TransferRead,
    TransferWrite,
    AttachmentWrite,
    SampledRead,
    StorageRead,
    StorageWrite,
}

impl Default for ImageResourceAccess {
    fn default() -> (a: ImageResourceAccess)
        ensures
            a == ImageResourceAccess::Unused,
    {
        ImageResourceAccess::Unused
    }
}

impl ImageResourceAccess {
    /// The pipeline stages in which the access takes place. An attachment is
    /// written at colour output for a colour image and in the fragment tests
    /// for a depth/stencil image.
    pub open spec fn stage_mask(self, is_color_image: bool) -> u64 {
        match self {
            Self::Unused => STAGE_NONE,
            Self::TransferRead | Self::TransferWrite => STAGE_TRANSFER,
            Self::AttachmentWrite => if is_color_image {
                STAGE_COLOR_ATTACHMENT_OUTPUT
            } else {
                STAGE_FRAGMENT_TESTS
            },
            Self::SampledRead | Self::StorageRead | Self::StorageWrite => STAGE_ALL_SHADERS,
        }
    }

    /// The kind of memory access made.
    pub open spec fn access_mask(self, is_color_image: bool) -> u64 {
        match self {
            Self::Unused => ACCESS_NONE,
            Self::TransferRead => ACCESS_TRANSFER_READ,
            Self::TransferWrite => ACCESS_TRANSFER_WRITE,
            Self::AttachmentWrite => if is_color_image {
                ACCESS_COLOR_ATTACHMENT_WRITE
            } else {
                ACCESS_DEPTH_STENCIL_ATTACHMENT_WRITE
            },
            Self::SampledRead | Self::StorageRead => ACCESS_SHADER_READ,
            Self::StorageWrite => ACCESS_SHADER_WRITE,
        }
    }

    /// The layout the image must be in for the access.
    pub open spec fn layout(self, is_color_image: bool) -> i32 {
        match self {
            Self::Unused => LAYOUT_UNDEFINED,
            Self::TransferRead => LAYOUT_TRANSFER_SRC_OPTIMAL,
            Self::TransferWrite => LAYOUT_TRANSFER_DST_OPTIMAL,
            Self::AttachmentWrite => if is_color_image {
                LAYOUT_COLOR_ATTACHMENT_OPTIMAL
            } else {
                LAYOUT_ATTACHMENT_OPTIMAL
            },
            Self::SampledRead => LAYOUT_SHADER_READ_ONLY_OPTIMAL,
            Self::StorageRead | Self::StorageWrite => LAYOUT_GENERAL,
        }
    }

    /// Masks and layout of the access.
    pub open spec fn barrier_flags(self, is_color_image: bool) -> ImageBarrierFlags {
        ImageBarrierFlags {
            stage_mask: self.stage_mask(is_color_image),
            access_flags: self.access_mask(is_color_image),
            layout: self.layout(is_color_image),
        }
    }

    /// Whether the access modifies the image.
    pub open spec fn writes(self) -> bool {
        self is TransferWrite || self is AttachmentWrite || self is StorageWrite
    }

    /// Looks up the stage mask, access mask and layout of this access.
    pub fn get_barrier_flags(&self, is_color_image: bool) -> (flags: ImageBarrierFlags)
        ensures
            flags == self.barrier_flags(is_color_image),
    {
        match self {
            Self::Unused => ImageBarrierFlags {
                stage_mask: STAGE_NONE,
                access_flags: ACCESS_NONE,
                layout: LAYOUT_UNDEFINED,
            },
            Self::TransferRead => ImageBarrierFlags {
                stage_mask: STAGE_TRANSFER,
                access_flags: ACCESS_TRANSFER_READ,
                layout: LAYOUT_TRANSFER_SRC_OPTIMAL,
            },
            Self::TransferWrite => ImageBarrierFlags {
                stage_mask: STAGE_TRANSFER,
                access_flags: ACCESS_TRANSFER_WRITE,
                layout: LAYOUT_TRANSFER_DST_OPTIMAL,
            },
            Self::AttachmentWrite => {
                if is_color_image {
                    ImageBarrierFlags {
                        stage_mask: STAGE_COLOR_ATTACHMENT_OUTPUT,
                        access_flags: ACCESS_COLOR_ATTACHMENT_WRITE,
                        layout: LAYOUT_COLOR_ATTACHMENT_OPTIMAL,
                    }
                } else {
                    ImageBarrierFlags {
                        stage_mask: STAGE_FRAGMENT_TESTS,
                        access_flags: ACCESS_DEPTH_STENCIL_ATTACHMENT_WRITE,
                        layout: LAYOUT_ATTACHMENT_OPTIMAL,
                    }
                }
            },
            Self::SampledRead => ImageBarrierFlags {
                stage_mask: STAGE_ALL_SHADERS,
                access_flags: ACCESS_SHADER_READ,
                layout: LAYOUT_SHADER_READ_ONLY_OPTIMAL,
            },
            Self::StorageRead => ImageBarrierFlags {
                stage_mask: STAGE_ALL_SHADERS,
                access_flags: ACCESS_SHADER_READ,
                layout: LAYOUT_GENERAL,
            },
            Self::StorageWrite => ImageBarrierFlags {
                stage_mask: STAGE_ALL_SHADERS,
                access_flags: ACCESS_SHADER_WRITE,
                layout: LAYOUT_GENERAL,
            },
        }
    }

    /// Tests [`ImageResourceAccess::writes`].
    pub fn is_write(&self) -> (r: bool)
        ensures
            r == self.writes(),
    {
        match self {
            Self::TransferWrite | Self::AttachmentWrite | Self::StorageWrite => true,
            _ => false,
        }
    }
}

/// A buffer access has empty masks exactly when it is `Unused`, and its access
/// mask carries a write bit exactly when it writes.
pub proof fn lemma_buffer_flags_classify(access: BufferResourceAccess)
    ensures
        access.stage_mask() == STAGE_NONE <==> access is Unused,
        access.access_mask() == ACCESS_NONE <==> access is Unused,
        access.access_mask() & ACCESS_ANY_WRITE != 0 <==> access.writes(),
{
    assert(0u64 & 0x1_1540u64 == 0) by (bit_vector);
    assert(0x8000u64 & 0x1_1540u64 == 0) by (bit_vector);
    assert(0x1_0000u64 & 0x1_1540u64 != 0) by (bit_vector);
    assert(0x4u64 & 0x1_1540u64 == 0) by (bit_vector);
    assert(0x2u64 & 0x1_1540u64 == 0) by (bit_vector);
    assert(0x1u64 & 0x1_1540u64 == 0) by (bit_vector);
    assert(0x8u64 & 0x1_1540u64 == 0) by (bit_vector);
    assert(0x2_0000_0000u64 & 0x1_1540u64 == 0) by (bit_vector);
    assert(0x40u64 & 0x1_1540u64 != 0) by (bit_vector);
}

/// An image access has empty masks and no layout exactly when it is `Unused`,
/// and its access mask carries a write bit exactly when it writes.
pub proof fn lemma_image_flags_classify(access: ImageResourceAccess, is_color_image: bool)
    ensures
        access.stage_mask(is_color_image) == STAGE_NONE <==> access is Unused,
        access.access_mask(is_color_image) == ACCESS_NONE <==> access is Unused,
        access.layout(is_color_image) == LAYOUT_UNDEFINED <==> access is Unused,
        access.access_mask(is_color_image) & ACCESS_ANY_WRITE != 0 <==> access.writes(),
{
    assert(0u64 & 0x1_1540u64 == 0) by (bit_vector);
    assert(0x800u64 & 0x1_1540u64 == 0) by (bit_vector);
    assert(0x1000u64 & 0x1_1540u64 != 0) by (bit_vector);
    assert(0x100u64 & 0x1_1540u64 != 0) by (bit_vector);
    assert(0x400u64 & 0x1_1540u64 != 0) by (bit_vector);
    assert(0x20u64 & 0x1_1540u64 == 0) by (bit_vector);
    assert(0x40u64 & 0x1_1540u64 != 0) by (bit_vector);
}

} // verus!
