//! Plain descriptions of the objects the core keeps track of.
//!
//! A device object is known here by its raw 64-bit handle and by the facts
//! the rules depend on: its size, usage, format and descriptor bindings. The
//! object itself is created and destroyed by the device layer.

use crate::access::{BufferResourceAccess, ImageResourceAccess};
use crate::types::TextureFormat;
use vstd::prelude::*;

verus! {

/// Width of an index in an index buffer.
#[derive(PartialEq, Eq, Debug, Copy, Clone, Structural)]
pub enum IndexSize {
    U16,
    U32,
}

/// Where the memory behind a resource lives.
#[derive(PartialEq, Eq, Debug, Copy, Clone, Structural)]
pub enum MemoryType {
    GpuOnly,
    CpuToGpu,
    GpuToCpu,
}

/// Width and height in pixels.
#[derive(PartialEq, Eq, Debug, Copy, Clone, Structural)]
pub struct Extent2D {
    pub width: u32,
    pub height: u32,
}

/// Key of a persistent buffer: a slot index in the low half, the slot's
/// generation in the high half.
#[derive(PartialEq, Eq, Debug, Copy, Clone, Hash, Structural)]
pub struct BufferKey(pub u64);

/// Key of a persistent image.
#[derive(PartialEq, Eq, Debug, Copy, Clone, Hash, Structural)]
pub struct ImageKey(pub u64);

/// Key of a sampler.
#[derive(PartialEq, Eq, Debug, Copy, Clone, Hash, Structural)]
pub struct SamplerKey(pub u64);

/// Key of a raster pipeline.
#[derive(PartialEq, Eq, Debug, Copy, Clone, Hash, Structural)]
pub struct RasterPipleineKey(pub u64);

/// A buffer as passes name it: owned by the caller across frames, or local
/// to the graph being built.
#[derive(PartialEq, Eq, Debug, Copy, Clone, Hash, Structural)]
pub enum BufferHandle {
    Persistent(BufferKey),
    Transient(usize),
}

/// An image as passes name it: owned by the caller across frames, or local
/// to the graph being built.
#[derive(PartialEq, Eq, Debug, Copy, Clone, Hash, Structural)]
pub enum ImageHandle {
    Persistent(ImageKey),
    Transient(usize),
}

#[derive(PartialEq, Eq, Debug, Copy, Clone, Hash, Structural)]
pub struct RasterPipelineHandle(pub RasterPipleineKey);

#[derive(PartialEq, Eq, Debug, Copy, Clone, Hash, Structural)]
pub struct ComputePipelineHandle(pub u64);

/// A presentable surface, by the key under which the instance lists it.
#[derive(PartialEq, Eq, Debug, Copy, Clone, Hash, Structural)]
pub struct SurfaceHandle(pub u64);

/// Size, usage bits and memory placement of a buffer to create.
#[derive(PartialEq, Eq, Debug, Copy, Clone, Structural)]
pub struct BufferDescription {
    pub size: u64,
    pub usage: u32,
    pub location: MemoryType,
}

/// Extent, format, usage bits and memory placement of a 2D image to create.
#[derive(PartialEq, Eq, Debug, Copy, Clone)]
pub struct ImageDescription2D {
    pub size: [u32; 2],
    pub format: TextureFormat,
    pub usage: u32,
    pub location: MemoryType,
}

/// A device buffer.
#[derive(PartialEq, Eq, Debug, Copy, Clone, Structural)]
pub struct Buffer {
    pub handle: u64,
    pub size: u64,
    pub usage: u32,
    pub location: MemoryType,
    /// Slot in the bindless storage-buffer table, if bound.
    pub storage_binding: Option<u32>,
}

/// A device image.
#[derive(PartialEq, Eq, Debug, Copy, Clone, Structural)]
pub struct Image {
    pub handle: u64,
    pub size: Extent2D,
    pub format: TextureFormat,
    pub usage: u32,
    pub location: MemoryType,
    /// Slot in the bindless storage-image table, if bound.
    pub storage_binding: Option<u32>,
    /// Slot in the bindless sampled-image table, if bound.
    pub sampled_binding: Option<u32>,
}

/// A device sampler.
#[derive(PartialEq, Eq, Debug, Copy, Clone, Structural)]
pub struct Sampler {
    pub handle: u64,
    /// Slot in the bindless sampler table, if bound.
    pub binding: Option<u32>,
}

/// A persistent buffer with the access it was last put to.
#[derive(PartialEq, Eq, Debug, Copy, Clone, Structural)]
pub struct BufferResource {
    pub buffer: Buffer,
    pub last_access: BufferResourceAccess,
}

/// A buffer resolved for one frame, with the access it was last put to.
#[derive(PartialEq, Eq, Debug, Copy, Clone, Structural)]
pub struct BufferTempResource {
    pub buffer: Buffer,
    pub last_access: BufferResourceAccess,
}

/// A persistent image with the access it was last put to.
#[derive(PartialEq, Eq, Debug, Copy, Clone, Structural)]
pub struct ImageResource {
    pub image: Image,
    pub last_usage: ImageResourceAccess,
}

/// An image resolved for one frame, with the access it was last put to.
#[derive(PartialEq, Eq, Debug, Copy, Clone, Structural)]
pub struct ImageTempResource {
    pub image: Image,
    pub last_usage: ImageResourceAccess,
}

/// What a slot of a persistent table holds.
#[derive(PartialEq, Eq, Debug, Copy, Clone, Structural)]
pub enum Resource {
    Buffer(BufferResource),
    Image(ImageResource),
    Sampler(Sampler),
    RasterPipeline(u64),
}

} // verus!
