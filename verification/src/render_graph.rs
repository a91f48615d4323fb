//! The resources and passes of one frame, as the executor takes them.

use crate::access::{BufferResourceAccess, ImageResourceAccess, Queue};
use crate::error::Error;
use crate::resource::{
    BufferDescription, BufferHandle, BufferKey, Extent2D, Image, ImageDescription2D, ImageHandle,
    ImageKey, MemoryType,
};
use crate::types::TextureFormat;
use vstd::prelude::*;

verus! {

/// Where a buffer of the graph comes from.
#[derive(Debug, Copy, Clone, PartialEq, Eq, Structural)]
pub enum BufferResourceDescription {
    /// An existing buffer owned by the caller.
    Persistent(BufferKey),
    /// A buffer made for this execution and dropped after it.
    Transient(BufferDescription),
}

/// A buffer of the graph.
#[derive(Debug, Copy, Clone, PartialEq, Eq, Structural)]
pub struct BufferGraphResource {
    pub description: BufferResourceDescription,
}

/// A factor by which an extent is scaled, as an exact fraction.
#[derive(Debug, Copy, Clone, PartialEq, Eq, Structural)]
pub struct Scale {
    pub numerator: u32,
    pub denominator: u32,
}

/// The size of a transient image: given outright, or as a fraction of the
/// size of another image.
#[derive(Debug, Copy, Clone)]
pub enum TransientImageSize {
    Exact(Extent2D),
    /// Horizontal and vertical scale, and the image they are relative to.
    Relative([Scale; 2], ImageHandle),
}

/// What a transient image is like.
#[derive(Debug, Copy, Clone)]
pub struct TransientImageDescription {
    pub size: TransientImageSize,
    pub format: TextureFormat,
    pub usage: u32,
    pub location: MemoryType,
}

/// Where an image of the graph comes from.
#[derive(Debug, Copy, Clone)]
pub enum ImageResourceDescription {
    /// An existing image owned by the caller.
    Persistent(ImageKey),
    /// An image made for this execution and dropped after it.
    Transient(TransientImageDescription),
    /// The swapchain image acquired for this frame, by its place in the list
    /// of acquired images.
    Swapchain(usize),
}

/// An image of the graph.
#[derive(Debug, Copy, Clone)]
pub struct ImageGraphResource {
    pub description: ImageResourceDescription,
}

/// A swapchain image that has been acquired for the frame.
#[derive(Debug, Copy, Clone, PartialEq, Eq, Structural)]
pub struct AcquiredSwapchainImage {
    pub image: Image,
    /// Index of the image within its swapchain.
    pub image_index: u32,
}

/// The device memory made for one transient resource.
#[derive(Debug, Copy, Clone, PartialEq, Eq, Structural)]
pub enum Allocation {
    /// None was asked for.
    Unused,
    /// The object was created; this is its raw handle.
    Created(u64),
    /// Creation failed.
    Failed(Error),
}

/// The allocation made for entry `index`, `Unused` beyond the end of the list.
pub open spec fn allocation_for(allocations: Seq<Allocation>, index: int) -> Allocation {
    if 0 <= index < allocations.len() {
        allocations[index]
    } else {
        Allocation::Unused
    }
}

/// Looks up the allocation made for entry `index`.
pub fn allocation_at(allocations: &[Allocation], index: usize) -> (a: Allocation)
    ensures
        a == allocation_for(allocations@, index as int),
{
    if index < allocations.len() {
        allocations[index]
    } else {
        Allocation::Unused
    }
}

impl Scale {
    /// `extent` scaled by this factor and rounded down, at most `u32::MAX`.
    /// A zero denominator stands for an unbounded factor: anything but zero
    /// scales to `u32::MAX`.
    pub open spec fn scaled(self, extent: u32) -> u32 {
        if self.denominator == 0 {
            if extent * self.numerator == 0 {
                0
            } else {
                u32::MAX
            }
        } else if (extent * self.numerator) / (self.denominator as int) > u32::MAX {
            u32::MAX
        } else {
            ((extent * self.numerator) / (self.denominator as int)) as u32
        }
    }

    /// Scales `extent` by this factor.
    pub fn apply(&self, extent: u32) -> (r: u32)
        ensures
            r == self.scaled(extent),
    {
        let product: u64 = {
            assert((extent as u64) * (self.numerator as u64) <= 0xffff_fffe_0000_0001) by (nonlinear_arith)
                requires
                    extent <= 0xffff_ffff,
                    self.numerator <= 0xffff_ffff,
            ;
            (extent as u64) * (self.numerator as u64)
        };
        if self.denominator == 0 {
            if product == 0 {
                0
            } else {
                u32::MAX
            }
        } else {
            let quotient: u64 = product / (self.denominator as u64);
            if quotient > 0xffff_ffff {
                u32::MAX
            } else {
                quotient as u32
            }
        }
    }

    /// The factor one.
    pub fn one() -> (s: Scale)
        ensures
            s == (Scale { numerator: 1, denominator: 1 }),
    {
        Scale { numerator: 1, denominator: 1 }
    }
}

impl TransientImageDescription {
    /// The description of the image to create once its size is known.
    pub fn to_image_description(&self, size: [u32; 2]) -> (d: ImageDescription2D)
        ensures
            d.size == size,
            d.format == self.format,
            d.usage == self.usage,
            d.location == self.location,
    {
        ImageDescription2D {
            size,
            format: self.format,
            usage: self.usage,
            location: self.location,
        }
    }
}

/// Scaling by one changes nothing, and scaling by a half halves, rounding
/// down.
pub proof fn lemma_scale_examples(extent: u32)
    ensures
        (Scale { numerator: 1, denominator: 1 }).scaled(extent) == extent,
        (Scale { numerator: 1, denominator: 2 }).scaled(extent) == extent / 2,
        (Scale { numerator: 0, denominator: 1 }).scaled(extent) == 0,
{
}

/// Names the recording callback of a pass. The callback itself is kept by the
/// caller and invoked once the pass's resources are resolved and its barrier
/// is recorded.
#[derive(Debug, Copy, Clone, PartialEq, Eq, Structural)]
pub struct RecordFn(pub u64);

/// The render targets of a raster pass. Clear values are carried as the bit
/// patterns of their single-precision components.
#[derive(Debug, Clone)]
pub struct Framebuffer {
    pub color_attachments: Vec<(ImageHandle, Option<[u32; 4]>)>,
    pub depth_stencil_attachment: Option<(ImageHandle, Option<(u32, u32)>)>,
    pub input_attachments: Vec<ImageHandle>,
}

/// One unit of recorded work with the accesses it declares. Each resource
/// is declared once: [`declare_buffer_usage`] and [`declare_image_usage`]
/// replace an earlier declaration, and a pass that still names a resource
/// twice is refused when the graph is executed.
#[derive(Debug, Clone)]
pub struct RenderPass {
    pub name: String,
    pub queue: Queue,
    pub buffer_usages: Vec<(BufferHandle, BufferResourceAccess)>,
    pub image_usages: Vec<(ImageHandle, ImageResourceAccess)>,
    pub framebuffer: Option<Framebuffer>,
    pub build_cmd_fn: Option<RecordFn>,
}

/// The declared work of one frame: resources and passes, in declared order.
#[derive(Debug, Clone)]
pub struct RenderGraph {
    pub buffers: Vec<BufferGraphResource>,
    pub images: Vec<ImageGraphResource>,
    pub passes: Vec<RenderPass>,
}

/// `index` is the first place at which `handle` is declared.
pub open spec fn is_first_buffer_usage(
    usages: Seq<(BufferHandle, BufferResourceAccess)>,
    handle: BufferHandle,
    index: int,
) -> bool {
    &&& 0 <= index < usages.len()
    &&& usages[index].0 == handle
    &&& forall|j: int| 0 <= j < index ==> (#[trigger] usages[j]).0 != handle
}

/// The first place at which `handle` is declared, if it is declared.
pub open spec fn buffer_usage_index(
    usages: Seq<(BufferHandle, BufferResourceAccess)>,
    handle: BufferHandle,
) -> Option<int> {
    if exists|i: int| is_first_buffer_usage(usages, handle, i) {
        Some(choose|i: int| is_first_buffer_usage(usages, handle, i))
    } else {
        None
    }
}

/// No buffer is declared twice.
pub open spec fn buffer_usages_unique(usages: Seq<(BufferHandle, BufferResourceAccess)>) -> bool {
    forall|i: int, j: int|
        0 <= i < j < usages.len() ==> (#[trigger] usages[i]).0 != (#[trigger] usages[j]).0
}

/// The declared usages after `handle` is declared with `access`: an earlier
/// declaration of the same buffer is replaced, in its place; a new one is
/// appended.
pub open spec fn with_buffer_usage(
    usages: Seq<(BufferHandle, BufferResourceAccess)>,
    handle: BufferHandle,
    access: BufferResourceAccess,
) -> Seq<(BufferHandle, BufferResourceAccess)> {
    match buffer_usage_index(usages, handle) {
        Some(i) => usages.update(i, (handle, access)),
        None => usages.push((handle, access)),
    }
}

/// A first place of declaration is the only one, and there is none where the
/// handle occurs nowhere.
pub proof fn lemma_buffer_usage_index(
    usages: Seq<(BufferHandle, BufferResourceAccess)>,
    handle: BufferHandle,
    index: int,
)
    ensures
        is_first_buffer_usage(usages, handle, index) ==> buffer_usage_index(usages, handle) == Some(
            index,
        ),
        (forall|j: int| 0 <= j < usages.len() ==> (#[trigger] usages[j]).0 != handle)
            ==> buffer_usage_index(usages, handle) is None,
{
}

/// `index` is the first place at which `handle` is declared.
pub open spec fn is_first_image_usage(
    usages: Seq<(ImageHandle, ImageResourceAccess)>,
    handle: ImageHandle,
    index: int,
) -> bool {
    &&& 0 <= index < usages.len()
    &&& usages[index].0 == handle
    &&& forall|j: int| 0 <= j < index ==> (#[trigger] usages[j]).0 != handle
}

/// The first place at which `handle` is declared, if it is declared.
pub open spec fn image_usage_index(
    usages: Seq<(ImageHandle, ImageResourceAccess)>,
    handle: ImageHandle,
) -> Option<int> {
    if exists|i: int| is_first_image_usage(usages, handle, i) {
        Some(choose|i: int| is_first_image_usage(usages, handle, i))
    } else {
        None
    }
}

/// No image is declared twice.
pub open spec fn image_usages_unique(usages: Seq<(ImageHandle, ImageResourceAccess)>) -> bool {
    forall|i: int, j: int|
        0 <= i < j < usages.len() ==> (#[trigger] usages[i]).0 != (#[trigger] usages[j]).0
}

/// The declared usages after `handle` is declared with `access`: an earlier
/// declaration of the same image is replaced, in its place; a new one is
/// appended.
pub open spec fn with_image_usage(
    usages: Seq<(ImageHandle, ImageResourceAccess)>,
    handle: ImageHandle,
    access: ImageResourceAccess,
) -> Seq<(ImageHandle, ImageResourceAccess)> {
    match image_usage_index(usages, handle) {
        Some(i) => usages.update(i, (handle, access)),
        None => usages.push((handle, access)),
    }
}

/// A first place of declaration is the only one, and there is none where the
/// handle occurs nowhere.
pub proof fn lemma_image_usage_index(
    usages: Seq<(ImageHandle, ImageResourceAccess)>,
    handle: ImageHandle,
    index: int,
)
    ensures
        is_first_image_usage(usages, handle, index) ==> image_usage_index(usages, handle) == Some(
            index,
        ),
        (forall|j: int| 0 <= j < usages.len() ==> (#[trigger] usages[j]).0 != handle)
            ==> image_usage_index(usages, handle) is None,
{
}

/// Declares that `handle` is put to `access`, replacing an earlier
/// declaration of the same buffer. A list without repetitions stays so.
pub fn declare_buffer_usage(
    usages: &mut Vec<(BufferHandle, BufferResourceAccess)>,
    handle: BufferHandle,
    access: BufferResourceAccess,
)
    ensures
        final(usages)@ == with_buffer_usage(old(usages)@, handle, access),
        buffer_usages_unique(old(usages)@) ==> buffer_usages_unique(final(usages)@),
{
    let mut i: usize = 0;
    while i < usages.len()
        invariant
            i <= usages.len(),
            usages@ == old(usages)@,
            forall|j: int| 0 <= j < i ==> (#[trigger] usages@[j]).0 != handle,
        decreases usages.len() - i,
    {
        if usages[i].0 == handle {
            proof {
                lemma_buffer_usage_index(usages@, handle, i as int);
            }
            usages[i] = (handle, access);
            return ;
        }
        i += 1;
    }
    proof {
        lemma_buffer_usage_index(usages@, handle, 0);
    }
    usages.push((handle, access));
}

/// Declares that `handle` is put to `access`, replacing an earlier
/// declaration of the same image. A list without repetitions stays so.
pub fn declare_image_usage(
    usages: &mut Vec<(ImageHandle, ImageResourceAccess)>,
    handle: ImageHandle,
    access: ImageResourceAccess,
)
    ensures
        final(usages)@ == with_image_usage(old(usages)@, handle, access),
        image_usages_unique(old(usages)@) ==> image_usages_unique(final(usages)@),
{
    let mut i: usize = 0;
    while i < usages.len()
        invariant
            i <= usages.len(),
            usages@ == old(usages)@,
            forall|j: int| 0 <= j < i ==> (#[trigger] usages@[j]).0 != handle,
        decreases usages.len() - i,
    {
        if usages[i].0 == handle {
            proof {
                lemma_image_usage_index(usages@, handle, i as int);
            }
            usages[i] = (handle, access);
            return ;
        }
        i += 1;
    }
    proof {
        lemma_image_usage_index(usages@, handle, 0);
    }
    usages.push((handle, access));
}

impl RenderPass {
    /// A pass of the given name on the graphics queue that declares nothing.
    pub fn new(name: &str) -> (pass: RenderPass)
        ensures
            pass.name@ == name@,
            pass.queue == Queue::Graphics,
            pass.buffer_usages@.len() == 0,
            pass.image_usages@.len() == 0,
            pass.framebuffer is None,
            pass.build_cmd_fn is None,
    {
        RenderPass {
            name: name.to_owned(),
            queue: Queue::Graphics,
            buffer_usages: Vec::new(),
            image_usages: Vec::new(),
            framebuffer: None,
            build_cmd_fn: None,
        }
    }

    /// No resource is declared twice.
    pub open spec fn usages_unique(&self) -> bool {
        buffer_usages_unique(self.buffer_usages@) && image_usages_unique(self.image_usages@)
    }
}

} // verus!
