//! The declarative surface on which a frame is described: transient
//! resources, the swapchain image, and passes with the accesses they make.
//!
//! Everything declared here is lowered at once to the form the executor
//! takes: resources become entries of the graph, and each declared access
//! becomes one usage of the pass, a later declaration of the same resource
//! replacing an earlier one.

use crate::access::{BufferResourceAccess, ImageResourceAccess, Queue};
use crate::flags::{
    bits_if, select_bits, BUFFER_USAGE_INDEX_BUFFER, BUFFER_USAGE_INDIRECT_BUFFER,
    BUFFER_USAGE_STORAGE_BUFFER, BUFFER_USAGE_TRANSFER_DST, BUFFER_USAGE_UNIFORM_BUFFER,
    BUFFER_USAGE_VERTEX_BUFFER, IMAGE_USAGE_COLOR_ATTACHMENT,
    IMAGE_USAGE_DEPTH_STENCIL_ATTACHMENT, IMAGE_USAGE_SAMPLED, IMAGE_USAGE_STORAGE,
    IMAGE_USAGE_TRANSFER_DST, IMAGE_USAGE_TRANSFER_SRC,
};
use crate::render_graph::{
    declare_buffer_usage, declare_image_usage, with_buffer_usage, with_image_usage,
    BufferGraphResource, BufferResourceDescription, Framebuffer, ImageGraphResource,
    ImageResourceDescription, RecordFn, RenderGraph, RenderPass, TransientImageDescription,
    TransientImageSize,
};
use crate::resource::{
    BufferDescription, BufferHandle, BufferKey, Extent2D, ImageHandle, ImageKey, MemoryType,
};
use crate::types::{
    BufferUsage, ColorAttachment, DepthStencilAttachment, ShaderResourceAccess, TextureFormat,
    TextureGraphResource, TextureUsage,
};
use vstd::prelude::*;

verus! {

/// The device usage bits of a buffer declared with `usage`: a destination of
/// transfers always, and each further bit as declared.
pub open spec fn buffer_usage_bits(usage: BufferUsage) -> u32 {
    BUFFER_USAGE_TRANSFER_DST | bits_if(usage.has(BufferUsage::VERTEX), BUFFER_USAGE_VERTEX_BUFFER)
        | bits_if(usage.has(BufferUsage::INDEX), BUFFER_USAGE_INDEX_BUFFER) | bits_if(
        usage.has(BufferUsage::UNIFORM),
        BUFFER_USAGE_UNIFORM_BUFFER,
    ) | bits_if(usage.has(BufferUsage::STORAGE), BUFFER_USAGE_STORAGE_BUFFER) | bits_if(
        usage.has(BufferUsage::INDIRECT),
        BUFFER_USAGE_INDIRECT_BUFFER,
    )
}

/// Lowers the declared usage of a buffer to device usage bits.
pub fn lower_buffer_usage(usage: BufferUsage) -> (bits: u32)
    ensures
        bits == buffer_usage_bits(usage),
{
    BUFFER_USAGE_TRANSFER_DST | select_bits(
        usage.contains(BufferUsage::VERTEX),
        BUFFER_USAGE_VERTEX_BUFFER,
    ) | select_bits(usage.contains(BufferUsage::INDEX), BUFFER_USAGE_INDEX_BUFFER) | select_bits(
        usage.contains(BufferUsage::UNIFORM),
        BUFFER_USAGE_UNIFORM_BUFFER,
    ) | select_bits(usage.contains(BufferUsage::STORAGE), BUFFER_USAGE_STORAGE_BUFFER)
        | select_bits(usage.contains(BufferUsage::INDIRECT), BUFFER_USAGE_INDIRECT_BUFFER)
}

/// The device usage bits of a texture declared with `usage`: a source and a
/// destination of transfers always; sampled and storage as declared; and, if
/// it is an attachment, a colour or a depth/stencil attachment as its format
/// says.
pub open spec fn texture_usage_bits(usage: TextureUsage, format: TextureFormat) -> u32 {
    IMAGE_USAGE_TRANSFER_SRC | IMAGE_USAGE_TRANSFER_DST | bits_if(
        usage.has(TextureUsage::SAMPLED),
        IMAGE_USAGE_SAMPLED,
    ) | bits_if(usage.has(TextureUsage::STORAGE), IMAGE_USAGE_STORAGE) | bits_if(
        usage.has(TextureUsage::ATTACHMENT),
        if format.depth_stencil() {
            IMAGE_USAGE_DEPTH_STENCIL_ATTACHMENT
        } else {
            IMAGE_USAGE_COLOR_ATTACHMENT
        },
    )
}

/// Lowers the declared usage of a texture to device usage bits.
pub fn lower_texture_usage(usage: TextureUsage, format: TextureFormat) -> (bits: u32)
    ensures
        bits == texture_usage_bits(usage, format),
{
    let attachment = if format.is_depth_stencil() {
        IMAGE_USAGE_DEPTH_STENCIL_ATTACHMENT
    } else {
        IMAGE_USAGE_COLOR_ATTACHMENT
    };
    IMAGE_USAGE_TRANSFER_SRC | IMAGE_USAGE_TRANSFER_DST | select_bits(
        usage.contains(TextureUsage::SAMPLED),
        IMAGE_USAGE_SAMPLED,
    ) | select_bits(usage.contains(TextureUsage::STORAGE), IMAGE_USAGE_STORAGE) | select_bits(
        usage.contains(TextureUsage::ATTACHMENT),
        attachment,
    )
}

/// The buffer usage behind a declared shader access, if it is one of a
/// buffer.
pub open spec fn shader_buffer_usage(access: ShaderResourceAccess) -> Option<
    (BufferHandle, BufferResourceAccess),
> {
    match access {
        ShaderResourceAccess::BufferUniformRead(b) => Some(
            (BufferHandle::Transient(b.0), BufferResourceAccess::UniformRead),
        ),
        ShaderResourceAccess::BufferStorageRead(b) => Some(
            (BufferHandle::Transient(b.0), BufferResourceAccess::StorageRead),
        ),
        ShaderResourceAccess::BufferStorageWrite(b) => Some(
            (BufferHandle::Transient(b.0), BufferResourceAccess::StorageWrite),
        ),
        _ => None,
    }
}

/// The image usage behind a declared shader access, if it is one of a
/// texture.
pub open spec fn shader_image_usage(access: ShaderResourceAccess) -> Option<
    (ImageHandle, ImageResourceAccess),
> {
    match access {
        ShaderResourceAccess::TextureSampleRead(t) => Some(
            (ImageHandle::Transient(t.0), ImageResourceAccess::SampledRead),
        ),
        ShaderResourceAccess::TextureStorageRead(t) => Some(
            (ImageHandle::Transient(t.0), ImageResourceAccess::StorageRead),
        ),
        ShaderResourceAccess::TextureStorageWrite(t) => Some(
            (ImageHandle::Transient(t.0), ImageResourceAccess::StorageWrite),
        ),
        _ => None,
    }
}

/// The image usages after the first `count` colour attachments have each
/// been declared as written.
pub open spec fn with_color_attachments(
    usages: Seq<(ImageHandle, ImageResourceAccess)>,
    attachments: Seq<ColorAttachment>,
    count: nat,
) -> Seq<(ImageHandle, ImageResourceAccess)>
    decreases count,
{
    if count == 0 || count > attachments.len() {
        usages
    } else {
        with_image_usage(
            with_color_attachments(usages, attachments, (count - 1) as nat),
            ImageHandle::Transient(attachments[count - 1].texture.0),
            ImageResourceAccess::AttachmentWrite,
        )
    }
}

/// The colour targets of a framebuffer made from attachments.
pub open spec fn color_targets(attachments: Seq<ColorAttachment>) -> Seq<
    (ImageHandle, Option<[u32; 4]>),
> {
    Seq::new(
        attachments.len(),
        |i: int| (ImageHandle::Transient(attachments[i].texture.0), attachments[i].clear),
    )
}

/// A raster pass under construction.
pub struct RasterPassBuilder {
    pub pass: RenderPass,
}

impl RasterPassBuilder {
    /// A raster pass of the given name that declares nothing yet.
    pub fn new(name: &str) -> (builder: RasterPassBuilder)
        ensures
            builder.pass.name@ == name@,
            builder.pass.queue == Queue::Graphics,
            builder.pass.buffer_usages@.len() == 0,
            builder.pass.image_usages@.len() == 0,
            builder.pass.framebuffer is None,
            builder.pass.build_cmd_fn is None,
    {
        RasterPassBuilder { pass: RenderPass::new(name) }
    }

    /// Sets the render targets. Every target is declared as written as an
    /// attachment: the colour targets in order, then the depth/stencil
    /// target.
    pub fn attachments(
        self,
        color_attachments: &[ColorAttachment],
        depth_stencil_attachment: Option<DepthStencilAttachment>,
    ) -> (builder: RasterPassBuilder)
        ensures
            builder.pass.name == self.pass.name,
            builder.pass.queue == self.pass.queue,
            builder.pass.buffer_usages == self.pass.buffer_usages,
            builder.pass.build_cmd_fn == self.pass.build_cmd_fn,
            builder.pass.image_usages@ == (match depth_stencil_attachment {
                Some(depth) => with_image_usage(
                    with_color_attachments(
                        self.pass.image_usages@,
                        color_attachments@,
                        color_attachments@.len(),
                    ),
                    ImageHandle::Transient(depth.texture.0),
                    ImageResourceAccess::AttachmentWrite,
                ),
                None => with_color_attachments(
                    self.pass.image_usages@,
                    color_attachments@,
                    color_attachments@.len(),
                ),
            }),
            builder.pass.framebuffer matches Some(framebuffer) && framebuffer.color_attachments@
                == color_targets(color_attachments@) && framebuffer.depth_stencil_attachment == (
            match depth_stencil_attachment {
                Some(depth) => Some((ImageHandle::Transient(depth.texture.0), depth.clear)),
                None => None,
            }) && framebuffer.input_attachments@.len() == 0,
    {
        let mut builder = self;
        let mut targets: Vec<(ImageHandle, Option<[u32; 4]>)> = Vec::new();
        let mut i: usize = 0;
        while i < color_attachments.len()
            invariant
                i <= color_attachments.len(),
                builder.pass.name == self.pass.name,
                builder.pass.queue == self.pass.queue,
                builder.pass.buffer_usages == self.pass.buffer_usages,
                builder.pass.build_cmd_fn == self.pass.build_cmd_fn,
                builder.pass.image_usages@ == with_color_attachments(
                    self.pass.image_usages@,
                    color_attachments@,
                    i as nat,
                ),
                targets@.len() == i,
                forall|j: int|
                    0 <= j < i ==> #[trigger] targets@[j] == (
                        ImageHandle::Transient(color_attachments@[j].texture.0),
                        color_attachments@[j].clear,
                    ),
            decreases color_attachments.len() - i,
        {
            let handle = ImageHandle::Transient(color_attachments[i].texture.0);
            declare_image_usage(
                &mut builder.pass.image_usages,
                handle,
                ImageResourceAccess::AttachmentWrite,
            );
            targets.push((handle, color_attachments[i].clear));
            i += 1;
        }
        let depth_target = match depth_stencil_attachment {
            Some(depth) => {
                let handle = ImageHandle::Transient(depth.texture.0);
                declare_image_usage(
                    &mut builder.pass.image_usages,
                    handle,
                    ImageResourceAccess::AttachmentWrite,
                );
                Some((handle, depth.clear))
            },
            None => None,
        };
        builder.pass.framebuffer = Some(
            Framebuffer {
                color_attachments: targets,
                depth_stencil_attachment: depth_target,
                input_attachments: Vec::new(),
            },
        );
        builder
    }

    /// Declares that the pass reads vertices from `buffer`.
    pub fn vertex_buffer(self, buffer: crate::types::BufferGraphResource) -> (builder:
        RasterPassBuilder)
        ensures
            builder.pass.name == self.pass.name,
            builder.pass.queue == self.pass.queue,
            builder.pass.image_usages == self.pass.image_usages,
            builder.pass.framebuffer == self.pass.framebuffer,
            builder.pass.build_cmd_fn == self.pass.build_cmd_fn,
            builder.pass.buffer_usages@ == with_buffer_usage(
                self.pass.buffer_usages@,
                BufferHandle::Transient(buffer.0),
                BufferResourceAccess::VertexRead,
            ),
    {
        let mut builder = self;
        declare_buffer_usage(
            &mut builder.pass.buffer_usages,
            BufferHandle::Transient(buffer.0),
            BufferResourceAccess::VertexRead,
        );
        builder
    }

    /// Declares that the pass reads indices from `buffer`.
    pub fn index_buffer(self, buffer: crate::types::BufferGraphResource) -> (builder:
        RasterPassBuilder)
        ensures
            builder.pass.name == self.pass.name,
            builder.pass.queue == self.pass.queue,
            builder.pass.image_usages == self.pass.image_usages,
            builder.pass.framebuffer == self.pass.framebuffer,
            builder.pass.build_cmd_fn == self.pass.build_cmd_fn,
            builder.pass.buffer_usages@ == with_buffer_usage(
                self.pass.buffer_usages@,
                BufferHandle::Transient(buffer.0),
                BufferResourceAccess::IndexRead,
            ),
    {
        let mut builder = self;
        declare_buffer_usage(
            &mut builder.pass.buffer_usages,
            BufferHandle::Transient(buffer.0),
            BufferResourceAccess::IndexRead,
        );
        builder
    }

    /// Declares one access that the shaders of the pass make.
    pub fn shader_access(self, access: ShaderResourceAccess) -> (builder: RasterPassBuilder)
        ensures
            builder.pass.name == self.pass.name,
            builder.pass.queue == self.pass.queue,
            builder.pass.framebuffer == self.pass.framebuffer,
            builder.pass.build_cmd_fn == self.pass.build_cmd_fn,
            builder.pass.buffer_usages@ == (match shader_buffer_usage(access) {
                Some((handle, usage)) => with_buffer_usage(self.pass.buffer_usages@, handle, usage),
                None => self.pass.buffer_usages@,
            }),
            builder.pass.image_usages@ == (match shader_image_usage(access) {
                Some((handle, usage)) => with_image_usage(self.pass.image_usages@, handle, usage),
                None => self.pass.image_usages@,
            }),
    {
        let mut builder = self;
        declare_shader_access(&mut builder.pass, access);
        builder
    }

    /// Names the callback that records the pass.
    pub fn raster_fn(self, record: RecordFn) -> (builder: RasterPassBuilder)
        ensures
            builder.pass.name == self.pass.name,
            builder.pass.queue == self.pass.queue,
            builder.pass.buffer_usages == self.pass.buffer_usages,
            builder.pass.image_usages == self.pass.image_usages,
            builder.pass.framebuffer == self.pass.framebuffer,
            builder.pass.build_cmd_fn == Some(record),
    {
        let mut builder = self;
        builder.pass.build_cmd_fn = Some(record);
        builder
    }
}

/// Declares one shader access on a pass.
pub fn declare_shader_access(pass: &mut RenderPass, access: ShaderResourceAccess)
    ensures
        final(pass).name == old(pass).name,
        final(pass).queue == old(pass).queue,
        final(pass).framebuffer == old(pass).framebuffer,
        final(pass).build_cmd_fn == old(pass).build_cmd_fn,
        final(pass).buffer_usages@ == (match shader_buffer_usage(access) {
            Some((handle, usage)) => with_buffer_usage(old(pass).buffer_usages@, handle, usage),
            None => old(pass).buffer_usages@,
        }),
        final(pass).image_usages@ == (match shader_image_usage(access) {
            Some((handle, usage)) => with_image_usage(old(pass).image_usages@, handle, usage),
            None => old(pass).image_usages@,
        }),
{
    match access {
        ShaderResourceAccess::BufferUniformRead(b) => declare_buffer_usage(
            &mut pass.buffer_usages,
            BufferHandle::Transient(b.0),
            BufferResourceAccess::UniformRead,
        ),
        ShaderResourceAccess::BufferStorageRead(b) => declare_buffer_usage(
            &mut pass.buffer_usages,
            BufferHandle::Transient(b.0),
            BufferResourceAccess::StorageRead,
        ),
        ShaderResourceAccess::BufferStorageWrite(b) => declare_buffer_usage(
            &mut pass.buffer_usages,
            BufferHandle::Transient(b.0),
            BufferResourceAccess::StorageWrite,
        ),
        ShaderResourceAccess::TextureSampleRead(t) => declare_image_usage(
            &mut pass.image_usages,
            ImageHandle::Transient(t.0),
            ImageResourceAccess::SampledRead,
        ),
        ShaderResourceAccess::TextureStorageRead(t) => declare_image_usage(
            &mut pass.image_usages,
            ImageHandle::Transient(t.0),
            ImageResourceAccess::StorageRead,
        ),
        ShaderResourceAccess::TextureStorageWrite(t) => declare_image_usage(
            &mut pass.image_usages,
            ImageHandle::Transient(t.0),
            ImageResourceAccess::StorageWrite,
        ),
    }
}

/// A compute pass under construction.
pub struct ComputePassBuilder {
    pub pass: RenderPass,
}

impl ComputePassBuilder {
    /// A compute pass of the given name that declares nothing yet.
    pub fn new(name: &str) -> (builder: ComputePassBuilder)
        ensures
            builder.pass.name@ == name@,
            builder.pass.queue == Queue::Graphics,
            builder.pass.buffer_usages@.len() == 0,
            builder.pass.image_usages@.len() == 0,
            builder.pass.framebuffer is None,
            builder.pass.build_cmd_fn is None,
    {
        ComputePassBuilder { pass: RenderPass::new(name) }
    }

    /// Declares one access that the shader of the pass makes.
    pub fn shader_access(self, access: ShaderResourceAccess) -> (builder: ComputePassBuilder)
        ensures
            builder.pass.name == self.pass.name,
            builder.pass.queue == self.pass.queue,
            builder.pass.framebuffer == self.pass.framebuffer,
            builder.pass.build_cmd_fn == self.pass.build_cmd_fn,
            builder.pass.buffer_usages@ == (match shader_buffer_usage(access) {
                Some((handle, usage)) => with_buffer_usage(self.pass.buffer_usages@, handle, usage),
                None => self.pass.buffer_usages@,
            }),
            builder.pass.image_usages@ == (match shader_image_usage(access) {
                Some((handle, usage)) => with_image_usage(self.pass.image_usages@, handle, usage),
                None => self.pass.image_usages@,
            }),
    {
        let mut builder = self;
        declare_shader_access(&mut builder.pass, access);
        builder
    }

    /// Declares that the dispatch reads its size from `buffer`.
    pub fn indirect_buffer(self, buffer: crate::types::BufferGraphResource) -> (builder:
        ComputePassBuilder)
        ensures
            builder.pass.name == self.pass.name,
            builder.pass.queue == self.pass.queue,
            builder.pass.image_usages == self.pass.image_usages,
            builder.pass.framebuffer == self.pass.framebuffer,
            builder.pass.build_cmd_fn == self.pass.build_cmd_fn,
            builder.pass.buffer_usages@ == with_buffer_usage(
                self.pass.buffer_usages@,
                BufferHandle::Transient(buffer.0),
                BufferResourceAccess::IndirectRead,
            ),
    {
        let mut builder = self;
        declare_buffer_usage(
            &mut builder.pass.buffer_usages,
            BufferHandle::Transient(buffer.0),
            BufferResourceAccess::IndirectRead,
        );
        builder
    }

    /// Names the callback that records the pass.
    pub fn compute_fn(self, record: RecordFn) -> (builder: ComputePassBuilder)
        ensures
            builder.pass.name == self.pass.name,
            builder.pass.queue == self.pass.queue,
            builder.pass.buffer_usages == self.pass.buffer_usages,
            builder.pass.image_usages == self.pass.image_usages,
            builder.pass.framebuffer == self.pass.framebuffer,
            builder.pass.build_cmd_fn == Some(record),
    {
        let mut builder = self;
        builder.pass.build_cmd_fn = Some(record);
        builder
    }
}

/// A graph under construction, as mathematical values.
pub struct BuilderState {
    pub buffers: Seq<BufferGraphResource>,
    pub images: Seq<ImageGraphResource>,
    pub passes: Seq<RenderPass>,
    /// Extent of the swapchain that the frame presents to.
    pub swapchain_size: [u32; 2],
    /// Index of the swapchain image in the graph, once it has been asked for.
    pub swapchain_image: Option<usize>,
}

/// What the graph holds for a buffer declared with `description`.
pub open spec fn declared_buffer(description: crate::types::BufferDescription) -> BufferGraphResource {
    BufferGraphResource {
        description: BufferResourceDescription::Transient(
            BufferDescription {
                size: description.size,
                usage: buffer_usage_bits(description.usage),
                location: MemoryType::GpuOnly,
            },
        ),
    }
}

/// What the graph holds for a texture declared with `description`.
pub open spec fn declared_texture(description: crate::types::TextureDescription) -> ImageGraphResource {
    ImageGraphResource {
        description: ImageResourceDescription::Transient(
            TransientImageDescription {
                size: TransientImageSize::Exact(
                    Extent2D { width: description.size[0], height: description.size[1] },
                ),
                format: description.format,
                usage: texture_usage_bits(description.usage, description.format),
                location: MemoryType::GpuOnly,
            },
        ),
    }
}

impl BuilderState {
    /// The state after a buffer has been declared.
    pub open spec fn with_buffer(self, description: crate::types::BufferDescription) -> BuilderState {
        BuilderState { buffers: self.buffers.push(declared_buffer(description)), ..self }
    }

    /// The state after a texture has been declared.
    pub open spec fn with_texture(self, description: crate::types::TextureDescription) -> BuilderState {
        BuilderState { images: self.images.push(declared_texture(description)), ..self }
    }

    /// The state after the swapchain image has been asked for: the first
    /// time it becomes an image of the graph, after that nothing changes.
    pub open spec fn with_swapchain_image(self) -> BuilderState {
        match self.swapchain_image {
            Some(_) => self,
            None => BuilderState {
                images: self.images.push(
                    ImageGraphResource { description: ImageResourceDescription::Swapchain(0) },
                ),
                swapchain_image: Some(self.images.len() as usize),
                ..self
            },
        }
    }

    /// The index of the swapchain image once it has been asked for.
    pub open spec fn swapchain_index(self) -> usize {
        match self.swapchain_image {
            Some(index) => index,
            None => self.images.len() as usize,
        }
    }

    /// The swapchain image, once asked for, is an image of the graph.
    pub open spec fn wf(self) -> bool {
        self.swapchain_image matches Some(index) ==> index < self.images.len()
    }

    /// The state after a pass has been added.
    pub open spec fn with_pass(self, pass: RenderPass) -> BuilderState {
        BuilderState { passes: self.passes.push(pass), ..self }
    }
}

/// Builds the graph of a frame.
pub struct RenderGraphBuilder {
    graph: RenderGraph,
    swapchain_size: [u32; 2],
    swapchain_image: Option<usize>,
}

impl View for RenderGraphBuilder {
    type V = BuilderState;

    closed spec fn view(&self) -> BuilderState {
        BuilderState {
            buffers: self.graph.buffers@,
            images: self.graph.images@,
            passes: self.graph.passes@,
            swapchain_size: self.swapchain_size,
            swapchain_image: self.swapchain_image,
        }
    }
}

impl RenderGraphBuilder {
    /// A builder for a frame that presents to a swapchain of the given
    /// extent.
    pub fn new(swapchain_size: [u32; 2]) -> (builder: RenderGraphBuilder)
        ensures
            builder@.wf(),
            builder@.buffers.len() == 0,
            builder@.images.len() == 0,
            builder@.passes.len() == 0,
            builder@.swapchain_size == swapchain_size,
            builder@.swapchain_image is None,
    {
        RenderGraphBuilder {
            graph: RenderGraph { buffers: Vec::new(), images: Vec::new(), passes: Vec::new() },
            swapchain_size,
            swapchain_image: None,
        }
    }

    /// Declares a transient buffer and returns its handle.
    pub fn create_buffer(&mut self, description: crate::types::BufferDescription) -> (handle:
        crate::types::BufferGraphResource)
        requires
            old(self)@.wf(),
        ensures
            final(self)@.wf(),
            final(self)@ == old(self)@.with_buffer(description),
            handle.0 == old(self)@.buffers.len(),
    {
        let index = self.graph.buffers.len();
        self.graph.buffers.push(
            BufferGraphResource {
                description: BufferResourceDescription::Transient(
                    BufferDescription {
                        size: description.size,
                        usage: lower_buffer_usage(description.usage),
                        location: MemoryType::GpuOnly,
                    },
                ),
            },
        );
        crate::types::BufferGraphResource(index)
    }

    /// Brings a persistent buffer into the graph and returns its handle.
    pub fn import_buffer(&mut self, key: BufferKey) -> (handle: crate::types::BufferGraphResource)
        requires
            old(self)@.wf(),
        ensures
            final(self)@.wf(),
            final(self)@ == (BuilderState {
                buffers: old(self)@.buffers.push(
                    BufferGraphResource { description: BufferResourceDescription::Persistent(key) },
                ),
                ..old(self)@
            }),
            handle.0 == old(self)@.buffers.len(),
    {
        let index = self.graph.buffers.len();
        self.graph.buffers.push(
            BufferGraphResource { description: BufferResourceDescription::Persistent(key) },
        );
        crate::types::BufferGraphResource(index)
    }

    /// Declares a transient texture and returns its handle.
    pub fn create_texture(&mut self, description: crate::types::TextureDescription) -> (handle:
        TextureGraphResource)
        requires
            old(self)@.wf(),
        ensures
            final(self)@.wf(),
            final(self)@ == old(self)@.with_texture(description),
            handle.0 == old(self)@.images.len(),
    {
        let index = self.graph.images.len();
        self.graph.images.push(
            ImageGraphResource {
                description: ImageResourceDescription::Transient(
                    TransientImageDescription {
                        size: TransientImageSize::Exact(
                            Extent2D { width: description.size[0], height: description.size[1] },
                        ),
                        format: description.format,
                        usage: lower_texture_usage(description.usage, description.format),
                        location: MemoryType::GpuOnly,
                    },
                ),
            },
        );
        TextureGraphResource(index)
    }

    /// Brings a persistent image into the graph and returns its handle.
    pub fn import_texture(&mut self, key: ImageKey) -> (handle: TextureGraphResource)
        requires
            old(self)@.wf(),
        ensures
            final(self)@.wf(),
            final(self)@ == (BuilderState {
                images: old(self)@.images.push(
                    ImageGraphResource { description: ImageResourceDescription::Persistent(key) },
                ),
                ..old(self)@
            }),
            handle.0 == old(self)@.images.len(),
    {
        let index = self.graph.images.len();
        self.graph.images.push(
            ImageGraphResource { description: ImageResourceDescription::Persistent(key) },
        );
        TextureGraphResource(index)
    }

    /// The swapchain image of the frame, with its extent. The image becomes
    /// part of the graph when it is first asked for.
    pub fn get_swapchain_image(&mut self) -> (r: (TextureGraphResource, [u32; 2]))
        requires
            old(self)@.wf(),
        ensures
            final(self)@.wf(),
            final(self)@ == old(self)@.with_swapchain_image(),
            r.0.0 == old(self)@.swapchain_index(),
            r.1 == old(self)@.swapchain_size,
    {
        match self.swapchain_image {
            Some(index) => (TextureGraphResource(index), self.swapchain_size),
            None => {
                let index = self.graph.images.len();
                self.graph.images.push(
                    ImageGraphResource { description: ImageResourceDescription::Swapchain(0) },
                );
                self.swapchain_image = Some(index);
                (TextureGraphResource(index), self.swapchain_size)
            },
        }
    }

    /// Adds a raster pass after the passes added so far.
    pub fn add_raster_pass(&mut self, pass: RasterPassBuilder)
        requires
            old(self)@.wf(),
        ensures
            final(self)@.wf(),
            final(self)@ == old(self)@.with_pass(pass.pass),
    {
        self.graph.passes.push(pass.pass);
    }

    /// Adds a compute pass after the passes added so far.
    pub fn add_compute_pass(&mut self, pass: ComputePassBuilder)
        requires
            old(self)@.wf(),
        ensures
            final(self)@.wf(),
            final(self)@ == old(self)@.with_pass(pass.pass),
    {
        self.graph.passes.push(pass.pass);
    }

    /// The graph as declared: resources and passes in the order in which
    /// they were declared.
    pub fn build(self) -> (graph: RenderGraph)
        ensures
            graph.buffers@ == self@.buffers,
            graph.images@ == self@.images,
            graph.passes@ == self@.passes,
    {
        self.graph
    }
}

/// Bit pattern of the single-precision value 1.0.
pub const ONE: u32 = 0x3f80_0000;

/// Bit pattern of the single-precision value 0.5.
pub const HALF: u32 = 0x3f00_0000;

/// Bit pattern of the single-precision value 0.25.
pub const QUARTER: u32 = 0x3e80_0000;

/// The buffer that [`render_graph_test`] declares.
pub open spec fn test_buffer() -> crate::types::BufferDescription {
    crate::types::BufferDescription { size: 16, usage: BufferUsage { bits: BufferUsage::STORAGE } }
}

/// Declares a small frame: a storage buffer of 16 bytes, the swapchain
/// image, and a depth texture of the swapchain's extent; and one raster pass,
/// "Test", that writes the buffer as shader storage and draws to the
/// swapchain image and the depth texture, clearing both.
pub fn render_graph_test(render_graph: &mut RenderGraphBuilder)
    requires
        old(render_graph)@.wf(),
    ensures
        final(render_graph)@.wf(),
        final(render_graph)@.buffers == old(render_graph)@.buffers.push(
            declared_buffer(test_buffer()),
        ),
        final(render_graph)@.images == old(render_graph)@.with_swapchain_image().images.push(
            declared_texture(
                crate::types::TextureDescription {
                    size: old(render_graph)@.swapchain_size,
                    format: TextureFormat::D32Float,
                    usage: TextureUsage { bits: TextureUsage::ATTACHMENT },
                    sampler: None,
                },
            ),
        ),
        final(render_graph)@.swapchain_size == old(render_graph)@.swapchain_size,
        final(render_graph)@.swapchain_image == Some(old(render_graph)@.swapchain_index()),
        final(render_graph)@.passes.len() == old(render_graph)@.passes.len() + 1,
        final(render_graph)@.passes.drop_last() == old(render_graph)@.passes,
        ({
            let pass = final(render_graph)@.passes.last();
            let buffer = BufferHandle::Transient(old(render_graph)@.buffers.len() as usize);
            let color = ImageHandle::Transient(old(render_graph)@.swapchain_index());
            let depth = ImageHandle::Transient(
                old(render_graph)@.with_swapchain_image().images.len() as usize,
            );
            &&& pass.name@ == "Test"@
            &&& pass.queue == Queue::Graphics
            &&& pass.buffer_usages@ == seq![(buffer, BufferResourceAccess::StorageWrite)]
            &&& pass.image_usages@ == seq![
                (color, ImageResourceAccess::AttachmentWrite),
                (depth, ImageResourceAccess::AttachmentWrite),
            ]
            &&& pass.build_cmd_fn == Some(RecordFn(0))
            &&& pass.framebuffer matches Some(framebuffer) && framebuffer.color_attachments@
                == seq![(color, Some([ONE, HALF, QUARTER, 0u32]))]
                && framebuffer.depth_stencil_attachment == Some((depth, Some((ONE, 0u32))))
                && framebuffer.input_attachments@.len() == 0
        }),
{
    let some_buffer = render_graph.create_buffer(
        crate::types::BufferDescription {
            size: 16,
            usage: BufferUsage::from_bits(BufferUsage::STORAGE),
        },
    );
    let swapchain_image = render_graph.get_swapchain_image();
    let some_depth_texture = render_graph.create_texture(
        crate::types::TextureDescription {
            format: TextureFormat::D32Float,
            size: swapchain_image.1,
            usage: TextureUsage::from_bits(TextureUsage::ATTACHMENT),
            sampler: None,
        },
    );
    let color = [ColorAttachment::new_clear(swapchain_image.0, [ONE, HALF, QUARTER, 0])];
    let ghost color_handle = ImageHandle::Transient(swapchain_image.0.0);
    let ghost depth_handle = ImageHandle::Transient(some_depth_texture.0);
    let ghost buffer_handle = BufferHandle::Transient(some_buffer.0);
    let ghost no_images = Seq::<(ImageHandle, ImageResourceAccess)>::empty();
    let ghost no_buffers = Seq::<(BufferHandle, BufferResourceAccess)>::empty();
    let named = RasterPassBuilder::new("Test");
    proof {
        assert(named.pass.image_usages@ =~= no_images);
        crate::render_graph::lemma_image_usage_index(no_images, color_handle, 0);
        let first = with_color_attachments(no_images, color@, 1);
        assert(with_color_attachments(no_images, color@, 0) == no_images);
        crate::render_graph::lemma_image_usage_index(first, depth_handle, 0);
        crate::render_graph::lemma_buffer_usage_index(no_buffers, buffer_handle, 0);
    }
    let targeted = named.attachments(
        color.as_slice(),
        Some(DepthStencilAttachment::new_clear(some_depth_texture, (ONE, 0))),
    );
    let pass = targeted.shader_access(ShaderResourceAccess::BufferStorageWrite(some_buffer)).raster_fn(
        RecordFn(0),
    );
    render_graph.add_raster_pass(pass);
}

} // verus!
