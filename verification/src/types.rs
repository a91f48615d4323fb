//! Backend-independent descriptions: formats, pipeline state, and the
//! vocabulary in which a frame's work is declared.

use vstd::prelude::*;

verus! {

/// An opaque 64-bit identifier handed across the device boundary.
pub type HandleType = u64;

pub type SurfaceHandle = HandleType;

pub type SamplerHandle = HandleType;

pub type SwapchainHandle = HandleType;

/// What a buffer may be used for, as a set of bits.
#[derive(Debug, Clone, Copy, PartialEq, Eq, Hash, Structural)]
pub struct BufferUsage {
    pub bits: u32,
}

impl BufferUsage {
    pub const VERTEX: u32 = 0x1;

    pub const INDEX: u32 = 0x2;

    pub const UNIFORM: u32 = 0x4;

    pub const STORAGE: u32 = 0x8;

    pub const INDIRECT: u32 = 0x10;

    /// Every bit of `flags` is part of this usage.
    pub open spec fn has(self, flags: u32) -> bool {
        self.bits & flags == flags
    }

    /// The usage made of exactly the bits of `flags`.
    pub fn from_bits(flags: u32) -> (u: BufferUsage)
        ensures
            u.bits == flags,
    {
        BufferUsage { bits: flags }
    }

    /// Tests whether every bit of `flags` is part of this usage.
    pub fn contains(&self, flags: u32) -> (r: bool)
        ensures
            r == self.has(flags),
    {
        self.bits & flags == flags
    }
}

/// Size and usage of a buffer to create.
#[derive(Debug, Clone, Copy, PartialEq, Eq, Structural)]
pub struct BufferDescription {
    pub size: u64,
    pub usage: BufferUsage,
}

/// What a texture may be used for, as a set of bits.
#[derive(Debug, Clone, Copy, PartialEq, Eq, Hash, Structural)]
pub struct TextureUsage {
    pub bits: u32,
}

impl TextureUsage {
    pub const ATTACHMENT: u32 = 0x1;

    pub const SAMPLED: u32 = 0x2;

    pub const STORAGE: u32 = 0x4;

    /// Every bit of `flags` is part of this usage.
    pub open spec fn has(self, flags: u32) -> bool {
        self.bits & flags == flags
    }

    /// The usage made of exactly the bits of `flags`.
    pub fn from_bits(flags: u32) -> (u: TextureUsage)
        ensures
            u.bits == flags,
    {
        TextureUsage { bits: flags }
    }

    /// Tests whether every bit of `flags` is part of this usage.
    pub fn contains(&self, flags: u32) -> (r: bool)
        ensures
            r == self.has(flags),
    {
        self.bits & flags == flags
    }
}

/// Texel formats.
#[derive(PartialEq, Eq, Hash, Debug, Clone, Copy, Structural)]
pub enum TextureFormat {
    R8Unorm,
    Rg8Unorm,
    Rgb8Unorm,
    Rgba8Unorm,
    R8Snorm,
    Rg8Snorm,
    Rgb8Snorm,
    Rgba8Snorm,
    R8Uint,
    Rg8Uint,
    Rgb8Uint,
    Rgba8Uint,
    R8Sint,
    Rg8Sint,
    Rgb8Sint,
    Rgba8Sint,
    R16Unorm,
    Rg16Unorm,
    Rgb16Unorm,
    Rgba16Unorm,
    R16Snorm,
    Rg16Snorm,
    Rgb16Snorm,
    Rgba16Snorm,
    R16Uint,
    Rg16Uint,
    Rgb16Uint,
    Rgba16Uint,
    R16Sint,
    Rg16Sint,
    Rgb16Sint,
    Rgba16Sint,
    D16Unorm,
    D24UnormS8Uint,
    D32Float,
    D32FloatS8Uint,
}

impl TextureFormat {
    /// The format holds depth, stencil or both.
    pub open spec fn depth_stencil(self) -> bool {
        self is D16Unorm || self is D24UnormS8Uint || self is D32Float || self is D32FloatS8Uint
    }

    /// The code under which the device knows the format.
    pub open spec fn device_format(self) -> i32 {
        match self {
            TextureFormat::R8Unorm => 9,
            TextureFormat::Rg8Unorm => 16,
            TextureFormat::Rgb8Unorm => 23,
            TextureFormat::Rgba8Unorm => 37,
            TextureFormat::R8Snorm => 10,
            TextureFormat::Rg8Snorm => 17,
            TextureFormat::Rgb8Snorm => 24,
            TextureFormat::Rgba8Snorm => 38,
            TextureFormat::R8Uint => 13,
            TextureFormat::Rg8Uint => 20,
            TextureFormat::Rgb8Uint => 27,
            TextureFormat::Rgba8Uint => 41,
            TextureFormat::R8Sint => 14,
            TextureFormat::Rg8Sint => 21,
            TextureFormat::Rgb8Sint => 28,
            TextureFormat::Rgba8Sint => 42,
            TextureFormat::R16Unorm => 70,
            TextureFormat::Rg16Unorm => 77,
            TextureFormat::Rgb16Unorm => 84,
            TextureFormat::Rgba16Unorm => 91,
            TextureFormat::R16Snorm => 71,
            TextureFormat::Rg16Snorm => 78,
            TextureFormat::Rgb16Snorm => 85,
            TextureFormat::Rgba16Snorm => 92,
            TextureFormat::R16Uint => 74,
            TextureFormat::Rg16Uint => 81,
            TextureFormat::Rgb16Uint => 88,
            TextureFormat::Rgba16Uint => 95,
            TextureFormat::R16Sint => 75,
            TextureFormat::Rg16Sint => 82,
            TextureFormat::Rgb16Sint => 89,
            TextureFormat::Rgba16Sint => 96,
            TextureFormat::D16Unorm => 124,
            TextureFormat::D24UnormS8Uint => 129,
            TextureFormat::D32Float => 126,
            TextureFormat::D32FloatS8Uint => 130,
        }
    }

    /// Looks up the code under which the device knows the format.
    pub fn to_device_format(self) -> (code: i32)
        ensures
            code == self.device_format(),
    {
        match self {
            TextureFormat::R8Unorm => 9,
            TextureFormat::Rg8Unorm => 16,
            TextureFormat::Rgb8Unorm => 23,
            TextureFormat::Rgba8Unorm => 37,
            TextureFormat::R8Snorm => 10,
            TextureFormat::Rg8Snorm => 17,
            TextureFormat::Rgb8Snorm => 24,
            TextureFormat::Rgba8Snorm => 38,
            TextureFormat::R8Uint => 13,
            TextureFormat::Rg8Uint => 20,
            TextureFormat::Rgb8Uint => 27,
            TextureFormat::Rgba8Uint => 41,
            TextureFormat::R8Sint => 14,
            TextureFormat::Rg8Sint => 21,
            TextureFormat::Rgb8Sint => 28,
            TextureFormat::Rgba8Sint => 42,
            TextureFormat::R16Unorm => 70,
            TextureFormat::Rg16Unorm => 77,
            TextureFormat::Rgb16Unorm => 84,
            TextureFormat::Rgba16Unorm => 91,
            TextureFormat::R16Snorm => 71,
            TextureFormat::Rg16Snorm => 78,
            TextureFormat::Rgb16Snorm => 85,
            TextureFormat::Rgba16Snorm => 92,
            TextureFormat::R16Uint => 74,
            TextureFormat::Rg16Uint => 81,
            TextureFormat::Rgb16Uint => 88,
            TextureFormat::Rgba16Uint => 95,
            TextureFormat::R16Sint => 75,
            TextureFormat::Rg16Sint => 82,
            TextureFormat::Rgb16Sint => 89,
            TextureFormat::Rgba16Sint => 96,
            TextureFormat::D16Unorm => 124,
            TextureFormat::D24UnormS8Uint => 129,
            TextureFormat::D32Float => 126,
            TextureFormat::D32FloatS8Uint => 130,
        }
    }

    /// Finds the format that the device knows under `code`, if there is one
    /// among these formats.
    pub fn from_device_format(code: i32) -> (r: Option<TextureFormat>)
        ensures
            r matches Some(format) ==> format.device_format() == code,
            r is None ==> forall|format: TextureFormat| format.device_format() != code,
    {
        match code {
            9 => Some(TextureFormat::R8Unorm),
            10 => Some(TextureFormat::R8Snorm),
            13 => Some(TextureFormat::R8Uint),
            14 => Some(TextureFormat::R8Sint),
            16 => Some(TextureFormat::Rg8Unorm),
            17 => Some(TextureFormat::Rg8Snorm),
            20 => Some(TextureFormat::Rg8Uint),
            21 => Some(TextureFormat::Rg8Sint),
            23 => Some(TextureFormat::Rgb8Unorm),
            24 => Some(TextureFormat::Rgb8Snorm),
            27 => Some(TextureFormat::Rgb8Uint),
            28 => Some(TextureFormat::Rgb8Sint),
            37 => Some(TextureFormat::Rgba8Unorm),
            38 => Some(TextureFormat::Rgba8Snorm),
            41 => Some(TextureFormat::Rgba8Uint),
            42 => Some(TextureFormat::Rgba8Sint),
            70 => Some(TextureFormat::R16Unorm),
            71 => Some(TextureFormat::R16Snorm),
            74 => Some(TextureFormat::R16Uint),
            75 => Some(TextureFormat::R16Sint),
            77 => Some(TextureFormat::Rg16Unorm),
            78 => Some(TextureFormat::Rg16Snorm),
            81 => Some(TextureFormat::Rg16Uint),
            82 => Some(TextureFormat::Rg16Sint),
            84 => Some(TextureFormat::Rgb16Unorm),
            85 => Some(TextureFormat::Rgb16Snorm),
            88 => Some(TextureFormat::Rgb16Uint),
            89 => Some(TextureFormat::Rgb16Sint),
            91 => Some(TextureFormat::Rgba16Unorm),
            92 => Some(TextureFormat::Rgba16Snorm),
            95 => Some(TextureFormat::Rgba16Uint),
            96 => Some(TextureFormat::Rgba16Sint),
            124 => Some(TextureFormat::D16Unorm),
            126 => Some(TextureFormat::D32Float),
            129 => Some(TextureFormat::D24UnormS8Uint),
            130 => Some(TextureFormat::D32FloatS8Uint),
            _ => None,
        }
    }

    /// Whether the format holds colour: every format that is not
    /// depth/stencil.
    pub fn is_color(self) -> (r: bool)
        ensures
            r == !self.depth_stencil(),
    {
        !self.is_depth_stencil()
    }

    /// Whether the format holds depth, stencil or both.
    pub fn is_depth_stencil(&self) -> (r: bool)
        ensures
            r == self.depth_stencil(),
    {
        match self {
            TextureFormat::D16Unorm
            | TextureFormat::D24UnormS8Uint
            | TextureFormat::D32Float
            | TextureFormat::D32FloatS8Uint => true,
            _ => false,
        }
    }
}

/// No two formats share a device code.
pub proof fn lemma_device_format_injective(a: TextureFormat, b: TextureFormat)
    requires
        a.device_format() == b.device_format(),
    ensures
        a == b,
{
}

/// Size, format and usage of a texture to create.
#[derive(Debug, Clone, Copy)]
pub struct TextureDescription {
    pub size: [u32; 2],
    pub format: TextureFormat,
    pub usage: TextureUsage,
    pub sampler: Option<()>,
}

#[derive(Debug, Copy, Clone, PartialEq, Eq, Structural)]
pub enum AddressMode {
    Repeat,
    MirroredRepeat,
    ClampToEdge,
    ClampToBorder,
}

impl Default for AddressMode {
    fn default() -> (m: AddressMode)
        ensures
            m == AddressMode::Repeat,
    {
        AddressMode::Repeat
    }
}

#[derive(Debug, Copy, Clone, PartialEq, Eq, Structural)]
pub enum FilterMode {
    Nearest,
    Linear,
}

impl Default for FilterMode {
    fn default() -> (m: FilterMode)
        ensures
            m == FilterMode::Nearest,
    {
        FilterMode::Nearest
    }
}

#[derive(Debug, Copy, Clone, PartialEq, Eq, Structural)]
pub enum BorderColor {
    TransparentBlack,
    OpaqueBlack,
    OpaqueWhite,
}

impl Default for BorderColor {
    fn default() -> (c: BorderColor)
        ensures
            c == BorderColor::TransparentBlack,
    {
        BorderColor::TransparentBlack
    }
}

/// How a sampler reads a texture. Fractional settings are carried as the bit
/// patterns of their single-precision values; nothing here computes with
/// them.
#[derive(Debug, Clone, Copy)]
pub struct SamplerDescription {
    pub address_mode_u: AddressMode,
    pub address_mode_v: AddressMode,
    pub address_mode_w: AddressMode,
    pub mag_filter: FilterMode,
    pub min_filter: FilterMode,
    pub mip_filter: FilterMode,
    /// Lower and upper level-of-detail clamp.
    pub lod_clamp_range: Option<(u32, u32)>,
    pub anisotropy_clamp: Option<u32>,
    pub border_color: BorderColor,
    pub unnormalized_coordinates: bool,
}

impl Default for SamplerDescription {
    fn default() -> (d: SamplerDescription)
        ensures
            d.address_mode_u == AddressMode::Repeat,
            d.address_mode_v == AddressMode::Repeat,
            d.address_mode_w == AddressMode::Repeat,
            d.mag_filter == FilterMode::Nearest,
            d.min_filter == FilterMode::Nearest,
            d.mip_filter == FilterMode::Nearest,
            d.lod_clamp_range is None,
            d.anisotropy_clamp is None,
            d.border_color == BorderColor::TransparentBlack,
            !d.unnormalized_coordinates,
    {
        SamplerDescription {
            address_mode_u: AddressMode::Repeat,
            address_mode_v: AddressMode::Repeat,
            address_mode_w: AddressMode::Repeat,
            mag_filter: FilterMode::Nearest,
            min_filter: FilterMode::Nearest,
            mip_filter: FilterMode::Nearest,
            lod_clamp_range: None,
            anisotropy_clamp: None,
            border_color: BorderColor::TransparentBlack,
            unnormalized_coordinates: false,
        }
    }
}

/// A compute pipeline, by its compiled shader words.
#[derive(PartialEq, Eq, Hash, Debug, Clone, Copy)]
pub struct ComputePipelineDescription<'a> {
    pub shader: &'a [u32],
}

#[derive(PartialEq, Eq, Hash, Debug, Clone, Copy, Structural)]
pub enum VertexFormat {
    Byte,
    Byte2,
    Byte3,
    Byte4,
    Float,
    Float2,
    Float3,
    Float4,
}

#[derive(PartialEq, Eq, Hash, Debug, Clone, Copy, Structural)]
pub enum IndexFormat {
    U16,
    U32,
}

#[derive(PartialEq, Eq, Hash, Debug, Clone, Copy, Structural)]
pub enum VertexStepMode {
    Vertex,
    Instance,
}

#[derive(PartialEq, Eq, Hash, Debug, Clone, Copy)]
pub struct VertexAttribute {
    pub format: VertexFormat,
    pub offset: u32,
    pub shader_location: u32,
}

#[derive(PartialEq, Eq, Hash, Debug, Clone, Copy)]
pub struct VertexBufferLayout<'a> {
    pub stride: u32,
    pub step: VertexStepMode,
    pub attributes: &'a [VertexAttribute],
}

#[derive(PartialEq, Eq, Hash, Debug, Clone, Copy)]
pub struct VertexState<'a> {
    pub shader: &'a [u32],
    pub layouts: &'a [VertexBufferLayout<'a>],
}

#[derive(PartialEq, Eq, Hash, Debug, Clone, Copy, Structural)]
pub enum BlendFactor {
    Zero,
    One,
    ColorSrc,
    OneMinusColorSrc,
    ColorDst,
    OneMinusColorDst,
    AlphaSrc,
    OneMinusAlphaSrc,
    AlphaDst,
    OneMinusAlphaDst,
}

#[derive(PartialEq, Eq, Hash, Debug, Clone, Copy, Structural)]
pub enum BlendOperation {
    Add,
    Subtract,
    ReverseSubtract,
    Min,
    Max,
}

#[derive(PartialEq, Eq, Hash, Debug, Clone, Copy, Structural)]
pub struct BlendComponent {
    pub src_factor: BlendFactor,
    pub dst_factor: BlendFactor,
    pub blend_op: BlendOperation,
}

#[derive(PartialEq, Eq, Hash, Debug, Clone, Copy, Structural)]
pub struct BlendState {
    pub color: BlendComponent,
    pub alpha: BlendComponent,
}

#[derive(PartialEq, Eq, Hash, Debug, Clone, Copy)]
pub struct ColorTargetState {
    pub format: TextureFormat,
    pub blend: Option<BlendState>,
    pub write_mask: (),
}

#[derive(PartialEq, Eq, Hash, Debug, Clone, Copy)]
pub struct FragmentState<'a> {
    pub shader: &'a [u32],
    pub targets: &'a [ColorTargetState],
}

#[derive(PartialEq, Eq, Hash, Debug, Clone, Copy, Structural)]
pub enum CompareOperation {
    Never,
    Less,
    Equal,
    LessEqual,
    Greater,
    NotEqual,
    GreaterEqual,
    Always,
}

#[derive(PartialEq, Eq, Hash, Debug, Clone, Copy)]
pub struct DepthStencilState {
    pub format: TextureFormat,
    pub write_depth: bool,
    pub depth_op: CompareOperation,
}

#[derive(PartialEq, Eq, Hash, Debug, Clone, Copy, Structural)]
pub enum FrontFace {
    CounterClockwise,
    Clockwise,
}

#[derive(PartialEq, Eq, Hash, Debug, Clone, Copy, Structural)]
pub enum CullMode {
    Front,
    Back,
    All,
}

#[derive(PartialEq, Eq, Hash, Debug, Clone, Copy)]
pub struct PrimitiveState {
    pub front_face: FrontFace,
    pub cull_mode: Option<CullMode>,
}

/// A raster pipeline: shaders and fixed-function state, taken verbatim.
#[derive(PartialEq, Eq, Hash, Debug, Clone, Copy)]
pub struct RasterPipelineDescription<'a> {
    pub vertex: VertexState<'a>,
    pub primitive: PrimitiveState,
    pub depth_stencil: Option<DepthStencilState>,
    pub fragment: Option<FragmentState<'a>>,
}

#[derive(PartialEq, Eq, Hash, Debug, Clone, Copy, Structural)]
pub enum PresentMode {
    Fifo,
    Immediate,
    Mailbox,
}

impl Default for PresentMode {
    fn default() -> (m: PresentMode)
        ensures
            m == PresentMode::Fifo,
    {
        PresentMode::Fifo
    }
}

#[derive(PartialEq, Eq, Hash, Debug, Clone, Copy, Structural)]
pub enum CompositeAlphaMode {
    Auto,
    Opaque,
    PreMultiplied,
    PostMultiplied,
    Inherit,
}

impl Default for CompositeAlphaMode {
    fn default() -> (m: CompositeAlphaMode)
        ensures
            m == CompositeAlphaMode::Auto,
    {
        CompositeAlphaMode::Auto
    }
}

#[derive(PartialEq, Eq, Hash, Debug, Clone, Copy)]
pub struct SwapchainDescription {
    pub format: TextureFormat,
    pub present_mode: PresentMode,
    pub usage: TextureUsage,
    pub composite_alpha: CompositeAlphaMode,
}

/// Which queue a pass would like to run on.
#[derive(Debug, Copy, Clone, Hash)]
pub enum Queue {
    Primary,
    PreferAsyncCompute,
    PreferAsyncTransfer,
}

/// A buffer of the graph under construction, by its index in the graph.
#[derive(Debug, Copy, Clone, Hash, Ord, PartialOrd, Eq, PartialEq, Structural)]
pub struct BufferGraphResource(pub usize);

/// A texture of the graph under construction, by its index in the graph.
#[derive(Debug, Copy, Clone, Hash, Ord, PartialOrd, Eq, PartialEq, Structural)]
pub struct TextureGraphResource(pub usize);

/// One declared use of a resource by a shader.
#[derive(Debug, Clone, Copy, Hash, Ord, PartialOrd, Eq, PartialEq, Structural)]
pub enum ShaderResourceAccess {
    BufferUniformRead(BufferGraphResource),
    BufferStorageRead(BufferGraphResource),
    BufferStorageWrite(BufferGraphResource),
    TextureSampleRead(TextureGraphResource),
    TextureStorageRead(TextureGraphResource),
    TextureStorageWrite(TextureGraphResource),
}

#[derive(Debug, Clone, Copy)]
pub struct TextureCopyBuffer {
    pub buffer: BufferGraphResource,
    pub offset: u64,
    pub row_length: Option<u32>,
    pub row_height: Option<u32>,
}

#[derive(Debug, Clone, Copy)]
pub struct TextureCopyTexture {
    pub texture: TextureGraphResource,
    pub offset: [u32; 2],
}

/// One copy of a transfer pass.
pub enum Transfer<'a> {
    CopyCpuToBuffer { src: &'a [u8], dst: BufferGraphResource, dst_offset: u64, copy_size: u64 },
    CopyCpuToTexture {
        src: &'a [u8],
        row_length: Option<u32>,
        row_height: Option<u32>,
        dst: TextureCopyTexture,
        copy_size: [u32; 2],
    },
    CopyBufferToBuffer {
        src: BufferGraphResource,
        src_offset: u64,
        dst: BufferGraphResource,
        dst_offset: u64,
        copy_size: u64,
    },
    CopyBufferToTexture { src: TextureCopyBuffer, dst: TextureCopyTexture, copy_size: [u32; 2] },
    CopyTextureToBuffer { src: TextureCopyTexture, dst: TextureCopyBuffer, copy_size: [u32; 2] },
    CopyTextureToTexture { src: TextureCopyTexture, dst: TextureCopyTexture, copy_size: [u32; 2] },
}

#[derive(Debug, Clone, Copy)]
pub enum ComputeDispatch {
    Size([u32; 3]),
    Indirect { buffer: BufferGraphResource, offset: u64 },
}

/// A colour target of a raster pass. The clear colour is carried as the bit
/// patterns of its four single-precision components.
#[derive(Debug, Clone, Copy)]
pub struct ColorAttachment {
    pub texture: TextureGraphResource,
    pub clear: Option<[u32; 4]>,
}

impl ColorAttachment {
    /// An attachment whose previous contents are kept.
    pub fn new(texture: TextureGraphResource) -> (a: Self)
        ensures
            a.texture == texture,
            a.clear is None,
    {
        Self { texture, clear: None }
    }

    /// An attachment cleared to `clear` before the pass draws.
    pub fn new_clear(texture: TextureGraphResource, clear: [u32; 4]) -> (a: Self)
        ensures
            a.texture == texture,
            a.clear == Some(clear),
    {
        Self { texture, clear: Some(clear) }
    }
}

/// The depth/stencil target of a raster pass. The depth clear value is
/// carried as the bit pattern of its single-precision value.
#[derive(Debug, Clone, Copy)]
pub struct DepthStencilAttachment {
    pub texture: TextureGraphResource,
    pub clear: Option<(u32, u32)>,
}

impl DepthStencilAttachment {
    /// An attachment whose previous contents are kept.
    pub fn new(texture: TextureGraphResource) -> (a: Self)
        ensures
            a.texture == texture,
            a.clear is None,
    {
        Self { texture, clear: None }
    }

    /// An attachment cleared to depth and stencil `clear` before the pass
    /// draws.
    pub fn new_clear(texture: TextureGraphResource, clear: (u32, u32)) -> (a: Self)
        ensures
            a.texture == texture,
            a.clear == Some(clear),
    {
        Self { texture, clear: Some(clear) }
    }
}

/// The render targets of a raster pass.
#[derive(Debug, Clone, Copy)]
pub struct RasterPassDescription<'a> {
    pub color_attachments: &'a [ColorAttachment],
    pub depth_stencil_attachment: Option<DepthStencilAttachment>,
    pub input_attachments: &'a [TextureGraphResource],
}

} // verus!
