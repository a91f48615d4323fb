//! Creation of 2D textures: the parameters to create the image with, and
//! what to clean up when a step of the creation fails.

use crate::error::Error;
use crate::flags::{
    bits_if, IMAGE_TILING_OPTIMAL, IMAGE_TYPE_2D, IMAGE_USAGE_COLOR_ATTACHMENT,
    IMAGE_USAGE_DEPTH_STENCIL_ATTACHMENT, IMAGE_USAGE_SAMPLED, IMAGE_USAGE_STORAGE,
    IMAGE_USAGE_TRANSFER_DST, IMAGE_USAGE_TRANSFER_SRC, SAMPLE_COUNT_1, SHARING_MODE_EXCLUSIVE,
};
use crate::resource::ImageDescription2D;
use crate::types::TextureFormat;
use vstd::prelude::*;

verus! {

/// What a texture is used for besides being bound to shaders.
#[derive(Debug, Copy, Clone, PartialEq, Eq, Hash, Structural)]
pub struct TextureUsage {
    pub bits: u32,
}

impl TextureUsage {
    pub const ATTACHMENT: u32 = 0x1;

    /// Every bit of `flags` is part of this usage.
    pub open spec fn has(self, flags: u32) -> bool {
        self.bits & flags == flags
    }

    /// Tests whether every bit of `flags` is part of this usage.
    pub fn contains(&self, flags: u32) -> (r: bool)
        ensures
            r == self.has(flags),
    {
        self.bits & flags == flags
    }
}

/// How a texture is bound to shaders.
#[derive(Debug, Copy, Clone, PartialEq, Eq, Hash, Structural)]
pub struct TextureBindingType {
    pub bits: u32,
}

impl TextureBindingType {
    pub const SAMPLED: u32 = 0x1;

    pub const STORAGE: u32 = 0x2;

    /// Every bit of `flags` is part of this binding type.
    pub open spec fn has(self, flags: u32) -> bool {
        self.bits & flags == flags
    }

    /// Tests whether every bit of `flags` is part of this binding type.
    pub fn contains(&self, flags: u32) -> (r: bool)
        ensures
            r == self.has(flags),
    {
        self.bits & flags == flags
    }
}

/// The parameters with which a 2D image is created.
#[derive(Debug, Copy, Clone)]
pub struct ImageCreateInfo {
    pub format: i32,
    pub image_type: i32,
    pub usage: u32,
    pub extent: [u32; 3],
    pub array_layers: u32,
    pub mip_levels: u32,
    pub samples: u32,
    pub tiling: i32,
    pub sharing_mode: i32,
}

/// First device code of the depth and stencil formats.
pub const FIRST_DEPTH_STENCIL_FORMAT: i32 = 124;

/// Last device code of the depth and stencil formats.
pub const LAST_DEPTH_STENCIL_FORMAT: i32 = 130;

/// The device format of this code holds depth, stencil or both.
pub open spec fn depth_stencil_code(format: i32) -> bool {
    FIRST_DEPTH_STENCIL_FORMAT <= format <= LAST_DEPTH_STENCIL_FORMAT
}

/// Tests whether the device format of this code holds depth, stencil or
/// both.
pub fn is_depth_stencil_code(format: i32) -> (r: bool)
    ensures
        r == depth_stencil_code(format),
{
    FIRST_DEPTH_STENCIL_FORMAT <= format && format <= LAST_DEPTH_STENCIL_FORMAT
}

/// A format holds depth or stencil exactly when its device code says so.
pub proof fn lemma_depth_stencil_code(format: TextureFormat)
    ensures
        depth_stencil_code(format.device_format()) == format.depth_stencil(),
{
}

/// The attachment bit for a format: depth/stencil attachment for a depth or
/// stencil format, colour attachment for any other.
pub open spec fn attachment_usage(format: i32) -> u32 {
    if depth_stencil_code(format) {
        IMAGE_USAGE_DEPTH_STENCIL_ATTACHMENT
    } else {
        IMAGE_USAGE_COLOR_ATTACHMENT
    }
}

/// The image usage of a texture: always a source and a destination of
/// transfers; sampled and storage as its binding type says; and, if it is
/// used as an attachment, the attachment bit that fits its format.
pub open spec fn texture_2d_image_usage(
    usage: TextureUsage,
    bindings: TextureBindingType,
    format: i32,
) -> u32 {
    IMAGE_USAGE_TRANSFER_SRC | IMAGE_USAGE_TRANSFER_DST | bits_if(
        bindings.has(TextureBindingType::SAMPLED),
        IMAGE_USAGE_SAMPLED,
    ) | bits_if(bindings.has(TextureBindingType::STORAGE), IMAGE_USAGE_STORAGE) | bits_if(
        usage.has(TextureUsage::ATTACHMENT),
        attachment_usage(format),
    )
}

/// The parameters of a 2D image of the given format, usage and size: one
/// layer, one mip level, one sample, optimal tiling, exclusive to one queue.
pub open spec fn image_2d_parameters(
    format: i32,
    usage: u32,
    size: [u32; 2],
    info: ImageCreateInfo,
) -> bool {
    &&& info.format == format
    &&& info.image_type == IMAGE_TYPE_2D
    &&& info.usage == usage
    &&& info.extent@ == seq![size[0], size[1], 1u32]
    &&& info.array_layers == 1
    &&& info.mip_levels == 1
    &&& info.samples == SAMPLE_COUNT_1
    &&& info.tiling == IMAGE_TILING_OPTIMAL
    &&& info.sharing_mode == SHARING_MODE_EXCLUSIVE
}

/// Puts the parameters of a 2D image together.
fn image_2d(format: i32, usage: u32, size: [u32; 2]) -> (info: ImageCreateInfo)
    ensures
        image_2d_parameters(format, usage, size, info),
{
    let extent: [u32; 3] = [size[0], size[1], 1];
    ImageCreateInfo {
        format,
        image_type: IMAGE_TYPE_2D,
        usage,
        extent,
        array_layers: 1,
        mip_levels: 1,
        samples: SAMPLE_COUNT_1,
        tiling: IMAGE_TILING_OPTIMAL,
        sharing_mode: SHARING_MODE_EXCLUSIVE,
    }
}

/// Decides the parameters of a 2D texture from what it is used for and how
/// it is bound.
pub fn get_vk_texture_2d_create_info(
    usage: TextureUsage,
    bindings: TextureBindingType,
    format: i32,
    size: [u32; 2],
) -> (info: ImageCreateInfo)
    ensures
        image_2d_parameters(format, texture_2d_image_usage(usage, bindings, format), size, info),
{
    let sampled: u32 = if bindings.contains(TextureBindingType::SAMPLED) {
        IMAGE_USAGE_SAMPLED
    } else {
        0
    };
    let storage: u32 = if bindings.contains(TextureBindingType::STORAGE) {
        IMAGE_USAGE_STORAGE
    } else {
        0
    };
    let attachment: u32 = if usage.contains(TextureUsage::ATTACHMENT) {
        if is_depth_stencil_code(format) {
            IMAGE_USAGE_DEPTH_STENCIL_ATTACHMENT
        } else {
            IMAGE_USAGE_COLOR_ATTACHMENT
        }
    } else {
        0
    };
    let vk_usage: u32 = IMAGE_USAGE_TRANSFER_SRC | IMAGE_USAGE_TRANSFER_DST | sampled | storage
        | attachment;
    image_2d(format, vk_usage, size)
}

/// Decides the parameters of the image that a description asks for: its
/// format under its device code, its usage bits and its size as they are.
pub fn image_create_info(description: &ImageDescription2D) -> (info: ImageCreateInfo)
    ensures
        image_2d_parameters(
            description.format.device_format(),
            description.usage,
            description.size,
            info,
        ),
{
    image_2d(description.format.to_device_format(), description.usage, description.size)
}

/// The image usage of a texture holds each bit exactly when it was asked
/// for, and the two transfer bits always.
pub proof fn lemma_texture_usage_bits(
    usage: TextureUsage,
    bindings: TextureBindingType,
    format: i32,
)
    ensures
        texture_2d_image_usage(usage, bindings, format) & IMAGE_USAGE_TRANSFER_SRC
            == IMAGE_USAGE_TRANSFER_SRC,
        texture_2d_image_usage(usage, bindings, format) & IMAGE_USAGE_TRANSFER_DST
            == IMAGE_USAGE_TRANSFER_DST,
        texture_2d_image_usage(usage, bindings, format) & IMAGE_USAGE_SAMPLED
            == IMAGE_USAGE_SAMPLED <==> bindings.has(TextureBindingType::SAMPLED),
        texture_2d_image_usage(usage, bindings, format) & IMAGE_USAGE_STORAGE
            == IMAGE_USAGE_STORAGE <==> bindings.has(TextureBindingType::STORAGE),
        texture_2d_image_usage(usage, bindings, format) & IMAGE_USAGE_COLOR_ATTACHMENT
            == IMAGE_USAGE_COLOR_ATTACHMENT <==> usage.has(TextureUsage::ATTACHMENT)
            && !depth_stencil_code(format),
        texture_2d_image_usage(usage, bindings, format) & IMAGE_USAGE_DEPTH_STENCIL_ATTACHMENT
            == IMAGE_USAGE_DEPTH_STENCIL_ATTACHMENT <==> usage.has(TextureUsage::ATTACHMENT)
            && depth_stencil_code(format),
{
    let s = bits_if(bindings.has(TextureBindingType::SAMPLED), IMAGE_USAGE_SAMPLED);
    let t = bits_if(bindings.has(TextureBindingType::STORAGE), IMAGE_USAGE_STORAGE);
    let c = bits_if(usage.has(TextureUsage::ATTACHMENT), attachment_usage(format));
    assert((0x1u32 | 0x2u32 | s | t | c) & 0x1 == 0x1 && (0x1u32 | 0x2u32 | s | t | c) & 0x2 == 0x2
        && (((0x1u32 | 0x2u32 | s | t | c) & 0x4 == 0x4) <==> s == 0x4) && (((0x1u32 | 0x2u32 | s
        | t | c) & 0x8 == 0x8) <==> t == 0x8) && (((0x1u32 | 0x2u32 | s | t | c) & 0x10 == 0x10)
        <==> c == 0x10) && (((0x1u32 | 0x2u32 | s | t | c) & 0x20 == 0x20) <==> c == 0x20))
        by (bit_vector)
        requires
            s == 0 || s == 0x4,
            t == 0 || t == 0x8,
            c == 0 || c == 0x10 || c == 0x20,
    ;
}

/// A step in the creation of an image.
#[derive(Debug, Copy, Clone, PartialEq, Eq, Structural)]
pub enum CreationStage {
    /// The image object is created.
    CreateImage,
    /// Memory is allocated for it.
    AllocateMemory,
    /// The memory is bound to it.
    BindMemory,
}

/// What follows a step.
#[derive(Debug, Copy, Clone, PartialEq, Eq, Structural)]
pub enum CreationStep {
    /// Go on with this stage.
    Proceed(CreationStage),
    /// The image is ready.
    Finished,
    /// Give up with `error`, after destroying and freeing what earlier
    /// stages made.
    Abort { destroy_image: bool, free_allocation: bool, error: Error },
}

/// What follows `stage` once it has ended with `outcome`. A stage that
/// succeeds leads to the next; one that fails ends the creation, and
/// whatever the stages before it made is given back: the image after a
/// failed allocation, image and allocation after a failed binding.
pub open spec fn creation_step(stage: CreationStage, outcome: Result<(), Error>) -> CreationStep {
    match outcome {
        Ok(_) => match stage {
            CreationStage::CreateImage => CreationStep::Proceed(CreationStage::AllocateMemory),
            CreationStage::AllocateMemory => CreationStep::Proceed(CreationStage::BindMemory),
            CreationStage::BindMemory => CreationStep::Finished,
        },
        Err(error) => CreationStep::Abort {
            destroy_image: !(stage is CreateImage),
            free_allocation: stage is BindMemory,
            error,
        },
    }
}

/// Decides what follows a stage of image creation.
pub fn after_stage(stage: CreationStage, outcome: Result<(), Error>) -> (step: CreationStep)
    ensures
        step == creation_step(stage, outcome),
{
    match outcome {
        Ok(_) => match stage {
            CreationStage::CreateImage => CreationStep::Proceed(CreationStage::AllocateMemory),
            CreationStage::AllocateMemory => CreationStep::Proceed(CreationStage::BindMemory),
            CreationStage::BindMemory => CreationStep::Finished,
        },
        Err(error) => match stage {
            CreationStage::CreateImage => CreationStep::Abort {
                destroy_image: false,
                free_allocation: false,
                error,
            },
            CreationStage::AllocateMemory => CreationStep::Abort {
                destroy_image: true,
                free_allocation: false,
                error,
            },
            CreationStage::BindMemory => CreationStep::Abort {
                destroy_image: true,
                free_allocation: true,
                error,
            },
        },
    }
}

} // verus!
