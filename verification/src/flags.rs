//! Raw Vulkan bit values used by the barrier tables and resource descriptions.
//!
//! Masks are carried as plain integers; the numeric values are those of the
//! Vulkan headers, so a mask can be handed to the device layer unchanged.

use vstd::prelude::*;

verus! {

// Pipeline stages (64-bit synchronization2 masks).
pub const STAGE_NONE: u64 = 0;
pub const STAGE_DRAW_INDIRECT: u64 = 0x2;
pub const STAGE_VERTEX_INPUT: u64 = 0x4;
pub const STAGE_VERTEX_SHADER: u64 = 0x8;
pub const STAGE_FRAGMENT_SHADER: u64 = 0x80;
pub const STAGE_EARLY_FRAGMENT_TESTS: u64 = 0x100;
pub const STAGE_LATE_FRAGMENT_TESTS: u64 = 0x200;
pub const STAGE_COLOR_ATTACHMENT_OUTPUT: u64 = 0x400;
pub const STAGE_COMPUTE_SHADER: u64 = 0x800;
pub const STAGE_TRANSFER: u64 = 0x1000;
pub const STAGE_BOTTOM_OF_PIPE: u64 = 0x2000;
pub const STAGE_TASK_SHADER: u64 = 0x8_0000;
pub const STAGE_MESH_SHADER: u64 = 0x10_0000;
pub const STAGE_RAY_TRACING_SHADER: u64 = 0x20_0000;
/// Every programmable shader stage: vertex, fragment, compute, task, mesh and
/// ray tracing.
pub const STAGE_ALL_SHADERS: u64 = 0x38_0888;
/// Both depth/stencil test stages.
pub const STAGE_FRAGMENT_TESTS: u64 = 0x300;

// Memory access kinds (64-bit synchronization2 masks).
pub const ACCESS_NONE: u64 = 0;
pub const ACCESS_INDIRECT_COMMAND_READ: u64 = 0x1;
pub const ACCESS_INDEX_READ: u64 = 0x2;
pub const ACCESS_VERTEX_ATTRIBUTE_READ: u64 = 0x4;
pub const ACCESS_UNIFORM_READ: u64 = 0x8;
pub const ACCESS_SHADER_READ: u64 = 0x20;
pub const ACCESS_SHADER_WRITE: u64 = 0x40;
pub const ACCESS_COLOR_ATTACHMENT_WRITE: u64 = 0x100;
pub const ACCESS_DEPTH_STENCIL_ATTACHMENT_WRITE: u64 = 0x400;
pub const ACCESS_TRANSFER_READ: u64 = 0x800;
pub const ACCESS_TRANSFER_WRITE: u64 = 0x1000;
pub const ACCESS_MEMORY_READ: u64 = 0x8000;
pub const ACCESS_MEMORY_WRITE: u64 = 0x1_0000;
pub const ACCESS_SHADER_STORAGE_READ: u64 = 0x2_0000_0000;
/// Every access kind above that modifies memory.
pub const ACCESS_ANY_WRITE: u64 = 0x1_1540;

// Image layouts.
pub const LAYOUT_UNDEFINED: i32 = 0;
pub const LAYOUT_GENERAL: i32 = 1;
pub const LAYOUT_COLOR_ATTACHMENT_OPTIMAL: i32 = 2;
pub const LAYOUT_SHADER_READ_ONLY_OPTIMAL: i32 = 5;
pub const LAYOUT_TRANSFER_SRC_OPTIMAL: i32 = 6;
pub const LAYOUT_TRANSFER_DST_OPTIMAL: i32 = 7;
pub const LAYOUT_PRESENT_SRC: i32 = 1_000_001_002;
pub const LAYOUT_ATTACHMENT_OPTIMAL: i32 = 1_000_314_001;

// Buffer usage bits.
pub const BUFFER_USAGE_TRANSFER_SRC: u32 = 0x1;
pub const BUFFER_USAGE_TRANSFER_DST: u32 = 0x2;
pub const BUFFER_USAGE_UNIFORM_BUFFER: u32 = 0x10;
pub const BUFFER_USAGE_STORAGE_BUFFER: u32 = 0x20;
pub const BUFFER_USAGE_INDEX_BUFFER: u32 = 0x40;
pub const BUFFER_USAGE_VERTEX_BUFFER: u32 = 0x80;
pub const BUFFER_USAGE_INDIRECT_BUFFER: u32 = 0x100;

// Image usage bits.
pub const IMAGE_USAGE_TRANSFER_SRC: u32 = 0x1;
pub const IMAGE_USAGE_TRANSFER_DST: u32 = 0x2;
pub const IMAGE_USAGE_SAMPLED: u32 = 0x4;
pub const IMAGE_USAGE_STORAGE: u32 = 0x8;
pub const IMAGE_USAGE_COLOR_ATTACHMENT: u32 = 0x10;
pub const IMAGE_USAGE_DEPTH_STENCIL_ATTACHMENT: u32 = 0x20;

// Fixed image creation parameters.
pub const IMAGE_TYPE_2D: i32 = 1;
pub const SAMPLE_COUNT_1: u32 = 0x1;
pub const IMAGE_TILING_OPTIMAL: i32 = 0;
pub const SHARING_MODE_EXCLUSIVE: i32 = 0;

// Presentation.
pub const PRESENT_MODE_IMMEDIATE: i32 = 0;
pub const PRESENT_MODE_MAILBOX: i32 = 1;
pub const PRESENT_MODE_FIFO: i32 = 2;
pub const FORMAT_UNDEFINED: i32 = 0;
pub const FORMAT_B8G8R8A8_UNORM: i32 = 44;
pub const COMPOSITE_ALPHA_OPAQUE: u32 = 0x1;

// Result codes of device calls.
pub const RESULT_SUCCESS: i32 = 0;
pub const RESULT_SUBOPTIMAL: i32 = 1_000_001_003;
pub const RESULT_ERROR_OUT_OF_HOST_MEMORY: i32 = -1;
pub const RESULT_ERROR_OUT_OF_DEVICE_MEMORY: i32 = -2;
pub const RESULT_ERROR_DEVICE_LOST: i32 = -4;
pub const RESULT_ERROR_MEMORY_MAP_FAILED: i32 = -5;
pub const RESULT_ERROR_SURFACE_LOST: i32 = -1_000_000_000;
pub const RESULT_ERROR_OUT_OF_DATE: i32 = -1_000_001_004;

/// `mask` holds every bit of `bits`.
pub open spec fn has_all_bits(mask: u32, bits: u32) -> bool {
    mask & bits == bits
}

/// Tests whether every bit of `bits` is set in `mask`.
pub fn contains_bits(mask: u32, bits: u32) -> (r: bool)
    ensures
        r == has_all_bits(mask, bits),
{
    mask & bits == bits
}

/// `bits` if `wanted`, nothing otherwise.
pub open spec fn bits_if(wanted: bool, bits: u32) -> u32 {
    if wanted {
        bits
    } else {
        0
    }
}

/// Yields `bits` if `wanted`, nothing otherwise.
pub fn select_bits(wanted: bool, bits: u32) -> (r: u32)
    ensures
        r == bits_if(wanted, bits),
{
    if wanted {
        bits
    } else {
        0
    }
}

/// The combined shader-stage mask is exactly the union of the individual
/// shader stages, and the fragment-test mask the union of both test stages.
pub proof fn lemma_stage_unions()
    ensures
        STAGE_ALL_SHADERS == STAGE_VERTEX_SHADER | STAGE_FRAGMENT_SHADER | STAGE_COMPUTE_SHADER
            | STAGE_TASK_SHADER | STAGE_MESH_SHADER | STAGE_RAY_TRACING_SHADER,
        STAGE_FRAGMENT_TESTS == STAGE_EARLY_FRAGMENT_TESTS | STAGE_LATE_FRAGMENT_TESTS,
        ACCESS_ANY_WRITE == ACCESS_SHADER_WRITE | ACCESS_COLOR_ATTACHMENT_WRITE
            | ACCESS_DEPTH_STENCIL_ATTACHMENT_WRITE | ACCESS_TRANSFER_WRITE | ACCESS_MEMORY_WRITE,
{
    assert(0x38_0888u64 == 0x8u64 | 0x80u64 | 0x800u64 | 0x8_0000u64 | 0x10_0000u64 | 0x20_0000u64)
        by (bit_vector);
    assert(0x300u64 == 0x100u64 | 0x200u64) by (bit_vector);
    assert(0x1_1540u64 == 0x40u64 | 0x100u64 | 0x400u64 | 0x1000u64 | 0x1_0000u64) by (bit_vector);
}

} // verus!
