//! Fixed-function pipeline state.

use vstd::prelude::*;

verus! {

/// Raster state that selects a pipeline variant.
#[derive(Hash, Eq, PartialEq)]
pub struct PipelineState {
    pub cull_mode: CullMode,
    pub depth_mode: DepthTestMode,
    pub depth_op: DepthTestOp,
    pub src_factor: BlendFactor,
    pub dst_factor: BlendFactor,
    pub blend_op: BlendOp,
}

#[derive(Copy, Clone, Hash, Eq, PartialEq, Structural)]
pub enum CullMode {
    Disabled,
    Front,
    Back,
    All,
}

#[derive(Copy, Clone, Hash, Eq, PartialEq, Structural)]
pub enum DepthTestMode {
    Disabled,
    TestOnly,
    TestAndWrite,
}

#[derive(Copy, Clone, Hash, Eq, PartialEq, Structural)]
pub enum DepthTestOp {
    Never,
    Less,
    Equal,
    LessEqual,
    Greater,
    NotEqual,
    GreaterEqual,
    Always,
}

#[derive(Copy, Clone, Hash, Eq, PartialEq, Structural)]
pub enum BlendFactor {
    Zero,
    One,
    ColorSrc,
    OneMinusColorSrc,
    ColorDst,
    OneMinusColorDst,
    AlphaSrc,
    OneMinusAlphaSrc,
    AlphaDst,
    OneMinusAlphaDst,
}

#[derive(Copy, Clone, Hash, Eq, PartialEq, Structural)]
pub enum BlendOp {
    Disabled,
    Add,
    Subtract,
    ReverseSubtract,
    Min,
    Max,
}

/// A vertex attribute of one to four single-precision components.
#[allow(non_camel_case_types)]
#[derive(Copy, Clone, Hash, Eq, PartialEq, Structural)]
pub enum VertexElement {
    float,
    float2,
    float3,
    float4,
}

impl VertexElement {
    /// How many components the element has.
    pub open spec fn components(self) -> nat {
        match self {
            VertexElement::float => 1,
            VertexElement::float2 => 2,
            VertexElement::float3 => 3,
            VertexElement::float4 => 4,
        }
    }

    /// The size of the element in bytes: four for each component.
    pub fn get_size_bytes(&self) -> (size: u32)
        ensures
            size == 4 * self.components(),
    {
        let component_size: u32 = 4;
        match self {
            VertexElement::float => component_size,
            VertexElement::float2 => component_size * 2,
            VertexElement::float3 => component_size * 3,
            VertexElement::float4 => component_size * 4,
        }
    }
}

} // verus!
