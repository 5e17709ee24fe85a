//! The API-level vocabulary that the GL backends convert: filter modes, blend and depth
//! state, resource-type flags, extents and the error type.
use vstd::prelude::*;

verus! {

/// Maximum number of descriptor set layouts a root signature may use.
pub const MAX_DESCRIPTOR_SET_LAYOUTS: usize = 4;

/// Maximum number of color render targets bound at once.
pub const MAX_RENDER_TARGET_ATTACHMENTS: usize = 8;

/// Maximum number of vertex buffers bound at once.
pub const MAX_VERTEX_INPUT_BINDINGS: usize = 16;

#[derive(Copy, Clone, Debug, PartialEq, Eq, Structural)]
pub enum RafxFilterType {
    Nearest,
    Linear,
}

#[derive(Copy, Clone, Debug, PartialEq, Eq, Structural)]
pub enum RafxMipMapMode {
    Nearest,
    Linear,
}

#[derive(Copy, Clone, Debug, PartialEq, Eq, Structural)]
pub enum RafxAddressMode {
    Mirror,
    Repeat,
    ClampToEdge,
    ClampToBorder,
}

#[derive(Copy, Clone, Debug, PartialEq, Eq, Structural)]
pub enum RafxPrimitiveTopology {
    PointList,
    LineList,
    LineStrip,
    TriangleList,
    TriangleStrip,
    PatchList,
}

#[derive(Copy, Clone, Debug, PartialEq, Eq, Structural)]
pub enum RafxMemoryUsage {
    Unknown,
    GpuOnly,
    CpuOnly,
    CpuToGpu,
    GpuToCpu,
}

#[derive(Copy, Clone, Debug, PartialEq, Eq, Structural)]
pub enum RafxCullMode {
    NoCull,
    Back,
    Front,
}

#[derive(Copy, Clone, Debug, PartialEq, Eq, Structural)]
pub enum RafxFrontFace {
    CounterClockwise,
    Clockwise,
}

#[derive(Copy, Clone, Debug, PartialEq, Eq, Structural)]
pub enum RafxFillMode {
    Solid,
    Wireframe,
}

#[derive(Copy, Clone, Debug, PartialEq, Eq, Structural)]
pub enum RafxCompareOp {
    Never,
    Less,
    Equal,
    LessOrEqual,
    Greater,
    NotEqual,
    GreaterOrEqual,
    Always,
}

#[derive(Copy, Clone, Debug, PartialEq, Eq, Structural)]
pub enum RafxStencilOp {
    Keep,
    Zero,
    Replace,
    IncrementAndClamp,
    DecrementAndClamp,
    Invert,
    IncrementAndWrap,
    DecrementAndWrap,
}

#[derive(Copy, Clone, Debug, PartialEq, Eq, Structural)]
pub enum RafxBlendFactor {
    Zero,
    One,
    SrcColor,
    OneMinusSrcColor,
    DstColor,
    OneMinusDstColor,
    SrcAlpha,
    OneMinusSrcAlpha,
    DstAlpha,
    OneMinusDstAlpha,
    SrcAlphaSaturate,
    ConstantColor,
    OneMinusConstantColor,
}

#[derive(Copy, Clone, Debug, PartialEq, Eq, Structural)]
pub enum RafxBlendOp {
    Add,
    Subtract,
    ReverseSubtract,
    Min,
    Max,
}

#[derive(Copy, Clone, Debug, PartialEq, Eq, Structural)]
pub enum RafxFenceStatus {
    Complete,
    Incomplete,
    Unsubmitted,
}

#[derive(Copy, Clone, Debug, PartialEq, Eq, Structural)]
pub enum RafxPipelineType {
    Graphics,
    Compute,
}

#[derive(Copy, Clone, Debug, PartialEq, Eq, Structural)]
pub enum RafxIndexType {
    Uint32,
    Uint16,
}

#[derive(Copy, Clone, Debug, PartialEq, Eq, Structural)]
pub enum RafxLoadOp {
    DontCare,
    Load,
    Clear,
}

/// Index of a descriptor within a root signature's flat descriptor list.
#[derive(Copy, Clone, Debug, PartialEq, Eq, Structural)]
pub struct RafxDescriptorIndex(pub u32);

/// Shader stages as a bit set.
#[derive(Copy, Clone, Debug, PartialEq, Eq, Structural)]
pub struct RafxShaderStageFlags(pub u32);

impl RafxShaderStageFlags {
    pub const VERTEX: u32 = 1;
    pub const TESSELLATION_CONTROL: u32 = 2;
    pub const TESSELLATION_EVALUATION: u32 = 4;
    pub const GEOMETRY: u32 = 8;
    pub const FRAGMENT: u32 = 16;
    pub const COMPUTE: u32 = 32;

    pub fn empty() -> (r: RafxShaderStageFlags)
        ensures
            r.0 == 0,
    {
        RafxShaderStageFlags(0)
    }

    /// The union of two stage sets.
    pub fn union(self, other: RafxShaderStageFlags) -> (r: RafxShaderStageFlags)
        ensures
            r.0 == self.0 | other.0,
    {
        RafxShaderStageFlags(self.0 | other.0)
    }
}

/// Kinds of GPU resources as a bit set.
#[derive(Copy, Clone, Debug, PartialEq, Eq, Structural)]
pub struct RafxResourceType(pub u32);

impl RafxResourceType {
    pub const UNDEFINED: u32 = 0;
    pub const SAMPLER: u32 = 1;
    pub const TEXTURE: u32 = 2;
    pub const TEXTURE_READ_WRITE: u32 = 4;
    pub const BUFFER: u32 = 8;
    pub const BUFFER_READ_WRITE: u32 = 32;
    pub const UNIFORM_BUFFER: u32 = 128;
    pub const ROOT_CONSTANT: u32 = 256;
    pub const VERTEX_BUFFER: u32 = 512;
    pub const INDEX_BUFFER: u32 = 1024;
    pub const INDIRECT_BUFFER: u32 = 2048;
    /// A cube texture is also a texture.
    pub const TEXTURE_CUBE: u32 = 4098;
    pub const TEXEL_BUFFER: u32 = 16384;
    pub const TEXEL_BUFFER_READ_WRITE: u32 = 32768;

    /// True when the set shares a bit with `bits`.
    pub open spec fn spec_intersects(self, bits: u32) -> bool {
        self.0 & bits != 0
    }

    /// True when every bit of `bits` is in the set.
    pub open spec fn spec_contains(self, bits: u32) -> bool {
        self.0 & bits == bits
    }

    pub fn intersects(self, bits: u32) -> (r: bool)
        ensures
            r == self.spec_intersects(bits),
    {
        self.0 & bits != 0
    }

    pub fn contains(self, bits: u32) -> (r: bool)
        ensures
            r == self.spec_contains(bits),
    {
        self.0 & bits == bits
    }
}

/// Color channel write mask.
#[derive(Copy, Clone, Debug, PartialEq, Eq, Structural)]
pub struct RafxColorFlags(pub u8);

impl RafxColorFlags {
    pub const RED: u8 = 1;
    pub const GREEN: u8 = 2;
    pub const BLUE: u8 = 4;
    pub const ALPHA: u8 = 8;
    pub const ALL: u8 = 15;

    pub fn intersects(self, bits: u8) -> (r: bool)
        ensures
            r == (self.0 & bits != 0),
    {
        self.0 & bits != 0
    }
}

#[derive(Copy, Clone, Debug, PartialEq, Eq, Structural)]
pub struct RafxExtents2D {
    pub width: u32,
    pub height: u32,
}

#[derive(Copy, Clone, Debug, PartialEq, Eq, Structural)]
pub struct RafxExtents3D {
    pub width: u32,
    pub height: u32,
    pub depth: u32,
}

impl RafxExtents3D {
    pub fn to_2d(self) -> (r: RafxExtents2D)
        ensures
            r.width == self.width,
            r.height == self.height,
    {
        RafxExtents2D { width: self.width, height: self.height }
    }
}

/// Blend settings for one render target.
#[derive(Copy, Clone, Debug, PartialEq, Eq, Structural)]
pub struct RafxBlendStateRenderTarget {
    pub src_factor: RafxBlendFactor,
    pub dst_factor: RafxBlendFactor,
    pub src_factor_alpha: RafxBlendFactor,
    pub dst_factor_alpha: RafxBlendFactor,
    pub blend_op: RafxBlendOp,
    pub blend_op_alpha: RafxBlendOp,
    pub masks: RafxColorFlags,
}

impl RafxBlendStateRenderTarget {
    /// Blending is a no-op exactly when the source is taken whole and the destination dropped.
    pub open spec fn spec_blend_enabled(self) -> bool {
        self.src_factor != RafxBlendFactor::One || self.src_factor_alpha != RafxBlendFactor::One
            || self.dst_factor != RafxBlendFactor::Zero || self.dst_factor_alpha
            != RafxBlendFactor::Zero
    }

    pub fn blend_enabled(&self) -> (r: bool)
        ensures
            r == self.spec_blend_enabled(),
    {
        self.src_factor != RafxBlendFactor::One || self.src_factor_alpha != RafxBlendFactor::One
            || self.dst_factor != RafxBlendFactor::Zero || self.dst_factor_alpha
            != RafxBlendFactor::Zero
    }
}

/// Blend settings for all render targets.
#[derive(Clone, Debug)]
pub struct RafxBlendState {
    pub render_target_blend_states: Vec<RafxBlendStateRenderTarget>,
    pub independent_blend: bool,
}

/// Rasterizer settings. The slope-scaled depth bias, a float, is not part of this model: the GL
/// backends do not read it.
#[derive(Copy, Clone, Debug, PartialEq, Eq, Structural)]
pub struct RafxRasterizerState {
    pub cull_mode: RafxCullMode,
    pub front_face: RafxFrontFace,
    pub fill_mode: RafxFillMode,
    pub depth_bias: i32,
    pub depth_clamp_enable: bool,
    pub multisample: bool,
    pub scissor: bool,
}

/// Depth and stencil settings.
#[derive(Copy, Clone, Debug, PartialEq, Eq, Structural)]
pub struct RafxDepthState {
    pub depth_test_enable: bool,
    pub depth_write_enable: bool,
    pub depth_compare_op: RafxCompareOp,
    pub stencil_test_enable: bool,
    pub stencil_read_mask: u8,
    pub stencil_write_mask: u8,
    pub front_depth_fail_op: RafxStencilOp,
    pub front_stencil_compare_op: RafxCompareOp,
    pub front_stencil_fail_op: RafxStencilOp,
    pub front_stencil_pass_op: RafxStencilOp,
    pub back_depth_fail_op: RafxStencilOp,
    pub back_stencil_compare_op: RafxCompareOp,
    pub back_stencil_fail_op: RafxStencilOp,
    pub back_stencil_pass_op: RafxStencilOp,
}

/// Sampler settings. The level-of-detail bias and the anisotropy, floats, are not part of this
/// model: the GL ES 2.0 backend does not read them.
#[derive(Copy, Clone, Debug, PartialEq, Eq, Structural)]
pub struct RafxSamplerDef {
    pub min_filter: RafxFilterType,
    pub mag_filter: RafxFilterType,
    pub mip_map_mode: RafxMipMapMode,
    pub address_mode_u: RafxAddressMode,
    pub address_mode_v: RafxAddressMode,
    pub address_mode_w: RafxAddressMode,
    pub compare_op: RafxCompareOp,
}

/// Why an operation of the GL backends was refused.
#[derive(Clone, Debug, PartialEq, Eq, Structural)]
pub enum RafxError {
    /// GL ES 2.0 cannot blend render targets independently.
    IndependentBlendNotSupported,
    /// A blend state listed no render target.
    NoRenderTargetBlendStates,
    /// The blend op has no GL ES 2.0 equivalent.
    BlendOpNotSupported(RafxBlendOp),
    /// The address mode has no GL ES 2.0 equivalent.
    AddressModeNotSupported(RafxAddressMode),
    /// A render pass was begun with neither color nor depth target.
    NoRenderTargets,
    /// The framebuffer status after binding targets was not complete; holds the status.
    FramebufferIncomplete(u32),
    /// A buffer bound as vertex buffer lacks the vertex buffer usage.
    NotAVertexBuffer,
    /// A buffer bound as index buffer lacks the index buffer usage.
    NotAnIndexBuffer,
    /// A shader stage other than vertex or fragment was supplied.
    UnexpectedShaderStage(RafxShaderStageFlags),
    /// No vertex shader stage was supplied.
    MissingVertexShader,
    /// No fragment shader stage was supplied.
    MissingFragmentShader,
    /// A shader module was compiled before for another stage; holds (previous, requested).
    ShaderStageMismatch(RafxShaderStageFlags, RafxShaderStageFlags),
    /// A resource type the GL backends cannot bind.
    ResourceTypeNotSupported(RafxResourceType),
    /// The count of immutable samplers differs from the element count; holds (elements, samplers).
    ImmutableSamplerCountMismatch(u32, u32),
    /// A sampler name was given to two samplers.
    DuplicateSamplerName,
    /// A uniform member was declared twice with different offsets; holds (new, old).
    UniformMemberOffsetMismatch(u32, u32),
    /// A uniform field has no offset in any shader stage's metadata.
    UniformMemberNotFound,
    /// No descriptor has the name that an update refers to.
    DescriptorNotFound,
    /// The named descriptor belongs to another set; holds (descriptor's set, this set).
    DescriptorSetIndexMismatch(u32, u32),
    /// An update was keyed by `Undefined`.
    UndefinedDescriptorKey,
    /// An update did not carry the element list its descriptor needs.
    MissingUpdateElements,
    /// The resource is not supported by this backend.
    NotSupported,
    /// Shader source holds a NUL byte, so GL cannot take it as a C string.
    ShaderSourceHasNul,
    /// GL reported an error; holds its code.
    GlError(u32),
    /// GL has no layout for the texture's format.
    FormatNotSupported,
    /// A buffer whose contents are read on the CPU has no CPU copy.
    BufferNotCpuVisible,
    /// A vertex attribute's location is not below the device's attribute count; holds
    /// (location, count).
    VertexAttributeLocationOutOfRange(u32, u32),
    /// GL cannot read a vertex attribute of this format.
    VertexFormatNotSupported,
    /// The primitive topology has no GL ES counterpart.
    TopologyNotSupported(RafxPrimitiveTopology),
}

pub type RafxResult<T> = Result<T, RafxError>;

} // verus!
