//! Conversion of API-level pipeline and sampler settings into GL ES 2.0 enumerants.
use crate::gles20;
use crate::gles20::GLenum;
use crate::types::{
    RafxAddressMode, RafxBlendFactor, RafxBlendOp, RafxBlendState, RafxBlendStateRenderTarget,
    RafxCompareOp, RafxCullMode, RafxDepthState, RafxError, RafxFilterType, RafxFrontFace,
    RafxMemoryUsage, RafxPrimitiveTopology, RafxRasterizerState, RafxResult, RafxStencilOp,
};
use vstd::prelude::*;
use vstd::std_specs::convert::FromSpecImpl;

verus! {

pub open spec fn spec_gles2_filter_type(f: RafxFilterType) -> GLenum {
    match f {
        RafxFilterType::Nearest => gles20::NEAREST,
        RafxFilterType::Linear => gles20::LINEAR,
    }
}

/// `ClampToBorder` needs GL_OES_texture_border_clamp and has no core GL ES 2.0 value.
pub open spec fn spec_gles2_address_mode(m: RafxAddressMode) -> Option<GLenum> {
    match m {
        RafxAddressMode::Mirror => Some(gles20::MIRRORED_REPEAT),
        RafxAddressMode::Repeat => Some(gles20::REPEAT),
        RafxAddressMode::ClampToEdge => Some(gles20::CLAMP_TO_EDGE),
        RafxAddressMode::ClampToBorder => None,
    }
}

pub open spec fn spec_gles2_topology(t: RafxPrimitiveTopology) -> Option<GLenum> {
    match t {
        RafxPrimitiveTopology::PointList => Some(gles20::POINTS),
        RafxPrimitiveTopology::LineList => Some(gles20::LINES),
        RafxPrimitiveTopology::LineStrip => Some(gles20::LINE_STRIP),
        RafxPrimitiveTopology::TriangleList => Some(gles20::TRIANGLES),
        RafxPrimitiveTopology::TriangleStrip => Some(gles20::TRIANGLE_STRIP),
        RafxPrimitiveTopology::PatchList => None,
    }
}

pub open spec fn spec_gles2_usage(u: RafxMemoryUsage) -> Option<GLenum> {
    match u {
        RafxMemoryUsage::Unknown => None,
        RafxMemoryUsage::GpuOnly => Some(gles20::STATIC_DRAW),
        RafxMemoryUsage::CpuOnly => Some(gles20::NONE),
        RafxMemoryUsage::CpuToGpu => Some(gles20::DYNAMIC_DRAW),
        RafxMemoryUsage::GpuToCpu => Some(gles20::STREAM_DRAW),
    }
}

pub open spec fn spec_gles2_cull_mode(c: RafxCullMode) -> GLenum {
    match c {
        RafxCullMode::NoCull => gles20::NONE,
        RafxCullMode::Back => gles20::BACK,
        RafxCullMode::Front => gles20::FRONT,
    }
}

pub open spec fn spec_gles2_front_face(f: RafxFrontFace) -> GLenum {
    match f {
        RafxFrontFace::CounterClockwise => gles20::CCW,
        RafxFrontFace::Clockwise => gles20::CW,
    }
}

pub open spec fn spec_gles2_compare_op(c: RafxCompareOp) -> GLenum {
    match c {
        RafxCompareOp::Never => gles20::NEVER,
        RafxCompareOp::Less => gles20::LESS,
        RafxCompareOp::Equal => gles20::EQUAL,
        RafxCompareOp::LessOrEqual => gles20::LEQUAL,
        RafxCompareOp::Greater => gles20::GREATER,
        RafxCompareOp::NotEqual => gles20::NOTEQUAL,
        RafxCompareOp::GreaterOrEqual => gles20::GEQUAL,
        RafxCompareOp::Always => gles20::ALWAYS,
    }
}

/// Both wrapping ops map to `INCR_WRAP`: `DecrementAndWrap` is sent to GL as an increment, not as
/// `DECR_WRAP`.
pub open spec fn spec_gles2_stencil_op(s: RafxStencilOp) -> GLenum {
    match s {
        RafxStencilOp::Keep => gles20::KEEP,
        RafxStencilOp::Zero => gles20::ZERO,
        RafxStencilOp::Replace => gles20::REPLACE,
        RafxStencilOp::IncrementAndClamp => gles20::INCR,
        RafxStencilOp::DecrementAndClamp => gles20::DECR,
        RafxStencilOp::Invert => gles20::INVERT,
        RafxStencilOp::IncrementAndWrap => gles20::INCR_WRAP,
        RafxStencilOp::DecrementAndWrap => gles20::INCR_WRAP,
    }
}

pub open spec fn spec_gles2_blend_factor(b: RafxBlendFactor) -> GLenum {
    match b {
        RafxBlendFactor::Zero => gles20::ZERO,
        RafxBlendFactor::One => gles20::ONE,
        RafxBlendFactor::SrcColor => gles20::SRC_COLOR,
        RafxBlendFactor::OneMinusSrcColor => gles20::ONE_MINUS_SRC_COLOR,
        RafxBlendFactor::DstColor => gles20::DST_COLOR,
        RafxBlendFactor::OneMinusDstColor => gles20::ONE_MINUS_DST_COLOR,
        RafxBlendFactor::SrcAlpha => gles20::SRC_ALPHA,
        RafxBlendFactor::OneMinusSrcAlpha => gles20::ONE_MINUS_SRC_ALPHA,
        RafxBlendFactor::DstAlpha => gles20::DST_ALPHA,
        RafxBlendFactor::OneMinusDstAlpha => gles20::ONE_MINUS_DST_ALPHA,
        RafxBlendFactor::SrcAlphaSaturate => gles20::SRC_ALPHA_SATURATE,
        RafxBlendFactor::ConstantColor => gles20::CONSTANT_COLOR,
        RafxBlendFactor::OneMinusConstantColor => gles20::ONE_MINUS_CONSTANT_COLOR,
    }
}

/// Min and max blending arrived in GL ES 3.2.
pub open spec fn spec_gles2_blend_op(b: RafxBlendOp) -> Option<GLenum> {
    match b {
        RafxBlendOp::Add => Some(gles20::FUNC_ADD),
        RafxBlendOp::Subtract => Some(gles20::FUNC_SUBTRACT),
        RafxBlendOp::ReverseSubtract => Some(gles20::FUNC_REVERSE_SUBTRACT),
        RafxBlendOp::Min => None,
        RafxBlendOp::Max => None,
    }
}

impl RafxFilterType {
    pub fn gles2_filter_type(self) -> (r: GLenum)
        ensures
            r == spec_gles2_filter_type(self),
    {
        match self {
            RafxFilterType::Nearest => gles20::NEAREST,
            RafxFilterType::Linear => gles20::LINEAR,
        }
    }
}

impl RafxAddressMode {
    pub fn gles2_address_mode(self) -> (r: Option<GLenum>)
        ensures
            r == spec_gles2_address_mode(self),
    {
        match self {
            RafxAddressMode::Mirror => Some(gles20::MIRRORED_REPEAT),
            RafxAddressMode::Repeat => Some(gles20::REPEAT),
            RafxAddressMode::ClampToEdge => Some(gles20::CLAMP_TO_EDGE),
            RafxAddressMode::ClampToBorder => None,
        }
    }
}

impl RafxPrimitiveTopology {
    pub fn gles2_topology(self) -> (r: Option<GLenum>)
        ensures
            r == spec_gles2_topology(self),
    {
        match self {
            RafxPrimitiveTopology::PointList => Some(gles20::POINTS),
            RafxPrimitiveTopology::LineList => Some(gles20::LINES),
            RafxPrimitiveTopology::LineStrip => Some(gles20::LINE_STRIP),
            RafxPrimitiveTopology::TriangleList => Some(gles20::TRIANGLES),
            RafxPrimitiveTopology::TriangleStrip => Some(gles20::TRIANGLE_STRIP),
            RafxPrimitiveTopology::PatchList => None,
        }
    }
}

impl RafxMemoryUsage {
    pub fn gles2_usage(self) -> (r: Option<GLenum>)
        ensures
            r == spec_gles2_usage(self),
    {
        match self {
            RafxMemoryUsage::Unknown => None,
            RafxMemoryUsage::GpuOnly => Some(gles20::STATIC_DRAW),
            RafxMemoryUsage::CpuOnly => Some(gles20::NONE),
            RafxMemoryUsage::CpuToGpu => Some(gles20::DYNAMIC_DRAW),
            RafxMemoryUsage::GpuToCpu => Some(gles20::STREAM_DRAW),
        }
    }
}

impl RafxCullMode {
    pub fn gles2_cull_mode(self) -> (r: GLenum)
        ensures
            r == spec_gles2_cull_mode(self),
    {
        match self {
            RafxCullMode::NoCull => gles20::NONE,
            RafxCullMode::Back => gles20::BACK,
            RafxCullMode::Front => gles20::FRONT,
        }
    }
}

impl RafxFrontFace {
    pub fn gles2_front_face(self) -> (r: GLenum)
        ensures
            r == spec_gles2_front_face(self),
    {
        match self {
            RafxFrontFace::CounterClockwise => gles20::CCW,
            RafxFrontFace::Clockwise => gles20::CW,
        }
    }
}

impl RafxCompareOp {
    pub fn gles2_compare_op(self) -> (r: GLenum)
        ensures
            r == spec_gles2_compare_op(self),
    {
        match self {
            RafxCompareOp::Never => gles20::NEVER,
            RafxCompareOp::Less => gles20::LESS,
            RafxCompareOp::Equal => gles20::EQUAL,
            RafxCompareOp::LessOrEqual => gles20::LEQUAL,
            RafxCompareOp::Greater => gles20::GREATER,
            RafxCompareOp::NotEqual => gles20::NOTEQUAL,
            RafxCompareOp::GreaterOrEqual => gles20::GEQUAL,
            RafxCompareOp::Always => gles20::ALWAYS,
        }
    }
}

impl RafxStencilOp {
    pub fn gles2_stencil_op(self) -> (r: GLenum)
        ensures
            r == spec_gles2_stencil_op(self),
    {
        match self {
            RafxStencilOp::Keep => gles20::KEEP,
            RafxStencilOp::Zero => gles20::ZERO,
            RafxStencilOp::Replace => gles20::REPLACE,
            RafxStencilOp::IncrementAndClamp => gles20::INCR,
            RafxStencilOp::DecrementAndClamp => gles20::DECR,
            RafxStencilOp::Invert => gles20::INVERT,
            RafxStencilOp::IncrementAndWrap => gles20::INCR_WRAP,
            RafxStencilOp::DecrementAndWrap => gles20::INCR_WRAP,
        }
    }
}

impl RafxBlendFactor {
    pub fn gles2_blend_factor(self) -> (r: GLenum)
        ensures
            r == spec_gles2_blend_factor(self),
    {
        match self {
            RafxBlendFactor::Zero => gles20::ZERO,
            RafxBlendFactor::One => gles20::ONE,
            RafxBlendFactor::SrcColor => gles20::SRC_COLOR,
            RafxBlendFactor::OneMinusSrcColor => gles20::ONE_MINUS_SRC_COLOR,
            RafxBlendFactor::DstColor => gles20::DST_COLOR,
            RafxBlendFactor::OneMinusDstColor => gles20::ONE_MINUS_DST_COLOR,
            RafxBlendFactor::SrcAlpha => gles20::SRC_ALPHA,
            RafxBlendFactor::OneMinusSrcAlpha => gles20::ONE_MINUS_SRC_ALPHA,
            RafxBlendFactor::DstAlpha => gles20::DST_ALPHA,
            RafxBlendFactor::OneMinusDstAlpha => gles20::ONE_MINUS_DST_ALPHA,
            RafxBlendFactor::SrcAlphaSaturate => gles20::SRC_ALPHA_SATURATE,
            RafxBlendFactor::ConstantColor => gles20::CONSTANT_COLOR,
            RafxBlendFactor::OneMinusConstantColor => gles20::ONE_MINUS_CONSTANT_COLOR,
        }
    }
}

impl RafxBlendOp {
    pub fn gles2_blend_op(self) -> (r: Option<GLenum>)
        ensures
            r == spec_gles2_blend_op(self),
    {
        match self {
            RafxBlendOp::Add => Some(gles20::FUNC_ADD),
            RafxBlendOp::Subtract => Some(gles20::FUNC_SUBTRACT),
            RafxBlendOp::ReverseSubtract => Some(gles20::FUNC_REVERSE_SUBTRACT),
            RafxBlendOp::Min => None,
            RafxBlendOp::Max => None,
        }
    }
}

/// Rasterizer settings in GL terms. Fill mode, depth bias, depth clamp and multisampling have
/// no GL ES 2.0 counterpart here and are dropped.
#[derive(Copy, Clone, Debug, PartialEq, Eq, Structural)]
pub struct Gles2RasterizerState {
    pub cull_mode: GLenum,
    pub front_face: GLenum,
    pub scissor_test: bool,
}

pub open spec fn spec_gles2_rasterizer_state(state: RafxRasterizerState) -> Gles2RasterizerState {
    Gles2RasterizerState {
        cull_mode: spec_gles2_cull_mode(state.cull_mode),
        front_face: spec_gles2_front_face(state.front_face),
        scissor_test: state.scissor,
    }
}

impl<'a> From<&'a RafxRasterizerState> for Gles2RasterizerState {
    fn from(state: &'a RafxRasterizerState) -> (r: Gles2RasterizerState) {
        Gles2RasterizerState {
            cull_mode: state.cull_mode.gles2_cull_mode(),
            front_face: state.front_face.gles2_front_face(),
            scissor_test: state.scissor,
        }
    }
}

impl<'a> FromSpecImpl<&'a RafxRasterizerState> for Gles2RasterizerState {
    open spec fn obeys_from_spec() -> bool {
        true
    }

    open spec fn from_spec(state: &'a RafxRasterizerState) -> Gles2RasterizerState {
        spec_gles2_rasterizer_state(*state)
    }
}

/// Depth and stencil settings in GL terms. The stencil read mask has no field here: GL ES 2.0
/// takes the compare mask with the reference value, and the backend passes all ones.
#[derive(Copy, Clone, Debug, PartialEq, Eq, Structural)]
pub struct Gles2DepthStencilState {
    pub depth_test_enable: bool,
    pub depth_write_enable: bool,
    pub depth_compare_op: GLenum,
    pub stencil_test_enable: bool,
    pub stencil_write_mask: u8,
    pub front_depth_fail_op: GLenum,
    pub front_stencil_compare_op: GLenum,
    pub front_stencil_fail_op: GLenum,
    pub front_stencil_pass_op: GLenum,
    pub back_depth_fail_op: GLenum,
    pub back_stencil_compare_op: GLenum,
    pub back_stencil_fail_op: GLenum,
    pub back_stencil_pass_op: GLenum,
}

pub open spec fn spec_gles2_depth_stencil_state(state: RafxDepthState) -> Gles2DepthStencilState {
    Gles2DepthStencilState {
        depth_test_enable: state.depth_test_enable,
        depth_write_enable: state.depth_write_enable,
        depth_compare_op: spec_gles2_compare_op(state.depth_compare_op),
        stencil_test_enable: state.stencil_test_enable,
        stencil_write_mask: state.stencil_write_mask,
        front_depth_fail_op: spec_gles2_stencil_op(state.front_depth_fail_op),
        front_stencil_compare_op: spec_gles2_compare_op(state.front_stencil_compare_op),
        front_stencil_fail_op: spec_gles2_stencil_op(state.front_stencil_fail_op),
        front_stencil_pass_op: spec_gles2_stencil_op(state.front_stencil_pass_op),
        back_depth_fail_op: spec_gles2_stencil_op(state.back_depth_fail_op),
        back_stencil_compare_op: spec_gles2_compare_op(state.back_stencil_compare_op),
        back_stencil_fail_op: spec_gles2_stencil_op(state.back_stencil_fail_op),
        back_stencil_pass_op: spec_gles2_stencil_op(state.back_stencil_pass_op),
    }
}

impl<'a> From<&'a RafxDepthState> for Gles2DepthStencilState {
    fn from(state: &'a RafxDepthState) -> (r: Gles2DepthStencilState) {
        Gles2DepthStencilState {
            depth_test_enable: state.depth_test_enable,
            depth_write_enable: state.depth_write_enable,
            depth_compare_op: state.depth_compare_op.gles2_compare_op(),
            stencil_test_enable: state.stencil_test_enable,
            stencil_write_mask: state.stencil_write_mask,
            front_depth_fail_op: state.front_depth_fail_op.gles2_stencil_op(),
            front_stencil_compare_op: state.front_stencil_compare_op.gles2_compare_op(),
            front_stencil_fail_op: state.front_stencil_fail_op.gles2_stencil_op(),
            front_stencil_pass_op: state.front_stencil_pass_op.gles2_stencil_op(),
            back_depth_fail_op: state.back_depth_fail_op.gles2_stencil_op(),
            back_stencil_compare_op: state.back_stencil_compare_op.gles2_compare_op(),
            back_stencil_fail_op: state.back_stencil_fail_op.gles2_stencil_op(),
            back_stencil_pass_op: state.back_stencil_pass_op.gles2_stencil_op(),
        }
    }
}

impl<'a> FromSpecImpl<&'a RafxDepthState> for Gles2DepthStencilState {
    open spec fn obeys_from_spec() -> bool {
        true
    }

    open spec fn from_spec(state: &'a RafxDepthState) -> Gles2DepthStencilState {
        spec_gles2_depth_stencil_state(*state)
    }
}

/// Blend settings in GL terms, taken from the first render target.
#[derive(Copy, Clone, Debug, PartialEq, Eq, Structural)]
pub struct Gles2BlendState {
    pub enabled: bool,
    pub src_factor: GLenum,
    pub dst_factor: GLenum,
    pub src_factor_alpha: GLenum,
    pub dst_factor_alpha: GLenum,
    pub blend_op: GLenum,
    pub blend_op_alpha: GLenum,
}

/// What `gles2_blend_state` gives for a blend state: GL ES 2.0 has one blend state for all
/// targets, so only the first target is read. Its color blend op is used for alpha too.
pub open spec fn spec_gles2_blend_state(
    independent_blend: bool,
    targets: Seq<RafxBlendStateRenderTarget>,
) -> RafxResult<Gles2BlendState> {
    if independent_blend {
        Err(RafxError::IndependentBlendNotSupported)
    } else if targets.len() == 0 {
        Err(RafxError::NoRenderTargetBlendStates)
    } else {
        let rt = targets[0];
        match spec_gles2_blend_op(rt.blend_op) {
            None => Err(RafxError::BlendOpNotSupported(rt.blend_op)),
            Some(op) => Ok(
                Gles2BlendState {
                    enabled: rt.spec_blend_enabled(),
                    src_factor: spec_gles2_blend_factor(rt.src_factor),
                    dst_factor: spec_gles2_blend_factor(rt.dst_factor),
                    src_factor_alpha: spec_gles2_blend_factor(rt.src_factor_alpha),
                    dst_factor_alpha: spec_gles2_blend_factor(rt.dst_factor_alpha),
                    blend_op: op,
                    blend_op_alpha: op,
                },
            ),
        }
    }
}

impl RafxBlendState {
    pub fn gles2_blend_state(&self) -> (r: RafxResult<Gles2BlendState>)
        ensures
            r == spec_gles2_blend_state(self.independent_blend, self.render_target_blend_states@),
    {
        if self.independent_blend {
            return Err(RafxError::IndependentBlendNotSupported);
        }
        if self.render_target_blend_states.len() == 0 {
            return Err(RafxError::NoRenderTargetBlendStates);
        }
        let rt_state = &self.render_target_blend_states[0];
        let blend_op = match rt_state.blend_op.gles2_blend_op() {
            Some(op) => op,
            None => {
                return Err(RafxError::BlendOpNotSupported(rt_state.blend_op));
            },
        };
        let blend_op_alpha = match rt_state.blend_op.gles2_blend_op() {
            Some(op) => op,
            None => {
                return Err(RafxError::BlendOpNotSupported(rt_state.blend_op));
            },
        };
        Ok(
            Gles2BlendState {
                enabled: rt_state.blend_enabled(),
                src_factor: rt_state.src_factor.gles2_blend_factor(),
                dst_factor: rt_state.dst_factor.gles2_blend_factor(),
                src_factor_alpha: rt_state.src_factor_alpha.gles2_blend_factor(),
                dst_factor_alpha: rt_state.dst_factor_alpha.gles2_blend_factor(),
                blend_op,
                blend_op_alpha,
            },
        )
    }
}

/// Distinct blend factors are sent to GL as distinct factors: no factor is confused with
/// another.
pub proof fn lemma_gles2_blend_factor_injective(a: RafxBlendFactor, b: RafxBlendFactor)
    ensures
        spec_gles2_blend_factor(a) == spec_gles2_blend_factor(b) ==> a == b,
{
}

/// Each blend factor is GL's factor of the same name. In GL's numbering the source color and
/// alpha, destination alpha and color and the saturated source alpha are 0x300, 0x302, 0x304,
/// 0x306 and 0x308, the constant color 0x8001, and each "one minus" factor follows the factor it
/// complements.
pub proof fn lemma_gles2_blend_factor_numbering()
    ensures
        spec_gles2_blend_factor(RafxBlendFactor::Zero) == 0u32,
        spec_gles2_blend_factor(RafxBlendFactor::One) == 1u32,
        spec_gles2_blend_factor(RafxBlendFactor::SrcColor) == 0x0300u32,
        spec_gles2_blend_factor(RafxBlendFactor::SrcAlpha) == 0x0302u32,
        spec_gles2_blend_factor(RafxBlendFactor::DstAlpha) == 0x0304u32,
        spec_gles2_blend_factor(RafxBlendFactor::DstColor) == 0x0306u32,
        spec_gles2_blend_factor(RafxBlendFactor::SrcAlphaSaturate) == 0x0308u32,
        spec_gles2_blend_factor(RafxBlendFactor::ConstantColor) == 0x8001u32,
        spec_gles2_blend_factor(RafxBlendFactor::OneMinusSrcColor) == spec_gles2_blend_factor(
            RafxBlendFactor::SrcColor,
        ) + 1,
        spec_gles2_blend_factor(RafxBlendFactor::OneMinusSrcAlpha) == spec_gles2_blend_factor(
            RafxBlendFactor::SrcAlpha,
        ) + 1,
        spec_gles2_blend_factor(RafxBlendFactor::OneMinusDstAlpha) == spec_gles2_blend_factor(
            RafxBlendFactor::DstAlpha,
        ) + 1,
        spec_gles2_blend_factor(RafxBlendFactor::OneMinusDstColor) == spec_gles2_blend_factor(
            RafxBlendFactor::DstColor,
        ) + 1,
        spec_gles2_blend_factor(RafxBlendFactor::OneMinusConstantColor) == spec_gles2_blend_factor(
            RafxBlendFactor::ConstantColor,
        ) + 1,
{
}

/// Whether a comparison passes when the incoming value is less than, equal to, or greater than
/// the stored one.
pub open spec fn spec_compare_passes(c: RafxCompareOp, less: bool, equal: bool, greater: bool) -> bool {
    match c {
        RafxCompareOp::Never => false,
        RafxCompareOp::Less => less,
        RafxCompareOp::Equal => equal,
        RafxCompareOp::LessOrEqual => less || equal,
        RafxCompareOp::Greater => greater,
        RafxCompareOp::NotEqual => less || greater,
        RafxCompareOp::GreaterOrEqual => greater || equal,
        RafxCompareOp::Always => true,
    }
}

/// GL numbers its comparison functions from NEVER (0x200) by the outcomes they pass: one for
/// "less", two for "equal", four for "greater". Each compare op is sent as the function that
/// passes on the same outcomes.
pub proof fn lemma_gles2_compare_op_encodes_outcomes(c: RafxCompareOp)
    ensures
        spec_gles2_compare_op(c) == 0x0200u32 + (if spec_compare_passes(c, true, false, false) {
            1u32
        } else {
            0u32
        }) + (if spec_compare_passes(c, false, true, false) {
            2u32
        } else {
            0u32
        }) + (if spec_compare_passes(c, false, false, true) {
            4u32
        } else {
            0u32
        }),
{
}

/// The sampler settings are GL's values of the same name: NEAREST 0x2600, LINEAR 0x2601,
/// REPEAT 0x2901, CLAMP_TO_EDGE 0x812F, MIRRORED_REPEAT 0x8370; a border clamp has none.
pub proof fn lemma_gles2_sampler_settings_numbering()
    ensures
        spec_gles2_filter_type(RafxFilterType::Nearest) == 0x2600u32,
        spec_gles2_filter_type(RafxFilterType::Linear) == 0x2601u32,
        spec_gles2_address_mode(RafxAddressMode::Repeat) == Some(0x2901u32),
        spec_gles2_address_mode(RafxAddressMode::ClampToEdge) == Some(0x812Fu32),
        spec_gles2_address_mode(RafxAddressMode::Mirror) == Some(0x8370u32),
        spec_gles2_address_mode(RafxAddressMode::ClampToBorder) == None::<GLenum>,
{
}

/// The rasterizer and blend settings are GL's values of the same name: FRONT 0x404, BACK 0x405,
/// CW 0x900, CCW 0x901; POINTS 0, LINES 1, LINE_STRIP 3, TRIANGLES 4, TRIANGLE_STRIP 5;
/// FUNC_ADD 0x8006, FUNC_SUBTRACT 0x800A, FUNC_REVERSE_SUBTRACT 0x800B. Culling nothing sends
/// NONE (0); patches, min and max have no GL ES 2.0 value.
pub proof fn lemma_gles2_pipeline_settings_numbering()
    ensures
        spec_gles2_cull_mode(RafxCullMode::NoCull) == 0u32,
        spec_gles2_cull_mode(RafxCullMode::Front) == 0x0404u32,
        spec_gles2_cull_mode(RafxCullMode::Back) == 0x0405u32,
        spec_gles2_front_face(RafxFrontFace::Clockwise) == 0x0900u32,
        spec_gles2_front_face(RafxFrontFace::CounterClockwise) == 0x0901u32,
        spec_gles2_topology(RafxPrimitiveTopology::PointList) == Some(0u32),
        spec_gles2_topology(RafxPrimitiveTopology::LineList) == Some(1u32),
        spec_gles2_topology(RafxPrimitiveTopology::LineStrip) == Some(3u32),
        spec_gles2_topology(RafxPrimitiveTopology::TriangleList) == Some(4u32),
        spec_gles2_topology(RafxPrimitiveTopology::TriangleStrip) == Some(5u32),
        spec_gles2_topology(RafxPrimitiveTopology::PatchList) == None::<GLenum>,
        spec_gles2_blend_op(RafxBlendOp::Add) == Some(0x8006u32),
        spec_gles2_blend_op(RafxBlendOp::Subtract) == Some(0x800Au32),
        spec_gles2_blend_op(RafxBlendOp::ReverseSubtract) == Some(0x800Bu32),
        spec_gles2_blend_op(RafxBlendOp::Min) == None::<GLenum>,
        spec_gles2_blend_op(RafxBlendOp::Max) == None::<GLenum>,
{
}

} // verus!
