//! Command recording for the GL ES 3.0 backend. Each command works out, from the pool's
//! recording state and its arguments, the GL calls to make and the next recording state; the GL
//! context makes the calls.
use crate::buffer_gles3::RafxBufferGles3;
use crate::command_pool::{
    attributes_fit, spec_attribute_toggles, spec_bind_vertex_buffer,
    spec_forget_attributes, spec_record_attributes,
    spec_vertex_binding_commands, vertex_bindings_ready, needs_rebind, BoundDescriptorSet,
    BoundVertexBuffer, CommandPoolGles3StateInner, DescriptorSetBindings, VertexBindings,
    spec_descriptor_set_bound,
    VertexBindingsView,
};
use crate::descriptor_set_array::{RafxDescriptorSetArrayGles2, RafxDescriptorSetHandleGles2};
use crate::conversions::{Gles2BlendState, Gles2DepthStencilState, Gles2RasterizerState};
use crate::gl_command::GlCommand;
use crate::gl_context::{BufferId, FramebufferId, ProgramId, TextureId};
use crate::gles20::{self, GLenum};
use crate::pipeline::{Gles3Attribute, Gles3PipelineInfo, PipelineBindingState};
use crate::texture::{
    array_layer_to_cube_map_target, lemma_cube_map_target_is_face, spec_cube_map_target,
    Gles3TextureInfo,
};
use crate::types::{
    RafxColorFlags, RafxError, RafxExtents2D, RafxExtents3D, RafxIndexType, RafxLoadOp, RafxResourceType,
    RafxResult, MAX_DESCRIPTOR_SET_LAYOUTS, MAX_RENDER_TARGET_ATTACHMENTS,
    MAX_VERTEX_INPUT_BINDINGS,
};
use vstd::prelude::*;

verus! {

/// The bit pattern of `1.0f32`.
pub const ONE_F32_BITS: u32 = 0x3f80_0000;

/// A color clear value, each channel as the bit pattern of an `f32`.
#[derive(Copy, Clone, Debug)]
pub struct RafxColorClearValue(pub [u32; 4]);

/// A depth/stencil clear value; the depth as the bit pattern of an `f32`.
#[derive(Copy, Clone, Debug, PartialEq, Eq, Structural)]
pub struct RafxDepthStencilClearValue {
    pub depth_bits: u32,
    pub stencil: u32,
}

/// A color render target of a render pass.
#[derive(Copy, Clone, Debug)]
pub struct RafxColorRenderTargetBinding {
    pub texture: Gles3TextureInfo,
    pub load_op: RafxLoadOp,
    pub clear_value: RafxColorClearValue,
    pub mip_slice: Option<u8>,
    pub array_slice: Option<u16>,
}

/// The depth/stencil render target of a render pass, with whether its format has depth and
/// stencil.
#[derive(Copy, Clone, Debug, PartialEq, Eq, Structural)]
pub struct RafxDepthStencilRenderTargetBinding {
    pub texture: Gles3TextureInfo,
    pub has_depth: bool,
    pub has_stencil: bool,
    pub depth_load_op: RafxLoadOp,
    pub stencil_load_op: RafxLoadOp,
    pub clear_value: RafxDepthStencilClearValue,
    pub mip_slice: Option<u8>,
    pub array_slice: Option<u16>,
}

/// What recording reads of a buffer: its GL name, if it has one, and its resource type.
#[derive(Copy, Clone, Debug, PartialEq, Eq, Structural)]
pub struct Gles3BufferInfo {
    pub buffer_id: Option<BufferId>,
    pub resource_type: RafxResourceType,
}

#[derive(Copy, Clone, Debug, PartialEq, Eq, Structural)]
pub struct RafxVertexBufferBinding {
    pub buffer: Gles3BufferInfo,
    pub byte_offset: u64,
}

#[derive(Copy, Clone, Debug, PartialEq, Eq, Structural)]
pub struct RafxIndexBufferBinding {
    pub buffer: Gles3BufferInfo,
    pub byte_offset: u64,
    pub index_type: RafxIndexType,
}

/// The first half of beginning a render pass: the calls up to the framebuffer status check,
/// and what the second half needs.
pub struct RenderPassBegin {
    pub commands: Vec<GlCommand>,
    pub clear_mask: u32,
    pub extents: RafxExtents3D,
}

/// A command buffer. It records into the state of the pool that made it.
pub struct RafxCommandBufferGles3 {
    pub command_pool_state: CommandPoolGles3StateInner,
}

/// The calls that attach a texture to a framebuffer attachment point.
pub open spec fn spec_bind_framebuffer(
    texture: Gles3TextureInfo,
    attachment: GLenum,
    array_slice: u16,
    mip_slice: u8,
) -> Seq<GlCommand> {
    let target = texture.gl_target;
    let id = texture.image->Texture_0;
    let subtarget = if target == gles20::TEXTURE_CUBE_MAP {
        spec_cube_map_target(array_slice)
    } else {
        target
    };
    seq![
        GlCommand::BindTexture { target, texture: id },
        GlCommand::FramebufferTexture {
            target: gles20::FRAMEBUFFER,
            attachment,
            texture_target: subtarget,
            texture: id,
            mip_level: mip_slice,
        },
        GlCommand::BindTexture { target, texture: TextureId(gles20::NONE) },
    ]
}

/// Attaching a layer of a cube map attaches the face of that layer, TEXTURE_CUBE_MAP_POSITIVE_X
/// (0x8515) plus the layer; any other texture is attached by its own target.
pub proof fn lemma_attachment_reaches_the_layer_face(
    texture: Gles3TextureInfo,
    attachment: GLenum,
    array_slice: u16,
    mip_slice: u8,
)
    ensures
        spec_bind_framebuffer(texture, attachment, array_slice, mip_slice)[1] matches
            GlCommand::FramebufferTexture { texture_target, .. } && (texture.gl_target
            == 0x8513u32 && array_slice < 6 ==> texture_target == 0x8515u32 + array_slice) && (
        texture.gl_target != 0x8513u32 ==> texture_target == texture.gl_target),
{
    lemma_cube_map_target_is_face(array_slice);
}

/// The call that detaches whatever is attached at an attachment point.
pub open spec fn spec_unbind_framebuffer(attachment: GLenum) -> Seq<GlCommand> {
    seq![
        GlCommand::FramebufferTexture {
            target: gles20::FRAMEBUFFER,
            attachment,
            texture_target: gles20::TEXTURE_2D,
            texture: TextureId(gles20::NONE),
            mip_level: 0,
        },
    ]
}

pub open spec fn unwrap_or_u16(o: Option<u16>, d: u16) -> u16 {
    match o {
        Some(v) => v,
        None => d,
    }
}

pub open spec fn unwrap_or_u8(o: Option<u8>, d: u8) -> u8 {
    match o {
        Some(v) => v,
        None => d,
    }
}

/// The calls for the first `n` color targets: each attached at its color attachment, then its
/// clear color set if it is cleared.
pub open spec fn spec_color_target_commands(
    targets: Seq<RafxColorRenderTargetBinding>,
    n: nat,
) -> Seq<GlCommand>
    decreases n,
{
    if n == 0 {
        Seq::empty()
    } else {
        let i = n - 1;
        let t = targets[i];
        spec_color_target_commands(targets, (n - 1) as nat) + spec_bind_framebuffer(
            t.texture,
            (gles20::COLOR_ATTACHMENT0 + i) as u32,
            unwrap_or_u16(t.array_slice, 0),
            unwrap_or_u8(t.mip_slice, 0),
        ) + if t.load_op == RafxLoadOp::Clear {
            seq![
                GlCommand::ClearColor {
                    r_bits: t.clear_value.0@[0],
                    g_bits: t.clear_value.0@[1],
                    b_bits: t.clear_value.0@[2],
                    a_bits: t.clear_value.0@[3],
                },
            ]
        } else {
            Seq::empty()
        }
    }
}

/// Whether one of the color targets is cleared.
pub open spec fn spec_any_color_clear(targets: Seq<RafxColorRenderTargetBinding>) -> bool {
    exists|i: int| 0 <= i < targets.len() && (#[trigger] targets[i]).load_op == RafxLoadOp::Clear
}

/// The calls that detach the color attachments below `n` that were attached and are not used
/// by the `used` targets of this pass.
pub open spec fn spec_color_unbind_commands(bound: Seq<bool>, used: nat, n: nat) -> Seq<GlCommand>
    decreases n,
{
    if n == 0 {
        Seq::empty()
    } else {
        let i = n - 1;
        spec_color_unbind_commands(bound, used, (n - 1) as nat) + if i >= used && bound[i] {
            spec_unbind_framebuffer((gles20::COLOR_ATTACHMENT0 + i) as u32)
        } else {
            Seq::empty()
        }
    }
}

/// The calls for the depth/stencil target.
pub open spec fn spec_depth_target_commands(d: RafxDepthStencilRenderTargetBinding) -> Seq<
    GlCommand,
> {
    (if d.has_depth {
        spec_bind_framebuffer(
            d.texture,
            gles20::DEPTH_ATTACHMENT,
            unwrap_or_u16(d.array_slice, 0),
            unwrap_or_u8(d.mip_slice, 0),
        ) + if d.depth_load_op == RafxLoadOp::Clear {
            seq![GlCommand::ClearDepth { depth_bits: d.clear_value.depth_bits }]
        } else {
            Seq::empty()
        }
    } else {
        Seq::empty()
    }) + if d.has_stencil {
        spec_bind_framebuffer(
            d.texture,
            gles20::STENCIL_ATTACHMENT,
            unwrap_or_u16(d.array_slice, 0),
            unwrap_or_u8(d.mip_slice, 0),
        ) + if d.stencil_load_op == RafxLoadOp::Clear {
            seq![GlCommand::ClearStencil(d.clear_value.stencil as i32)]
        } else {
            Seq::empty()
        }
    } else {
        Seq::empty()
    }
}

/// The size of a render pass: that of the depth/stencil target if it has depth or stencil,
/// else that of the last color target.
pub open spec fn spec_render_extents(
    targets: Seq<RafxColorRenderTargetBinding>,
    depth_target: Option<RafxDepthStencilRenderTargetBinding>,
) -> RafxExtents3D {
    if depth_target matches Some(d) && (d.has_depth || d.has_stencil) {
        depth_target->Some_0.texture.extents
    } else if targets.len() > 0 {
        targets.last().texture.extents
    } else {
        RafxExtents3D { width: 0, height: 0, depth: 0 }
    }
}

/// The buffers a render pass clears.
pub open spec fn spec_clear_mask(color: bool, depth: bool, stencil: bool) -> u32 {
    (if color {
        gles20::COLOR_BUFFER_BIT
    } else {
        0u32
    }) | (if depth {
        gles20::DEPTH_BUFFER_BIT
    } else {
        0u32
    }) | (if stencil {
        gles20::STENCIL_BUFFER_BIT
    } else {
        0u32
    })
}

/// The buffers a render pass over these targets clears: the color buffer if a color target is
/// cleared, the depth buffer if the depth/stencil target has depth and clears it, the stencil
/// buffer if it has stencil and clears it.
pub open spec fn spec_pass_clear_mask(
    color_targets: Seq<RafxColorRenderTargetBinding>,
    depth_target: Option<RafxDepthStencilRenderTargetBinding>,
) -> u32 {
    spec_clear_mask(
        spec_any_color_clear(color_targets),
        depth_target matches Some(d) && d.has_depth && d.depth_load_op == RafxLoadOp::Clear,
        depth_target matches Some(d) && d.has_stencil && d.stencil_load_op == RafxLoadOp::Clear,
    )
}

/// Which bit of the mask each flag sets, in GL's numbering: COLOR_BUFFER_BIT is 0x4000,
/// DEPTH_BUFFER_BIT 0x100 and STENCIL_BUFFER_BIT 0x400.
proof fn lemma_clear_mask_bits(color: bool, depth: bool, stencil: bool)
    ensures
        (spec_clear_mask(color, depth, stencil) & 0x4000u32 != 0) == color,
        (spec_clear_mask(color, depth, stencil) & 0x100u32 != 0) == depth,
        (spec_clear_mask(color, depth, stencil) & 0x400u32 != 0) == stencil,
        spec_clear_mask(color, depth, stencil) | 0x4500u32 == 0x4500u32,
{
    let m = spec_clear_mask(color, depth, stencil);
    assert(m == (if color { 0x4000u32 } else { 0u32 }) | (if depth { 0x100u32 } else { 0u32 }) | (
    if stencil {
        0x400u32
    } else {
        0u32
    }));
    assert(((m & 0x4000u32 != 0) == color && (m & 0x100u32 != 0) == depth && (m & 0x400u32 != 0)
        == stencil && m | 0x4500u32 == 0x4500u32)) by (bit_vector)
        requires
            m == (if color { 0x4000u32 } else { 0u32 }) | (if depth { 0x100u32 } else { 0u32 }) | (
            if stencil {
                0x400u32
            } else {
                0u32
            }),
    ;
}

/// A render pass clears the color buffer exactly when one of its color targets is loaded by
/// clearing, the depth buffer exactly when its depth/stencil target has depth loaded by
/// clearing, and the stencil buffer exactly when that target has stencil loaded by clearing.
/// No other bit is set. The bits are GL's: COLOR_BUFFER_BIT 0x4000, DEPTH_BUFFER_BIT 0x100,
/// STENCIL_BUFFER_BIT 0x400.
pub proof fn lemma_pass_clears_exactly_the_cleared_targets(
    color_targets: Seq<RafxColorRenderTargetBinding>,
    depth_target: Option<RafxDepthStencilRenderTargetBinding>,
)
    ensures
        (spec_pass_clear_mask(color_targets, depth_target) & 0x4000u32 != 0) <==> (exists|i: int|
            0 <= i < color_targets.len() && (#[trigger] color_targets[i]).load_op
                == RafxLoadOp::Clear),
        (spec_pass_clear_mask(color_targets, depth_target) & 0x100u32 != 0) <==> (
        depth_target matches Some(d) && d.has_depth && d.depth_load_op == RafxLoadOp::Clear),
        (spec_pass_clear_mask(color_targets, depth_target) & 0x400u32 != 0) <==> (
        depth_target matches Some(d) && d.has_stencil && d.stencil_load_op == RafxLoadOp::Clear),
        spec_pass_clear_mask(color_targets, depth_target) | 0x4500u32 == 0x4500u32,
{
    lemma_clear_mask_bits(
        spec_any_color_clear(color_targets),
        depth_target matches Some(d) && d.has_depth && d.depth_load_op == RafxLoadOp::Clear,
        depth_target matches Some(d) && d.has_stencil && d.stencil_load_op == RafxLoadOp::Clear,
    );
}

/// The viewport and scissor calls that cover a render pass.
pub open spec fn spec_viewport_commands(extents: RafxExtents3D) -> Seq<GlCommand> {
    seq![
        GlCommand::Viewport {
            x: 0,
            y: 0,
            width: extents.width as i32,
            height: extents.height as i32,
        },
        GlCommand::DepthRange { near_bits: 0, far_bits: ONE_F32_BITS },
        GlCommand::Scissor { x: 0, y: 0, width: extents.width as i32, height: extents.height as i32 },
    ]
}

/// Cube map targets name one of their six faces.
pub open spec fn render_target_valid(texture: Gles3TextureInfo, array_slice: Option<u16>) -> bool {
    texture.gl_target == gles20::TEXTURE_CUBE_MAP ==> unwrap_or_u16(array_slice, 0) < 6
}

/// The stencil comparison calls for a depth/stencil state and reference value.
pub open spec fn spec_stencil_compare_ref_mask(
    state: Gles2DepthStencilState,
    stencil_reference_value: u32,
) -> Seq<GlCommand> {
    if state.stencil_test_enable {
        seq![
            GlCommand::StencilFuncSeparate {
                face: gles20::FRONT,
                func: state.front_stencil_compare_op,
                reference: stencil_reference_value as i32,
                mask: 0xffff_ffffu32,
            },
            GlCommand::StencilFuncSeparate {
                face: gles20::BACK,
                func: state.back_stencil_compare_op,
                reference: stencil_reference_value as i32,
                mask: 0xffff_ffffu32,
            },
        ]
    } else {
        Seq::empty()
    }
}

/// The culling and scissor calls of a rasterizer state.
pub open spec fn spec_rasterizer_commands(r: Gles2RasterizerState) -> Seq<GlCommand> {
    (if r.cull_mode != gles20::NONE {
        seq![
            GlCommand::Enable(gles20::CULL_FACE),
            GlCommand::CullFace(r.cull_mode),
            GlCommand::FrontFace(r.front_face),
        ]
    } else {
        seq![GlCommand::Disable(gles20::CULL_FACE)]
    }) + (if r.scissor_test {
        seq![GlCommand::Enable(gles20::SCISSOR_TEST)]
    } else {
        seq![GlCommand::Disable(gles20::SCISSOR_TEST)]
    })
}

/// The depth and stencil test calls of a depth/stencil state.
pub open spec fn spec_depth_stencil_commands(
    d: Gles2DepthStencilState,
    stencil_reference_value: u32,
) -> Seq<GlCommand> {
    (if d.depth_test_enable {
        seq![
            GlCommand::Enable(gles20::DEPTH_TEST),
            GlCommand::DepthMask(d.depth_write_enable),
            GlCommand::DepthFunc(d.depth_compare_op),
        ]
    } else {
        seq![GlCommand::Disable(gles20::DEPTH_TEST)]
    }) + (if d.stencil_test_enable {
        seq![
            GlCommand::Enable(gles20::STENCIL_TEST),
            GlCommand::StencilMask(d.stencil_write_mask as u32),
        ] + spec_stencil_compare_ref_mask(d, stencil_reference_value) + seq![
            GlCommand::StencilOpSeparate {
                face: gles20::FRONT,
                stencil_fail: d.front_stencil_fail_op,
                depth_fail: d.front_depth_fail_op,
                pass: d.front_stencil_pass_op,
            },
            GlCommand::StencilOpSeparate {
                face: gles20::BACK,
                stencil_fail: d.back_stencil_fail_op,
                depth_fail: d.back_depth_fail_op,
                pass: d.back_stencil_pass_op,
            },
        ]
    } else {
        seq![GlCommand::Disable(gles20::STENCIL_TEST)]
    })
}

/// The blending calls of a blend state.
pub open spec fn spec_blend_commands(b: Gles2BlendState) -> Seq<GlCommand> {
    if b.enabled {
        seq![
            GlCommand::Enable(gles20::BLEND),
            GlCommand::BlendFuncSeparate {
                src_rgb: b.src_factor,
                dst_rgb: b.dst_factor,
                src_alpha: b.src_factor_alpha,
                dst_alpha: b.dst_factor_alpha,
            },
            GlCommand::BlendEquationSeparate { rgb: b.blend_op, alpha: b.blend_op_alpha },
        ]
    } else {
        seq![GlCommand::Disable(gles20::BLEND)]
    }
}

/// The color write mask call for a set of channels.
pub open spec fn spec_color_mask_command(flags: RafxColorFlags) -> GlCommand {
    GlCommand::ColorMask {
        red: flags.0 & RafxColorFlags::RED != 0,
        green: flags.0 & RafxColorFlags::GREEN != 0,
        blue: flags.0 & RafxColorFlags::BLUE != 0,
        alpha: flags.0 & RafxColorFlags::ALPHA != 0,
    }
}

/// The calls that set up GL for drawing with a pipeline.
pub open spec fn spec_bind_pipeline_commands(
    info: Gles3PipelineInfo,
    stencil_reference_value: u32,
) -> Seq<GlCommand> {
    seq![GlCommand::UseProgram(info.program_id)] + spec_rasterizer_commands(
        info.gl_rasterizer_state,
    ) + spec_depth_stencil_commands(info.gl_depth_stencil_state, stencil_reference_value)
        + spec_blend_commands(info.gl_blend_state) + seq![spec_color_mask_command(info.color_flags)]
}

fn rasterizer_commands(r: &Gles2RasterizerState) -> (cmds: Vec<GlCommand>)
    ensures
        cmds@ == spec_rasterizer_commands(*r),
{
    let mut cmds: Vec<GlCommand> = Vec::new();
    if r.cull_mode != gles20::NONE {
        cmds.push(GlCommand::Enable(gles20::CULL_FACE));
        cmds.push(GlCommand::CullFace(r.cull_mode));
        cmds.push(GlCommand::FrontFace(r.front_face));
    } else {
        cmds.push(GlCommand::Disable(gles20::CULL_FACE));
    }
    if r.scissor_test {
        cmds.push(GlCommand::Enable(gles20::SCISSOR_TEST));
    } else {
        cmds.push(GlCommand::Disable(gles20::SCISSOR_TEST));
    }
    assert(cmds@ =~= spec_rasterizer_commands(*r));
    cmds
}

fn depth_stencil_commands(d: &Gles2DepthStencilState, stencil_reference_value: u32) -> (cmds: Vec<
    GlCommand,
>)
    ensures
        cmds@ == spec_depth_stencil_commands(*d, stencil_reference_value),
{
    let mut cmds: Vec<GlCommand> = Vec::new();
    if d.depth_test_enable {
        cmds.push(GlCommand::Enable(gles20::DEPTH_TEST));
        cmds.push(GlCommand::DepthMask(d.depth_write_enable));
        cmds.push(GlCommand::DepthFunc(d.depth_compare_op));
    } else {
        cmds.push(GlCommand::Disable(gles20::DEPTH_TEST));
    }
    let ghost c1 = cmds@;
    if d.stencil_test_enable {
        cmds.push(GlCommand::Enable(gles20::STENCIL_TEST));
        cmds.push(GlCommand::StencilMask(d.stencil_write_mask as u32));
        push_all(&mut cmds, stencil_compare_ref_mask(d, stencil_reference_value));
        cmds.push(
            GlCommand::StencilOpSeparate {
                face: gles20::FRONT,
                stencil_fail: d.front_stencil_fail_op,
                depth_fail: d.front_depth_fail_op,
                pass: d.front_stencil_pass_op,
            },
        );
        cmds.push(
            GlCommand::StencilOpSeparate {
                face: gles20::BACK,
                stencil_fail: d.back_stencil_fail_op,
                depth_fail: d.back_depth_fail_op,
                pass: d.back_stencil_pass_op,
            },
        );
    } else {
        cmds.push(GlCommand::Disable(gles20::STENCIL_TEST));
    }
    assert(cmds@ =~= spec_depth_stencil_commands(*d, stencil_reference_value));
    cmds
}

fn blend_commands(b: &Gles2BlendState) -> (cmds: Vec<GlCommand>)
    ensures
        cmds@ == spec_blend_commands(*b),
{
    let mut cmds: Vec<GlCommand> = Vec::new();
    if b.enabled {
        cmds.push(GlCommand::Enable(gles20::BLEND));
        cmds.push(
            GlCommand::BlendFuncSeparate {
                src_rgb: b.src_factor,
                dst_rgb: b.dst_factor,
                src_alpha: b.src_factor_alpha,
                dst_alpha: b.dst_factor_alpha,
            },
        );
        cmds.push(GlCommand::BlendEquationSeparate { rgb: b.blend_op, alpha: b.blend_op_alpha });
    } else {
        cmds.push(GlCommand::Disable(gles20::BLEND));
    }
    assert(cmds@ =~= spec_blend_commands(*b));
    cmds
}

fn push_all(v: &mut Vec<GlCommand>, cmds: Vec<GlCommand>)
    ensures
        final(v)@ == old(v)@ + cmds@,
{
    let mut cmds = cmds;
    v.append(&mut cmds);
}

fn bind_framebuffer(texture: Gles3TextureInfo, attachment: GLenum, array_slice: u16, mip_slice: u8) -> (r:
    Vec<GlCommand>)
    requires
        texture.gl_target == gles20::TEXTURE_CUBE_MAP ==> array_slice < 6,
    ensures
        r@ == spec_bind_framebuffer(texture, attachment, array_slice, mip_slice),
{
    let target = texture.gl_target;
    let id = match texture.image {
        crate::texture::RafxRawImageGles3::Texture(id) => id,
    };
    let mut subtarget = target;
    if subtarget == gles20::TEXTURE_CUBE_MAP {
        subtarget = array_layer_to_cube_map_target(array_slice);
    }
    let r = vec![
        GlCommand::BindTexture { target, texture: id },
        GlCommand::FramebufferTexture {
            target: gles20::FRAMEBUFFER,
            attachment,
            texture_target: subtarget,
            texture: id,
            mip_level: mip_slice,
        },
        GlCommand::BindTexture { target, texture: TextureId(gles20::NONE) },
    ];
    assert(r@ =~= spec_bind_framebuffer(texture, attachment, array_slice, mip_slice));
    r
}

fn unbind_framebuffer(attachment: GLenum) -> (r: Vec<GlCommand>)
    ensures
        r@ == spec_unbind_framebuffer(attachment),
{
    let r = vec![
        GlCommand::FramebufferTexture {
            target: gles20::FRAMEBUFFER,
            attachment,
            texture_target: gles20::TEXTURE_2D,
            texture: TextureId(gles20::NONE),
            mip_level: 0,
        },
    ];
    assert(r@ =~= spec_unbind_framebuffer(attachment));
    r
}

fn stencil_compare_ref_mask(state: &Gles2DepthStencilState, stencil_reference_value: u32) -> (r:
    Vec<GlCommand>)
    ensures
        r@ == spec_stencil_compare_ref_mask(*state, stencil_reference_value),
{
    let mut r: Vec<GlCommand> = Vec::new();
    if state.stencil_test_enable {
        r.push(
            GlCommand::StencilFuncSeparate {
                face: gles20::FRONT,
                func: state.front_stencil_compare_op,
                reference: stencil_reference_value as i32,
                mask: 0xffff_ffffu32,
            },
        );
        r.push(
            GlCommand::StencilFuncSeparate {
                face: gles20::BACK,
                func: state.back_stencil_compare_op,
                reference: stencil_reference_value as i32,
                mask: 0xffff_ffffu32,
            },
        );
    }
    assert(r@ =~= spec_stencil_compare_ref_mask(*state, stencil_reference_value));
    r
}


/// The calls for the color targets, whether one is cleared, and the last one's size.
fn color_target_commands(color_targets: &Vec<RafxColorRenderTargetBinding>) -> (r: (
    Vec<GlCommand>,
    bool,
    RafxExtents3D,
))
    requires
        color_targets@.len() + gles20::COLOR_ATTACHMENT0 <= u32::MAX,
        forall|i: int|
            0 <= i < color_targets@.len() ==> render_target_valid(
                (#[trigger] color_targets@[i]).texture,
                color_targets@[i].array_slice,
            ),
    ensures
        r.0@ == spec_color_target_commands(color_targets@, color_targets@.len()),
        r.1 == spec_any_color_clear(color_targets@),
        color_targets@.len() > 0 ==> r.2 == color_targets@.last().texture.extents,
        color_targets@.len() == 0 ==> r.2 == (RafxExtents3D { width: 0, height: 0, depth: 0 }),
{
    let n = color_targets.len();
    let mut commands: Vec<GlCommand> = Vec::new();
    let ghost prefix = commands@;
    let mut extents = RafxExtents3D { width: 0, height: 0, depth: 0 };
    let mut color_clear = false;
    let mut index: usize = 0;
    while index < n
        invariant
            index <= n,
            n == color_targets@.len(),
            n + gles20::COLOR_ATTACHMENT0 <= u32::MAX,
            forall|i: int|
                0 <= i < color_targets@.len() ==> render_target_valid(
                    (#[trigger] color_targets@[i]).texture,
                    color_targets@[i].array_slice,
                ),
            commands@ == prefix + spec_color_target_commands(color_targets@, index as nat),
            color_clear == spec_any_color_clear(color_targets@.take(index as int)),
            index > 0 ==> extents == color_targets@[index - 1].texture.extents,
            index == 0 ==> extents == (RafxExtents3D { width: 0, height: 0, depth: 0 }),
        decreases n - index,
    {
        let t = &color_targets[index];
        extents = t.texture.extents;
        let attachment = gles20::COLOR_ATTACHMENT0 + index as u32;
        let array_slice = match t.array_slice {
            Some(v) => v,
            None => 0,
        };
        let mip_slice = match t.mip_slice {
            Some(v) => v,
            None => 0,
        };
        push_all(&mut commands, bind_framebuffer(t.texture, attachment, array_slice, mip_slice));
        if t.load_op == RafxLoadOp::Clear {
            let c = t.clear_value.0;
            commands.push(
                GlCommand::ClearColor {
                    r_bits: c[0],
                    g_bits: c[1],
                    b_bits: c[2],
                    a_bits: c[3],
                },
            );
            color_clear = true;
        }
        proof {
            let take1 = color_targets@.take(index + 1);
            assert(take1 =~= color_targets@.take(index as int).push(color_targets@[index as int]));
            if color_targets@[index as int].load_op == RafxLoadOp::Clear {
                assert(take1[index as int] == color_targets@[index as int]);
            } else if spec_any_color_clear(take1) {
                let w = choose|i: int|
                    0 <= i < take1.len() && (#[trigger] take1[i]).load_op == RafxLoadOp::Clear;
                assert(color_targets@.take(index as int)[w] == take1[w]);
            }
            if spec_any_color_clear(color_targets@.take(index as int)) {
                let w = choose|i: int|
                    0 <= i < index && (#[trigger] color_targets@.take(index as int)[i]).load_op
                        == RafxLoadOp::Clear;
                assert(take1[w] == color_targets@.take(index as int)[w]);
            }
        }
        index = index + 1;
    }
    assert(color_targets@.take(n as int) =~= color_targets@);
    assert(commands@ =~= spec_color_target_commands(color_targets@, n as nat));
    (commands, color_clear, extents)
}

/// The calls for the depth/stencil target, and whether it clears depth and stencil.
fn depth_target_commands(d: &RafxDepthStencilRenderTargetBinding) -> (r: (Vec<GlCommand>, bool, bool))
    requires
        render_target_valid(d.texture, d.array_slice),
    ensures
        r.0@ == spec_depth_target_commands(*d),
        r.1 == (d.has_depth && d.depth_load_op == RafxLoadOp::Clear),
        r.2 == (d.has_stencil && d.stencil_load_op == RafxLoadOp::Clear),
{
    let mut commands: Vec<GlCommand> = Vec::new();
    let mut depth_clear = false;
    let mut stencil_clear = false;
    let array_slice = match d.array_slice {
        Some(v) => v,
        None => 0,
    };
    let mip_slice = match d.mip_slice {
        Some(v) => v,
        None => 0,
    };
    if d.has_depth {
        push_all(
            &mut commands,
            bind_framebuffer(d.texture, gles20::DEPTH_ATTACHMENT, array_slice, mip_slice),
        );
        if d.depth_load_op == RafxLoadOp::Clear {
            commands.push(GlCommand::ClearDepth { depth_bits: d.clear_value.depth_bits });
            depth_clear = true;
        }
    }
    let ghost c1 = commands@;
    if d.has_stencil {
        push_all(
            &mut commands,
            bind_framebuffer(d.texture, gles20::STENCIL_ATTACHMENT, array_slice, mip_slice),
        );
        if d.stencil_load_op == RafxLoadOp::Clear {
            commands.push(GlCommand::ClearStencil(d.clear_value.stencil as i32));
            stencil_clear = true;
        }
    }
    assert(commands@ =~= spec_depth_target_commands(*d));
    (commands, depth_clear, stencil_clear)
}

/// Marks the first `used` color attachments attached and detaches the others that were.
fn update_color_bound(bound: &mut Vec<bool>, used: usize) -> (r: Vec<GlCommand>)
    requires
        old(bound)@.len() == MAX_RENDER_TARGET_ATTACHMENTS,
    ensures
        final(bound)@ == Seq::new(8, |j: int| j < used),
        r@ == spec_color_unbind_commands(old(bound)@, used as nat, 8),
{
    let ghost o = bound@;
    let mut commands: Vec<GlCommand> = Vec::new();
    let mut i: usize = 0;
    while i < MAX_RENDER_TARGET_ATTACHMENTS
        invariant
            i <= MAX_RENDER_TARGET_ATTACHMENTS,
            bound@.len() == MAX_RENDER_TARGET_ATTACHMENTS,
            o.len() == MAX_RENDER_TARGET_ATTACHMENTS,
            forall|j: int| 0 <= j < i ==> #[trigger] bound@[j] == (j < used),
            forall|j: int| i <= j < MAX_RENDER_TARGET_ATTACHMENTS ==> #[trigger] bound@[j] == o[j],
            commands@ == spec_color_unbind_commands(o, used as nat, i as nat),
        decreases MAX_RENDER_TARGET_ATTACHMENTS - i,
    {
        if i < used {
            bound.set(i, true);
        } else {
            if bound[i] {
                push_all(&mut commands, unbind_framebuffer(gles20::COLOR_ATTACHMENT0 + i as u32));
                bound.set(i, false);
            }
        }
        i = i + 1;
    }
    assert(bound@ =~= Seq::new(8, |j: int| j < used));
    commands
}

impl RafxCommandBufferGles3 {
    /// A command buffer recording into the given pool state.
    pub fn new(command_pool_state: CommandPoolGles3StateInner) -> (r: RafxResult<
        RafxCommandBufferGles3,
    >)
        ensures
            r matches Ok(cb) && cb.command_pool_state == command_pool_state,
    {
        Ok(RafxCommandBufferGles3 { command_pool_state })
    }

    pub fn begin(&mut self) -> (r: RafxResult<()>)
        requires
            !old(self).command_pool_state.is_started,
        ensures
            r is Ok,
            final(self).command_pool_state == (CommandPoolGles3StateInner {
                is_started: true,
                ..old(self).command_pool_state
            }),
    {
        self.command_pool_state.is_started = true;
        Ok(())
    }

    /// Ends recording: forgets the pipeline, the stencil reference and every binding, and
    /// disables the attribute arrays that are enabled. The framebuffer's attachments are kept.
    pub fn end(&mut self) -> (r: RafxResult<Vec<GlCommand>>)
        requires
            old(self).command_pool_state.wf(),
            old(self).command_pool_state.is_started,
            old(self).command_pool_state.surface_size is None,
            old(self).command_pool_state.descriptor_sets.can_advance(1),
        ensures
            ({
                let o = old(self).command_pool_state;
                let f = final(self).command_pool_state;
                &&& r matches Ok(cmds) && cmds@ == spec_attribute_toggles(
                    o.vertex.vertex_attribute_enabled_bits,
                    0,
                    o.vertex.vertex_attributes@.len(),
                )
                &&& f.wf()
                &&& f.id == o.id
                &&& f.framebuffer_id == o.framebuffer_id
                &&& f.framebuffer_color_bound == o.framebuffer_color_bound
                &&& f.framebuffer_depth_bound == o.framebuffer_depth_bound
                &&& f.framebuffer_stencil_bound == o.framebuffer_stencil_bound
                &&& !f.is_started
                &&& f.surface_size is None
                &&& f.current_gl_pipeline_info is None
                &&& f.stencil_reference_value == 0
                &&& f.descriptor_sets.bound_descriptor_sets@ == seq![
                    None::<BoundDescriptorSet>,
                    None::<BoundDescriptorSet>,
                    None::<BoundDescriptorSet>,
                    None::<BoundDescriptorSet>,
                ]
                &&& f.descriptor_sets.bound_descriptor_sets_root_signature is None
                &&& forall|i: int|
                    0 <= i < MAX_DESCRIPTOR_SET_LAYOUTS ==> #[trigger]
                    f.descriptor_sets.descriptor_sets_update_index@[i]
                        == o.descriptor_sets.descriptor_sets_update_index@[i] + 1
                &&& f.vertex.vertex_attribute_enabled_bits == 0
                &&& f.vertex.vertex_attributes@ == Seq::new(
                    o.vertex.vertex_attributes@.len(),
                    |i: int| None::<Gles3Attribute>,
                )
                &&& f.vertex.currently_bound_vertex_offset@ == Seq::new(16, |i: int| None::<i32>)
                &&& f.vertex.bound_vertex_buffers@ == Seq::new(
                    16,
                    |i: int| None::<BoundVertexBuffer>,
                )
                &&& f.index_buffer_byte_offset == 0
            }),
    {
        let state = &mut self.command_pool_state;
        state.is_started = false;
        state.current_gl_pipeline_info = None;
        state.stencil_reference_value = 0;
        state.descriptor_sets.clear_bindings();
        let cmds = state.vertex.update_vertex_attributes_in_use(0);
        state.vertex.forget_bindings();
        state.index_buffer_byte_offset = 0;
        Ok(cmds)
    }

    pub fn return_to_pool(&self) -> (r: RafxResult<()>)
        ensures
            r is Ok,
    {
        Ok(())
    }

    /// Attaches the render targets to the pool's framebuffer, detaches what a previous pass
    /// left attached, and sets the viewport and scissor to the targets' size. The framebuffer's
    /// completeness is checked next, by `finish_begin_render_pass`.
    #[verifier::rlimit(60)]
    pub fn cmd_begin_render_pass(
        &mut self,
        color_targets: &Vec<RafxColorRenderTargetBinding>,
        depth_target: Option<RafxDepthStencilRenderTargetBinding>,
    ) -> (r: RafxResult<RenderPassBegin>)
        requires
            old(self).command_pool_state.wf(),
            old(self).command_pool_state.is_started,
            color_targets@.len() + gles20::COLOR_ATTACHMENT0 <= u32::MAX,
            forall|i: int|
                0 <= i < color_targets@.len() ==> render_target_valid(
                    (#[trigger] color_targets@[i]).texture,
                    color_targets@[i].array_slice,
                ),
            depth_target matches Some(d) ==> render_target_valid(d.texture, d.array_slice),
        ensures
            ({
                let o = old(self).command_pool_state;
                let f = final(self).command_pool_state;
                let n = color_targets@.len();
                if n == 0 && depth_target is None {
                    &&& r == Err::<RenderPassBegin, RafxError>(RafxError::NoRenderTargets)
                    &&& f == o
                } else {
                    let has_depth = depth_target matches Some(d) && d.has_depth;
                    let has_stencil = depth_target matches Some(d) && d.has_stencil;
                    let extents = spec_render_extents(color_targets@, depth_target);
                    &&& r matches Ok(b) && {
                        &&& b.commands@ == seq![
                            GlCommand::UseProgram(ProgramId(gles20::NONE)),
                            GlCommand::BindFramebuffer {
                                target: gles20::FRAMEBUFFER,
                                framebuffer: o.framebuffer_id,
                            },
                        ] + spec_color_target_commands(color_targets@, n)
                            + spec_color_unbind_commands(o.framebuffer_color_bound@, n, 8) + (
                        match depth_target {
                            Some(d) => spec_depth_target_commands(d),
                            None => Seq::empty(),
                        }) + (if o.framebuffer_depth_bound && !has_depth {
                            spec_unbind_framebuffer(gles20::DEPTH_ATTACHMENT)
                        } else {
                            Seq::empty()
                        }) + (if o.framebuffer_stencil_bound && !has_stencil {
                            spec_unbind_framebuffer(gles20::STENCIL_ATTACHMENT)
                        } else {
                            Seq::empty()
                        }) + spec_viewport_commands(extents)
                        &&& b.clear_mask == spec_pass_clear_mask(color_targets@, depth_target)
                        &&& b.extents == extents
                    }
                    &&& f.framebuffer_color_bound@ == Seq::new(8, |i: int| i < n)
                    &&& f.framebuffer_depth_bound == (o.framebuffer_depth_bound && has_depth)
                    &&& f.framebuffer_stencil_bound == (o.framebuffer_stencil_bound && has_stencil)
                    &&& f == (CommandPoolGles3StateInner {
                        framebuffer_color_bound: f.framebuffer_color_bound,
                        framebuffer_depth_bound: f.framebuffer_depth_bound,
                        framebuffer_stencil_bound: f.framebuffer_stencil_bound,
                        ..o
                    })
                }
            }),
    {
        let n = color_targets.len();
        if n == 0 && depth_target.is_none() {
            return Err(RafxError::NoRenderTargets);
        }
        let ghost o = self.command_pool_state;
        let mut commands: Vec<GlCommand> = vec![
            GlCommand::UseProgram(ProgramId(gles20::NONE)),
            GlCommand::BindFramebuffer {
                target: gles20::FRAMEBUFFER,
                framebuffer: self.command_pool_state.framebuffer_id,
            },
        ];
        let ghost prefix = commands@;
        let (color_commands, color_clear, color_extents) = color_target_commands(color_targets);
        push_all(&mut commands, color_commands);
        let mut extents = color_extents;
        let ghost c1 = commands@;
        let state = &mut self.command_pool_state;
        push_all(&mut commands, update_color_bound(&mut state.framebuffer_color_bound, n));
        let ghost c2 = commands@;
        let mut has_depth = false;
        let mut has_stencil = false;
        let mut depth_clear = false;
        let mut stencil_clear = false;
        match depth_target {
            Some(d) => {
                let (depth_commands, dc, sc) = depth_target_commands(&d);
                push_all(&mut commands, depth_commands);
                depth_clear = dc;
                stencil_clear = sc;
                has_depth = d.has_depth;
                has_stencil = d.has_stencil;
                if d.has_depth || d.has_stencil {
                    extents = d.texture.extents;
                }
            },
            None => {},
        }
        assert(commands@ =~= c2 + match depth_target {
            Some(d) => spec_depth_target_commands(d),
            None => Seq::<GlCommand>::empty(),
        });
        let ghost c3 = commands@;
        if state.framebuffer_depth_bound && !has_depth {
            push_all(&mut commands, unbind_framebuffer(gles20::DEPTH_ATTACHMENT));
            state.framebuffer_depth_bound = false;
        }
        let ghost du = if o.framebuffer_depth_bound && !has_depth {
            spec_unbind_framebuffer(gles20::DEPTH_ATTACHMENT)
        } else {
            Seq::empty()
        };
        assert(commands@ =~= c3 + du);
        let ghost c4 = commands@;
        if state.framebuffer_stencil_bound && !has_stencil {
            push_all(&mut commands, unbind_framebuffer(gles20::STENCIL_ATTACHMENT));
            state.framebuffer_stencil_bound = false;
        }
        let ghost su = if o.framebuffer_stencil_bound && !has_stencil {
            spec_unbind_framebuffer(gles20::STENCIL_ATTACHMENT)
        } else {
            Seq::empty()
        };
        assert(commands@ =~= c4 + su);
        let ghost c5 = commands@;
        assert(extents == spec_render_extents(color_targets@, depth_target));
        assert(has_depth == (depth_target matches Some(d) && d.has_depth));
        assert(has_stencil == (depth_target matches Some(d) && d.has_stencil));
        commands.push(
            GlCommand::Viewport {
                x: 0,
                y: 0,
                width: extents.width as i32,
                height: extents.height as i32,
            },
        );
        commands.push(GlCommand::DepthRange { near_bits: 0, far_bits: ONE_F32_BITS });
        commands.push(
            GlCommand::Scissor {
                x: 0,
                y: 0,
                width: extents.width as i32,
                height: extents.height as i32,
            },
        );
        let clear_mask = (if color_clear {
            gles20::COLOR_BUFFER_BIT
        } else {
            0u32
        }) | (if depth_clear {
            gles20::DEPTH_BUFFER_BIT
        } else {
            0u32
        }) | (if stencil_clear {
            gles20::STENCIL_BUFFER_BIT
        } else {
            0u32
        });
        assert(commands@ =~= c5 + spec_viewport_commands(extents));
        Ok(RenderPassBegin { commands, clear_mask, extents })
    }

    /// Completes beginning a render pass once GL has reported the framebuffer's status: fails
    /// unless it is complete, else clears what the pass clears and records the pass's size.
    pub fn finish_begin_render_pass(&mut self, begin: &RenderPassBegin, framebuffer_status: u32) -> (r:
        RafxResult<Vec<GlCommand>>)
        requires
            old(self).command_pool_state.is_started,
        ensures
            framebuffer_status != gles20::FRAMEBUFFER_COMPLETE ==> {
                &&& r == Err::<Vec<GlCommand>, RafxError>(
                    RafxError::FramebufferIncomplete(framebuffer_status),
                )
                &&& final(self).command_pool_state == old(self).command_pool_state
            },
            framebuffer_status == gles20::FRAMEBUFFER_COMPLETE ==> {
                &&& r matches Ok(cmds) && cmds@ == if begin.clear_mask != 0 {
                    seq![GlCommand::Clear(begin.clear_mask)]
                } else {
                    Seq::empty()
                }
                &&& final(self).command_pool_state == (CommandPoolGles3StateInner {
                    surface_size: Some(
                        RafxExtents2D { width: begin.extents.width, height: begin.extents.height },
                    ),
                    ..old(self).command_pool_state
                })
            },
    {
        if framebuffer_status != gles20::FRAMEBUFFER_COMPLETE {
            return Err(RafxError::FramebufferIncomplete(framebuffer_status));
        }
        let mut cmds: Vec<GlCommand> = Vec::new();
        if begin.clear_mask != 0 {
            cmds.push(GlCommand::Clear(begin.clear_mask));
        }
        assert(cmds@ =~= if begin.clear_mask != 0 {
            seq![GlCommand::Clear(begin.clear_mask)]
        } else {
            Seq::<GlCommand>::empty()
        });
        self.command_pool_state.surface_size = Some(begin.extents.to_2d());
        Ok(cmds)
    }

    pub fn cmd_end_render_pass(&mut self) -> (r: RafxResult<Vec<GlCommand>>)
        requires
            old(self).command_pool_state.is_started,
        ensures
            r matches Ok(cmds) && cmds@ == seq![
                GlCommand::BindFramebuffer {
                    target: gles20::FRAMEBUFFER,
                    framebuffer: FramebufferId(gles20::NONE),
                },
            ],
            final(self).command_pool_state == (CommandPoolGles3StateInner {
                surface_size: None,
                ..old(self).command_pool_state
            }),
    {
        self.command_pool_state.surface_size = None;
        let cmds = vec![
            GlCommand::BindFramebuffer {
                target: gles20::FRAMEBUFFER,
                framebuffer: FramebufferId(gles20::NONE),
            },
        ];
        assert(cmds@ =~= seq![
            GlCommand::BindFramebuffer {
                target: gles20::FRAMEBUFFER,
                framebuffer: FramebufferId(gles20::NONE),
            },
        ]);
        Ok(cmds)
    }

    pub fn cmd_set_scissor(&self, x: u32, y: u32, width: u32, height: u32) -> (r: RafxResult<
        Vec<GlCommand>,
    >)
        requires
            self.command_pool_state.is_started,
        ensures
            r matches Ok(cmds) && cmds@ == seq![
                GlCommand::Scissor {
                    x: x as i32,
                    y: y as i32,
                    width: width as i32,
                    height: height as i32,
                },
            ],
    {
        let cmds = vec![
            GlCommand::Scissor {
                x: x as i32,
                y: y as i32,
                width: width as i32,
                height: height as i32,
            },
        ];
        assert(cmds@ =~= seq![
            GlCommand::Scissor {
                x: x as i32,
                y: y as i32,
                width: width as i32,
                height: height as i32,
            },
        ]);
        Ok(cmds)
    }

    /// Records the stencil reference value, and applies it to the bound pipeline's stencil test.
    pub fn cmd_set_stencil_reference_value(&mut self, value: u32) -> (r: RafxResult<
        Vec<GlCommand>,
    >)
        requires
            old(self).command_pool_state.is_started,
        ensures
            r matches Ok(cmds) && cmds@ == match old(
                self,
            ).command_pool_state.current_gl_pipeline_info {
                Some(info) => spec_stencil_compare_ref_mask(info.gl_depth_stencil_state, value),
                None => Seq::empty(),
            },
            final(self).command_pool_state == (CommandPoolGles3StateInner {
                stencil_reference_value: value,
                ..old(self).command_pool_state
            }),
    {
        self.command_pool_state.stencil_reference_value = value;
        let cmds = match &self.command_pool_state.current_gl_pipeline_info {
            Some(info) => stencil_compare_ref_mask(&info.gl_depth_stencil_state, value),
            None => Vec::new(),
        };
        assert(cmds@ =~= match self.command_pool_state.current_gl_pipeline_info {
            Some(info) => spec_stencil_compare_ref_mask(info.gl_depth_stencil_state, value),
            None => Seq::<GlCommand>::empty(),
        });
        Ok(cmds)
    }

    /// Makes the pipeline current and sets up GL's fixed-function state for it.
    pub fn cmd_bind_pipeline(&mut self, pipeline: Gles3PipelineInfo) -> (r: RafxResult<
        Vec<GlCommand>,
    >)
        requires
            old(self).command_pool_state.is_started,
        ensures
            r matches Ok(cmds) && cmds@ == spec_bind_pipeline_commands(
                pipeline,
                old(self).command_pool_state.stencil_reference_value,
            ),
            final(self).command_pool_state == (CommandPoolGles3StateInner {
                current_gl_pipeline_info: Some(pipeline),
                ..old(self).command_pool_state
            }),
    {
        let ghost p = pipeline;
        let stencil_reference_value = self.command_pool_state.stencil_reference_value;
        let mut cmds: Vec<GlCommand> = Vec::new();
        cmds.push(GlCommand::UseProgram(pipeline.program_id));
        push_all(&mut cmds, rasterizer_commands(&pipeline.gl_rasterizer_state));
        push_all(
            &mut cmds,
            depth_stencil_commands(&pipeline.gl_depth_stencil_state, stencil_reference_value),
        );
        push_all(&mut cmds, blend_commands(&pipeline.gl_blend_state));
        let flags = pipeline.color_flags;
        cmds.push(
            GlCommand::ColorMask {
                red: flags.intersects(RafxColorFlags::RED),
                green: flags.intersects(RafxColorFlags::GREEN),
                blue: flags.intersects(RafxColorFlags::BLUE),
                alpha: flags.intersects(RafxColorFlags::ALPHA),
            },
        );
        assert(cmds@ =~= spec_bind_pipeline_commands(p, stencil_reference_value));
        self.command_pool_state.current_gl_pipeline_info = Some(pipeline);
        Ok(cmds)
    }

    /// Binds an index buffer of 16-bit indices.
    pub fn cmd_bind_index_buffer(&mut self, binding: &RafxIndexBufferBinding) -> (r: RafxResult<
        Vec<GlCommand>,
    >)
        requires
            old(self).command_pool_state.is_started,
            binding.index_type == RafxIndexType::Uint16,
            binding.buffer.resource_type.spec_intersects(RafxResourceType::INDEX_BUFFER)
                ==> binding.buffer.buffer_id is Some,
        ensures
            !binding.buffer.resource_type.spec_intersects(RafxResourceType::INDEX_BUFFER) ==> {
                &&& r == Err::<Vec<GlCommand>, RafxError>(RafxError::NotAnIndexBuffer)
                &&& final(self).command_pool_state == old(self).command_pool_state
            },
            binding.buffer.resource_type.spec_intersects(RafxResourceType::INDEX_BUFFER) ==> {
                &&& r matches Ok(cmds) && cmds@ == seq![
                    GlCommand::BindBuffer {
                        target: gles20::ELEMENT_ARRAY_BUFFER,
                        buffer: binding.buffer.buffer_id->Some_0,
                    },
                ]
                &&& final(self).command_pool_state == (CommandPoolGles3StateInner {
                    index_buffer_byte_offset: binding.byte_offset as u32,
                    ..old(self).command_pool_state
                })
            },
    {
        if !binding.buffer.resource_type.intersects(RafxResourceType::INDEX_BUFFER) {
            return Err(RafxError::NotAnIndexBuffer);
        }
        self.command_pool_state.index_buffer_byte_offset = binding.byte_offset as u32;
        let buffer = match binding.buffer.buffer_id {
            Some(id) => id,
            None => BufferId(gles20::NONE),
        };
        let cmds = vec![GlCommand::BindBuffer { target: gles20::ELEMENT_ARRAY_BUFFER, buffer }];
        assert(cmds@ =~= seq![
            GlCommand::BindBuffer {
                target: gles20::ELEMENT_ARRAY_BUFFER,
                buffer: binding.buffer.buffer_id->Some_0,
            },
        ]);
        Ok(cmds)
    }

    /// GL orders access to resources itself: a barrier records nothing.
    pub fn cmd_resource_barrier<B, T>(&self, buffer_barriers: &[B], texture_barriers: &[T]) -> (r:
        RafxResult<()>)
        ensures
            r is Ok,
    {
        Ok(())
    }
}


/// The vertex bindings after binding the first `k` of `bindings` from slot `first` on, the
/// attributes then in use, and whether every buffer was a vertex buffer. Binding stops at the
/// first buffer that is not.
pub open spec fn spec_bind_vertex_buffers(
    v: VertexBindingsView,
    in_use: u32,
    pipeline_attributes: Seq<Gles3Attribute>,
    first: u32,
    bindings: Seq<RafxVertexBufferBinding>,
    k: nat,
) -> (VertexBindingsView, u32, bool)
    decreases k,
{
    if k == 0 {
        (v, in_use, true)
    } else {
        let (v1, in_use1, ok1) = spec_bind_vertex_buffers(
            v,
            in_use,
            pipeline_attributes,
            first,
            bindings,
            (k - 1) as nat,
        );
        if !ok1 {
            (v1, in_use1, false)
        } else {
            let binding = bindings[k - 1];
            spec_bind_vertex_buffer(
                v1,
                in_use1,
                pipeline_attributes,
                (first + k - 1) as u32,
                binding.buffer.buffer_id,
                binding.buffer.resource_type.spec_intersects(RafxResourceType::VERTEX_BUFFER),
                binding.byte_offset,
            )
        }
    }
}

/// Binds vertex buffers to consecutive slots, stopping at the first that is not a vertex
/// buffer.
fn bind_vertex_buffers(
    vertex: &mut VertexBindings,
    in_use: u32,
    pipeline_attributes: &Vec<Gles3Attribute>,
    first_binding: u32,
    bindings: &Vec<RafxVertexBufferBinding>,
) -> (r: (u32, bool))
    requires
        old(vertex).wf(),
        first_binding + bindings@.len() <= old(vertex).vertex_attributes@.len(),
        first_binding + bindings@.len() <= MAX_VERTEX_INPUT_BINDINGS,
        attributes_fit(pipeline_attributes@, old(vertex).vertex_attributes@.len()),
        forall|i: int|
            0 <= i < bindings@.len() && (#[trigger] bindings@[i]).buffer.resource_type.spec_intersects(
                RafxResourceType::VERTEX_BUFFER,
            ) ==> bindings@[i].buffer.buffer_id is Some,
    ensures
        final(vertex).wf(),
        (final(vertex)@, r.0, r.1) == spec_bind_vertex_buffers(
            old(vertex)@,
            in_use,
            pipeline_attributes@,
            first_binding,
            bindings@,
            bindings@.len(),
        ),
{
    let ghost v0 = vertex@;
    let ghost n0 = vertex.vertex_attributes@.len();
    let mut in_use = in_use;
    let ghost in_use0 = in_use;
    let mut ok = true;
    let mut k: usize = 0;
    while ok && k < bindings.len()
        invariant
            k <= bindings@.len(),
            first_binding + bindings@.len() <= n0,
            first_binding + bindings@.len() <= MAX_VERTEX_INPUT_BINDINGS,
            vertex.wf(),
            vertex.vertex_attributes@.len() == n0,
            attributes_fit(pipeline_attributes@, n0),
            forall|i: int|
                0 <= i < bindings@.len() && (#[trigger] bindings@[i]).buffer.resource_type.spec_intersects(
                    RafxResourceType::VERTEX_BUFFER,
                ) ==> bindings@[i].buffer.buffer_id is Some,
            (vertex@, in_use, ok) == spec_bind_vertex_buffers(
                v0,
                in_use0,
                pipeline_attributes@,
                first_binding,
                bindings@,
                k as nat,
            ),
        decreases bindings@.len() - k,
    {
        let binding = &bindings[k];
        let is_vertex_buffer = binding.buffer.resource_type.intersects(
            RafxResourceType::VERTEX_BUFFER,
        );
        let (next_in_use, bound) = vertex.bind_vertex_buffer(
            in_use,
            pipeline_attributes,
            first_binding + k as u32,
            binding.buffer.buffer_id,
            is_vertex_buffer,
            binding.byte_offset,
        );
        assert(bindings@[k as int] == *binding);
        assert((first_binding + (k + 1) - 1) as u32 == first_binding + k as u32);
        in_use = next_in_use;
        ok = bound;
        k = k + 1;
    }
    if !ok {
        proof {
            lemma_bind_failure_stays(
                v0,
                in_use0,
                pipeline_attributes@,
                first_binding,
                bindings@,
                k as nat,
                bindings@.len(),
            );
        }
    }
    (in_use, ok)
}

proof fn lemma_record_keeps_length(
    attributes: Seq<Option<Gles3Attribute>>,
    pipeline_attributes: Seq<Gles3Attribute>,
    binding: u32,
    k: nat,
)
    requires
        k <= pipeline_attributes.len(),
        attributes_fit(pipeline_attributes, attributes.len()),
    ensures
        spec_record_attributes(attributes, pipeline_attributes, binding, k).len()
            == attributes.len(),
    decreases k,
{
    if k > 0 {
        lemma_record_keeps_length(attributes, pipeline_attributes, binding, (k - 1) as nat);
    }
}

/// Binding vertex buffers leaves the enabled arrays and the number of attribute slots alone.
proof fn lemma_bind_keeps_enabled(
    v: VertexBindingsView,
    in_use: u32,
    pipeline_attributes: Seq<Gles3Attribute>,
    first: u32,
    bindings: Seq<RafxVertexBufferBinding>,
    k: nat,
)
    requires
        attributes_fit(pipeline_attributes, v.attributes.len()),
    ensures
        ({
            let r = spec_bind_vertex_buffers(v, in_use, pipeline_attributes, first, bindings, k).0;
            &&& r.enabled_bits == v.enabled_bits
            &&& r.attributes.len() == v.attributes.len()
        }),
    decreases k,
{
    if k > 0 {
        lemma_bind_keeps_enabled(v, in_use, pipeline_attributes, first, bindings, (k - 1) as nat);
        let (v1, in_use1, ok1) = spec_bind_vertex_buffers(
            v,
            in_use,
            pipeline_attributes,
            first,
            bindings,
            (k - 1) as nat,
        );
        if ok1 {
            let b = (first + k - 1) as u32;
            let attributes = match v1.buffers[b as int] {
                Some(bb) => spec_forget_attributes(v1.attributes, bb.attribute_enabled_bits),
                None => v1.attributes,
            };
            lemma_record_keeps_length(attributes, pipeline_attributes, b, pipeline_attributes.len());
        }
    }
}

fn copy_attributes(attributes: &Vec<Gles3Attribute>) -> (r: Vec<Gles3Attribute>)
    ensures
        r@ == attributes@,
{
    let mut r: Vec<Gles3Attribute> = Vec::new();
    let mut i: usize = 0;
    while i < attributes.len()
        invariant
            i <= attributes@.len(),
            r@ == attributes@.take(i as int),
        decreases attributes@.len() - i,
    {
        r.push(attributes[i]);
        assert(r@ =~= attributes@.take(i + 1));
        i = i + 1;
    }
    assert(attributes@.take(i as int) =~= attributes@);
    r
}

/// Once a buffer is refused, binding further buffers changes nothing.
proof fn lemma_bind_failure_stays(
    v: VertexBindingsView,
    in_use: u32,
    pipeline_attributes: Seq<Gles3Attribute>,
    first: u32,
    bindings: Seq<RafxVertexBufferBinding>,
    k: nat,
    m: nat,
)
    requires
        k <= m,
        !spec_bind_vertex_buffers(v, in_use, pipeline_attributes, first, bindings, k).2,
    ensures
        spec_bind_vertex_buffers(v, in_use, pipeline_attributes, first, bindings, m)
            == spec_bind_vertex_buffers(v, in_use, pipeline_attributes, first, bindings, k),
    decreases m - k,
{
    if k < m {
        lemma_bind_failure_stays(v, in_use, pipeline_attributes, first, bindings, k, (m - 1) as nat);
    }
}

/// A descriptor set that a program must receive before drawing.
#[derive(Copy, Clone, Debug, PartialEq, Eq, Structural)]
pub struct PendingDescriptorSet {
    pub set_index: u32,
    pub descriptor_set: BoundDescriptorSet,
}

/// The calls of a draw: first the descriptor sets to push into the program, each by
/// `do_bind_descriptor_set`, then `commands`.
pub struct DrawCommands {
    pub descriptor_sets: Vec<PendingDescriptorSet>,
    pub commands: Vec<GlCommand>,
}

/// What a program has received: reset when another command pool bound into it last.
pub open spec fn spec_last_updates_seen(binding: Seq<u64>, last_bound_by: u32, pool_id: u32) -> Seq<
    u64,
> {
    if last_bound_by != pool_id {
        seq![0u64, 0u64, 0u64, 0u64]
    } else {
        binding
    }
}

/// Whether set `s` must be pushed into a program that has seen `last`.
pub open spec fn set_is_stale(
    ds: DescriptorSetBindings,
    last: Seq<u64>,
    root_signature_id: u32,
    s: int,
) -> bool {
    &&& ds.bound_descriptor_sets_root_signature == Some(root_signature_id)
    &&& ds.bound_descriptor_sets@[s] is Some
    &&& last[s] < ds.descriptor_sets_update_index@[s]
}

/// The stale sets below `k`, lowest first.
pub open spec fn spec_sets_to_bind(
    ds: DescriptorSetBindings,
    last: Seq<u64>,
    root_signature_id: u32,
    k: nat,
) -> Seq<PendingDescriptorSet>
    decreases k,
{
    if k == 0 {
        Seq::empty()
    } else {
        let s = k - 1;
        spec_sets_to_bind(ds, last, root_signature_id, (k - 1) as nat) + if set_is_stale(
            ds,
            last,
            root_signature_id,
            s,
        ) {
            seq![
                PendingDescriptorSet {
                    set_index: s as u32,
                    descriptor_set: ds.bound_descriptor_sets@[s]->Some_0,
                },
            ]
        } else {
            Seq::empty()
        }
    }
}

/// Works out which bound descriptor sets the pipeline's program has not received yet, and
/// records that it receives them.
pub fn ensure_pipeline_bindings_up_to_date(
    ds: &DescriptorSetBindings,
    pool_id: u32,
    root_signature_id: u32,
    binding: &mut PipelineBindingState,
) -> (r: Vec<PendingDescriptorSet>)
    requires
        ds.wf(),
        old(binding).last_descriptor_updates@.len() == MAX_DESCRIPTOR_SET_LAYOUTS,
    ensures
        ({
            let last = spec_last_updates_seen(
                old(binding).last_descriptor_updates@,
                old(binding).last_bound_by_command_pool,
                pool_id,
            );
            &&& r@ == spec_sets_to_bind(*ds, last, root_signature_id, 4)
            &&& final(binding).last_bound_by_command_pool == pool_id
            &&& final(binding).last_descriptor_updates@ == Seq::new(
                4,
                |s: int|
                    if set_is_stale(*ds, last, root_signature_id, s) {
                        ds.descriptor_sets_update_index@[s]
                    } else {
                        last[s]
                    },
            )
        }),
{
    if binding.last_bound_by_command_pool != pool_id {
        binding.last_bound_by_command_pool = pool_id;
        let mut s: usize = 0;
        while s < MAX_DESCRIPTOR_SET_LAYOUTS
            invariant
                s <= MAX_DESCRIPTOR_SET_LAYOUTS,
                binding.last_descriptor_updates@.len() == MAX_DESCRIPTOR_SET_LAYOUTS,
                forall|j: int| 0 <= j < s ==> #[trigger] binding.last_descriptor_updates@[j] == 0,
                binding.last_bound_by_command_pool == pool_id,
            decreases MAX_DESCRIPTOR_SET_LAYOUTS - s,
        {
            binding.last_descriptor_updates.set(s, 0);
            s = s + 1;
        }
        assert(binding.last_descriptor_updates@ =~= seq![0u64, 0u64, 0u64, 0u64]);
    }
    let ghost last = binding.last_descriptor_updates@;
    let mut r: Vec<PendingDescriptorSet> = Vec::new();
    let matches_root = match ds.bound_descriptor_sets_root_signature {
        Some(id) => id == root_signature_id,
        None => false,
    };
    let mut s: usize = 0;
    while s < MAX_DESCRIPTOR_SET_LAYOUTS
        invariant
            s <= MAX_DESCRIPTOR_SET_LAYOUTS,
            ds.wf(),
            last.len() == MAX_DESCRIPTOR_SET_LAYOUTS,
            binding.last_descriptor_updates@.len() == MAX_DESCRIPTOR_SET_LAYOUTS,
            binding.last_bound_by_command_pool == pool_id,
            matches_root == (ds.bound_descriptor_sets_root_signature == Some(root_signature_id)),
            forall|j: int|
                0 <= j < s ==> #[trigger] binding.last_descriptor_updates@[j] == if set_is_stale(
                    *ds,
                    last,
                    root_signature_id,
                    j,
                ) {
                    ds.descriptor_sets_update_index@[j]
                } else {
                    last[j]
                },
            forall|j: int|
                s <= j < MAX_DESCRIPTOR_SET_LAYOUTS ==> #[trigger] binding.last_descriptor_updates@[j]
                    == last[j],
            r@ == spec_sets_to_bind(*ds, last, root_signature_id, s as nat),
        decreases MAX_DESCRIPTOR_SET_LAYOUTS - s,
    {
        if matches_root {
            match ds.bound_descriptor_sets[s] {
                Some(bound) => {
                    if binding.last_descriptor_updates[s] < ds.descriptor_sets_update_index[s] {
                        r.push(PendingDescriptorSet { set_index: s as u32, descriptor_set: bound });
                        binding.last_descriptor_updates.set(s, ds.descriptor_sets_update_index[s]);
                    }
                },
                None => {},
            }
        }
        assert(r@ =~= spec_sets_to_bind(*ds, last, root_signature_id, (s + 1) as nat));
        s = s + 1;
    }
    assert(binding.last_descriptor_updates@ =~= Seq::new(
        4,
        |j: int|
            if set_is_stale(*ds, last, root_signature_id, j) {
                ds.descriptor_sets_update_index@[j]
            } else {
                last[j]
            },
    ));
    r
}


impl RafxCommandBufferGles3 {
    /// Binds vertex buffers to consecutive slots from `first_binding` on. The pipeline's
    /// attributes that read from a slot are recorded for it; their pointers are set at the next
    /// draw. Fails at the first buffer that is not a vertex buffer, with the slots before it
    /// bound.
    pub fn cmd_bind_vertex_buffers(
        &mut self,
        first_binding: u32,
        bindings: &Vec<RafxVertexBufferBinding>,
    ) -> (r: RafxResult<Vec<GlCommand>>)
        requires
            old(self).command_pool_state.wf(),
            old(self).command_pool_state.is_started,
            old(self).command_pool_state.current_gl_pipeline_info is Some,
            first_binding + bindings@.len()
                <= old(self).command_pool_state.vertex.vertex_attributes@.len(),
            first_binding + bindings@.len() <= MAX_VERTEX_INPUT_BINDINGS,
            attributes_fit(
                old(self).command_pool_state.current_gl_pipeline_info->Some_0.gl_attributes@,
                old(self).command_pool_state.vertex.vertex_attributes@.len(),
            ),
            forall|i: int|
                0 <= i < bindings@.len() && (#[trigger] bindings@[i]).buffer.resource_type.spec_intersects(
                    RafxResourceType::VERTEX_BUFFER,
                ) ==> bindings@[i].buffer.buffer_id is Some,
        ensures
            ({
                let o = old(self).command_pool_state;
                let f = final(self).command_pool_state;
                let (v, in_use, ok) = spec_bind_vertex_buffers(
                    o.vertex@,
                    o.vertex@.enabled_bits,
                    o.current_gl_pipeline_info->Some_0.gl_attributes@,
                    first_binding,
                    bindings@,
                    bindings@.len(),
                );
                &&& f.wf()
                &&& f == (CommandPoolGles3StateInner { vertex: f.vertex, ..o })
                &&& ok ==> {
                    &&& r matches Ok(cmds) && cmds@ == spec_attribute_toggles(
                        o.vertex@.enabled_bits,
                        in_use,
                        o.vertex@.attributes.len(),
                    )
                    &&& f.vertex@ == (VertexBindingsView { enabled_bits: in_use, ..v })
                }
                &&& !ok ==> {
                    &&& r == Err::<Vec<GlCommand>, RafxError>(RafxError::NotAVertexBuffer)
                    &&& f.vertex@ == v
                }
            }),
    {
        let pipeline_attributes = match &self.command_pool_state.current_gl_pipeline_info {
            Some(info) => copy_attributes(&info.gl_attributes),
            None => {
                return Err(RafxError::NotSupported);
            },
        };
        let in_use = self.command_pool_state.vertex.vertex_attribute_enabled_bits;
        let (in_use, ok) = bind_vertex_buffers(
            &mut self.command_pool_state.vertex,
            in_use,
            &pipeline_attributes,
            first_binding,
            bindings,
        );
        if !ok {
            return Err(RafxError::NotAVertexBuffer);
        }
        proof {
            lemma_bind_keeps_enabled(
                old(self).command_pool_state.vertex@,
                old(self).command_pool_state.vertex@.enabled_bits,
                pipeline_attributes@,
                first_binding,
                bindings@,
                bindings@.len(),
            );
        }
        let cmds = self.command_pool_state.vertex.update_vertex_attributes_in_use(in_use);
        Ok(cmds)
    }

    /// Draws `vertex_count` vertices from `first_vertex` on, after bringing the program's
    /// descriptor sets and the attribute pointers up to date.
    pub fn cmd_draw(
        &mut self,
        vertex_count: u32,
        first_vertex: u32,
        binding: &mut PipelineBindingState,
    ) -> (r: RafxResult<DrawCommands>)
        requires
            old(self).command_pool_state.wf(),
            old(self).command_pool_state.is_started,
            old(self).command_pool_state.current_gl_pipeline_info is Some,
            old(binding).last_descriptor_updates@.len() == MAX_DESCRIPTOR_SET_LAYOUTS,
            vertex_bindings_ready(old(self).command_pool_state.vertex@, 0),
        ensures
            ({
                let o = old(self).command_pool_state;
                let f = final(self).command_pool_state;
                let info = o.current_gl_pipeline_info->Some_0;
                let last = spec_last_updates_seen(
                    old(binding).last_descriptor_updates@,
                    old(binding).last_bound_by_command_pool,
                    o.id,
                );
                &&& r matches Ok(d) && {
                    &&& d.descriptor_sets@ == spec_sets_to_bind(
                        o.descriptor_sets,
                        last,
                        info.root_signature_id,
                        4,
                    )
                    &&& d.commands@ == spec_vertex_binding_commands(o.vertex@, 0, 16)
                        + spec_vertex_rebind_end(o.vertex@, 0) + seq![
                        GlCommand::DrawArrays {
                            mode: info.gl_topology,
                            first: first_vertex as i32,
                            count: vertex_count as i32,
                        },
                    ]
                }
                &&& f.wf()
                &&& f == (CommandPoolGles3StateInner { vertex: f.vertex, ..o })
                &&& f.vertex@ == spec_vertex_rebound(o.vertex@, 0)
                &&& spec_binding_updated(*old(binding), *final(binding), o, info.root_signature_id)
            }),
    {
        let state = &mut self.command_pool_state;
        let (root_signature_id, topology) = match &state.current_gl_pipeline_info {
            Some(info) => (info.root_signature_id, info.gl_topology),
            None => {
                return Err(RafxError::NotSupported);
            },
        };
        let descriptor_sets = ensure_pipeline_bindings_up_to_date(
            &state.descriptor_sets,
            state.id,
            root_signature_id,
            binding,
        );
        let mut commands = state.vertex.ensure_vertex_bindings_up_to_date(0);
        commands.push(
            GlCommand::DrawArrays {
                mode: topology,
                first: first_vertex as i32,
                count: vertex_count as i32,
            },
        );
        Ok(DrawCommands { descriptor_sets, commands })
    }

    /// Draws `index_count` 16-bit indices from `first_index` on, with `vertex_offset` added to
    /// each, after bringing the program's descriptor sets and the attribute pointers up to date.
    pub fn cmd_draw_indexed(
        &mut self,
        index_count: u32,
        first_index: u32,
        vertex_offset: i32,
        binding: &mut PipelineBindingState,
    ) -> (r: RafxResult<DrawCommands>)
        requires
            old(self).command_pool_state.wf(),
            old(self).command_pool_state.is_started,
            old(self).command_pool_state.current_gl_pipeline_info is Some,
            old(binding).last_descriptor_updates@.len() == MAX_DESCRIPTOR_SET_LAYOUTS,
            vertex_bindings_ready(old(self).command_pool_state.vertex@, vertex_offset),
            first_index * 2 + old(self).command_pool_state.index_buffer_byte_offset <= u32::MAX,
        ensures
            ({
                let o = old(self).command_pool_state;
                let f = final(self).command_pool_state;
                let info = o.current_gl_pipeline_info->Some_0;
                let last = spec_last_updates_seen(
                    old(binding).last_descriptor_updates@,
                    old(binding).last_bound_by_command_pool,
                    o.id,
                );
                &&& r matches Ok(d) && {
                    &&& d.descriptor_sets@ == spec_sets_to_bind(
                        o.descriptor_sets,
                        last,
                        info.root_signature_id,
                        4,
                    )
                    &&& d.commands@ == spec_vertex_binding_commands(o.vertex@, vertex_offset, 16)
                        + spec_vertex_rebind_end(o.vertex@, vertex_offset) + seq![
                        GlCommand::DrawElements {
                            mode: info.gl_topology,
                            count: index_count as i32,
                            index_type: gles20::UNSIGNED_SHORT,
                            byte_offset: (first_index * 2 + o.index_buffer_byte_offset) as u32,
                        },
                    ]
                }
                &&& f.wf()
                &&& f == (CommandPoolGles3StateInner { vertex: f.vertex, ..o })
                &&& f.vertex@ == spec_vertex_rebound(o.vertex@, vertex_offset)
                &&& spec_binding_updated(*old(binding), *final(binding), o, info.root_signature_id)
            }),
    {
        let state = &mut self.command_pool_state;
        let (root_signature_id, topology) = match &state.current_gl_pipeline_info {
            Some(info) => (info.root_signature_id, info.gl_topology),
            None => {
                return Err(RafxError::NotSupported);
            },
        };
        let descriptor_sets = ensure_pipeline_bindings_up_to_date(
            &state.descriptor_sets,
            state.id,
            root_signature_id,
            binding,
        );
        let mut commands = state.vertex.ensure_vertex_bindings_up_to_date(vertex_offset);
        let index_byte_offset = first_index * 2 + state.index_buffer_byte_offset;
        commands.push(
            GlCommand::DrawElements {
                mode: topology,
                count: index_count as i32,
                index_type: gles20::UNSIGNED_SHORT,
                byte_offset: index_byte_offset,
            },
        );
        Ok(DrawCommands { descriptor_sets, commands })
    }
}

/// The call that ends rebinding vertex buffers, if any buffer was rebound.
pub open spec fn spec_vertex_rebind_end(v: VertexBindingsView, vertex_offset: i32) -> Seq<GlCommand> {
    if exists|k: int| 0 <= k < MAX_VERTEX_INPUT_BINDINGS && #[trigger] needs_rebind(v, k, vertex_offset) {
        seq![GlCommand::BindBuffer { target: gles20::ARRAY_BUFFER, buffer: BufferId(gles20::NONE) }]
    } else {
        Seq::empty()
    }
}

/// The vertex bindings once every bound buffer is set up for `vertex_offset`.
pub open spec fn spec_vertex_rebound(v: VertexBindingsView, vertex_offset: i32) -> VertexBindingsView {
    VertexBindingsView {
        offsets: Seq::new(
            16,
            |k: int|
                if v.buffers[k] is Some {
                    Some(vertex_offset)
                } else {
                    v.offsets[k]
                },
        ),
        ..v
    }
}

/// A program's record after it received the stale descriptor sets of a pool.
pub open spec fn spec_binding_updated(
    before: PipelineBindingState,
    after: PipelineBindingState,
    pool: CommandPoolGles3StateInner,
    root_signature_id: u32,
) -> bool {
    let last = spec_last_updates_seen(
        before.last_descriptor_updates@,
        before.last_bound_by_command_pool,
        pool.id,
    );
    &&& after.last_bound_by_command_pool == pool.id
    &&& after.last_descriptor_updates@ == Seq::new(
        4,
        |s: int|
            if set_is_stale(pool.descriptor_sets, last, root_signature_id, s) {
                pool.descriptor_sets.descriptor_sets_update_index@[s]
            } else {
                last[s]
            },
    )
}


impl RafxCommandBufferGles3 {
    /// Binds a set of a descriptor set array for the draws that follow; programs receive it
    /// when they next draw.
    pub fn cmd_bind_descriptor_set(
        &mut self,
        descriptor_set_array: &RafxDescriptorSetArrayGles2,
        index: u32,
    ) -> (r: RafxResult<()>)
        requires
            old(self).command_pool_state.wf(),
            old(self).command_pool_state.is_started,
            old(self).command_pool_state.descriptor_sets.can_advance(2),
            descriptor_set_array.set_index < MAX_DESCRIPTOR_SET_LAYOUTS,
        ensures
            r is Ok,
            final(self).command_pool_state.wf(),
            final(self).command_pool_state == (CommandPoolGles3StateInner {
                descriptor_sets: final(self).command_pool_state.descriptor_sets,
                ..old(self).command_pool_state
            }),
            spec_descriptor_set_bound(
                old(self).command_pool_state.descriptor_sets,
                final(self).command_pool_state.descriptor_sets,
                descriptor_set_array.root_signature_id,
                descriptor_set_array.set_index,
                BoundDescriptorSet {
                    descriptor_set_array_id: descriptor_set_array.id,
                    array_index: index,
                },
            ),
    {
        self.command_pool_state.descriptor_sets.set_current_descriptor_set(
            descriptor_set_array.root_signature_id,
            descriptor_set_array.set_index,
            BoundDescriptorSet { descriptor_set_array_id: descriptor_set_array.id, array_index: index },
        );
        Ok(())
    }

    /// Binds one set of a descriptor set array, given by its handle, as a set of a root
    /// signature.
    pub fn cmd_bind_descriptor_set_handle(
        &mut self,
        root_signature_id: u32,
        set_index: u32,
        descriptor_set_handle: &RafxDescriptorSetHandleGles2,
    ) -> (r: RafxResult<()>)
        requires
            old(self).command_pool_state.wf(),
            old(self).command_pool_state.is_started,
            old(self).command_pool_state.descriptor_sets.can_advance(2),
            set_index < MAX_DESCRIPTOR_SET_LAYOUTS,
        ensures
            r is Ok,
            final(self).command_pool_state.wf(),
            final(self).command_pool_state == (CommandPoolGles3StateInner {
                descriptor_sets: final(self).command_pool_state.descriptor_sets,
                ..old(self).command_pool_state
            }),
            spec_descriptor_set_bound(
                old(self).command_pool_state.descriptor_sets,
                final(self).command_pool_state.descriptor_sets,
                root_signature_id,
                set_index,
                BoundDescriptorSet {
                    descriptor_set_array_id: descriptor_set_handle.descriptor_set_array_id,
                    array_index: descriptor_set_handle.array_index,
                },
            ),
    {
        self.command_pool_state.descriptor_sets.set_current_descriptor_set(
            root_signature_id,
            set_index,
            BoundDescriptorSet {
                descriptor_set_array_id: descriptor_set_handle.descriptor_set_array_id,
                array_index: descriptor_set_handle.array_index,
            },
        );
        Ok(())
    }
}


/// Without a buffer to rebind below slot `k`, rebinding makes no call.
proof fn lemma_no_rebind_no_commands(v: VertexBindingsView, vertex_offset: i32, k: nat)
    requires
        forall|j: int| 0 <= j < k ==> !#[trigger] needs_rebind(v, j, vertex_offset),
    ensures
        spec_vertex_binding_commands(v, vertex_offset, k) == Seq::<GlCommand>::empty(),
    decreases k,
{
    if k > 0 {
        lemma_no_rebind_no_commands(v, vertex_offset, (k - 1) as nat);
        assert(!needs_rebind(v, k - 1, vertex_offset));
        assert(spec_vertex_binding_commands(v, vertex_offset, k) =~= Seq::<GlCommand>::empty());
    }
}

/// Once the attribute pointers are set up for a vertex offset, drawing again with that offset
/// sets none up and makes no vertex buffer call.
pub proof fn lemma_vertex_rebinding_idempotent(v: VertexBindingsView, vertex_offset: i32)
    requires
        v.buffers.len() == MAX_VERTEX_INPUT_BINDINGS,
        v.offsets.len() == MAX_VERTEX_INPUT_BINDINGS,
    ensures
        spec_vertex_rebound(spec_vertex_rebound(v, vertex_offset), vertex_offset)
            == spec_vertex_rebound(v, vertex_offset),
        spec_vertex_binding_commands(spec_vertex_rebound(v, vertex_offset), vertex_offset, 16)
            == Seq::<GlCommand>::empty(),
        spec_vertex_rebind_end(spec_vertex_rebound(v, vertex_offset), vertex_offset)
            == Seq::<GlCommand>::empty(),
{
    let w = spec_vertex_rebound(v, vertex_offset);
    assert forall|j: int| 0 <= j < 16 implies !#[trigger] needs_rebind(w, j, vertex_offset) by {}
    lemma_no_rebind_no_commands(w, vertex_offset, 16);
    assert(spec_vertex_rebound(w, vertex_offset).offsets =~= w.offsets);
}

/// With no stale set below `k`, no set is pushed.
proof fn lemma_no_stale_sets(ds: DescriptorSetBindings, last: Seq<u64>, root_signature_id: u32, k: nat)
    requires
        forall|s: int| 0 <= s < k ==> !#[trigger] set_is_stale(ds, last, root_signature_id, s),
    ensures
        spec_sets_to_bind(ds, last, root_signature_id, k) == Seq::<PendingDescriptorSet>::empty(),
    decreases k,
{
    if k > 0 {
        lemma_no_stale_sets(ds, last, root_signature_id, (k - 1) as nat);
        assert(!set_is_stale(ds, last, root_signature_id, k - 1));
        assert(spec_sets_to_bind(ds, last, root_signature_id, k) =~= Seq::<
            PendingDescriptorSet,
        >::empty());
    }
}

/// A program that has just received a pool's descriptor sets needs none of them again until
/// the pool binds anew: a second draw pushes no descriptor set.
pub proof fn lemma_descriptor_sets_pushed_once(
    before: PipelineBindingState,
    after: PipelineBindingState,
    pool: CommandPoolGles3StateInner,
    root_signature_id: u32,
)
    requires
        pool.descriptor_sets.wf(),
        spec_binding_updated(before, after, pool, root_signature_id),
    ensures
        spec_sets_to_bind(
            pool.descriptor_sets,
            spec_last_updates_seen(
                after.last_descriptor_updates@,
                after.last_bound_by_command_pool,
                pool.id,
            ),
            root_signature_id,
            4,
        ) == Seq::<PendingDescriptorSet>::empty(),
{
    let last = spec_last_updates_seen(
        after.last_descriptor_updates@,
        after.last_bound_by_command_pool,
        pool.id,
    );
    assert(last == after.last_descriptor_updates@);
    assert forall|s: int| 0 <= s < 4 implies !#[trigger] set_is_stale(
        pool.descriptor_sets,
        last,
        root_signature_id,
        s,
    ) by {}
    lemma_no_stale_sets(pool.descriptor_sets, last, root_signature_id, 4);
}

/// The detach calls below `n` only name color attachments below `n`.
proof fn lemma_unbinds_below(bound: Seq<bool>, used: nat, n: nat, i: nat)
    requires
        i >= n,
        i < 8,
    ensures
        !spec_color_unbind_commands(bound, used, n).contains(
            spec_unbind_framebuffer((gles20::COLOR_ATTACHMENT0 + i) as u32)[0],
        ),
    decreases n,
{
    if n > 0 {
        lemma_unbinds_below(bound, used, (n - 1) as nat, i);
        let t = spec_color_unbind_commands(bound, used, n);
        let rest = spec_color_unbind_commands(bound, used, (n - 1) as nat);
        let c = spec_unbind_framebuffer((gles20::COLOR_ATTACHMENT0 + i) as u32)[0];
        if t.contains(c) {
            let j = choose|j: int| 0 <= j < t.len() && t[j] == c;
            if j < rest.len() {
                assert(rest[j] == c);
            } else {
                assert(t[j] == spec_unbind_framebuffer(
                    (gles20::COLOR_ATTACHMENT0 + (n - 1)) as u32,
                )[0]);
            }
        }
    }
}

/// A render pass with `used` color targets, after passes that left the first `prev` color
/// attachments attached, detaches exactly the attachments from `used` up to `prev`.
pub proof fn lemma_detaches_exactly_unused_attachments(prev: nat, used: nat, i: nat)
    requires
        prev <= 8,
        i < 8,
    ensures
        spec_color_unbind_commands(Seq::new(8, |j: int| j < prev), used, 8).contains(
            spec_unbind_framebuffer((gles20::COLOR_ATTACHMENT0 + i) as u32)[0],
        ) <==> (used <= i && i < prev),
{
    lemma_unbind_at(Seq::new(8, |j: int| j < prev), used, 8, i);
}

proof fn lemma_unbind_at(bound: Seq<bool>, used: nat, n: nat, i: nat)
    requires
        i < n,
        n <= bound.len(),
        n <= 8,
    ensures
        spec_color_unbind_commands(bound, used, n).contains(
            spec_unbind_framebuffer((gles20::COLOR_ATTACHMENT0 + i) as u32)[0],
        ) <==> (used <= i && bound[i as int]),
    decreases n,
{
    let t = spec_color_unbind_commands(bound, used, n);
    let rest = spec_color_unbind_commands(bound, used, (n - 1) as nat);
    let last = (n - 1) as nat;
    let tail = if last >= used && bound[last as int] {
        spec_unbind_framebuffer((gles20::COLOR_ATTACHMENT0 + last) as u32)
    } else {
        Seq::<GlCommand>::empty()
    };
    let c = spec_unbind_framebuffer((gles20::COLOR_ATTACHMENT0 + i) as u32)[0];
    assert(t == rest + tail);
    assert(t.contains(c) <==> (rest.contains(c) || tail.contains(c))) by {
        if t.contains(c) {
            let j = choose|j: int| 0 <= j < t.len() && t[j] == c;
            if j < rest.len() {
                assert(rest[j] == c);
            } else {
                assert(tail[j - rest.len()] == c);
            }
        }
        if rest.contains(c) {
            let j = choose|j: int| 0 <= j < rest.len() && rest[j] == c;
            assert(t[j] == c);
        }
        if tail.contains(c) {
            let j = choose|j: int| 0 <= j < tail.len() && tail[j] == c;
            assert(t[rest.len() + j] == c);
        }
    }
    if i == last {
        lemma_unbinds_below(bound, used, (n - 1) as nat, i);
        if used <= i && bound[i as int] {
            assert(tail[0] == c);
        }
    } else {
        lemma_unbind_at(bound, used, (n - 1) as nat, i);
        if tail.contains(c) {
            let j = choose|j: int| 0 <= j < tail.len() && tail[j] == c;
            assert(tail[j] == spec_unbind_framebuffer((gles20::COLOR_ATTACHMENT0 + last) as u32)[0]);
        }
    }
}


/// Where in a texture the bytes of a buffer are copied to.
#[derive(Copy, Clone, Debug, PartialEq, Eq, Structural)]
pub struct RafxCmdCopyBufferToTextureParams {
    pub buffer_offset: u64,
    pub array_layer: u16,
    pub mip_level: u8,
}

/// The size of a mip level along one axis: halved per level, and never below one texel.
pub open spec fn spec_mip_extent(extent: u32, mip_level: u8) -> u32 {
    let e = extent >> mip_level;
    if e < 1 {
        1
    } else {
        e
    }
}

/// Mip level 0 has the texture's own size (at least one texel), and each further level is half
/// the one before it, rounded down, but never below one texel.
pub proof fn lemma_mip_extent_halves_per_level(extent: u32, mip_level: u8)
    ensures
        spec_mip_extent(extent, 0) == if extent == 0 {
            1
        } else {
            extent
        },
        1 <= spec_mip_extent(extent, mip_level),
        mip_level < 31 ==> spec_mip_extent(extent, (mip_level + 1) as u8) == if spec_mip_extent(
            extent,
            mip_level,
        ) / 2 == 0 {
            1
        } else {
            spec_mip_extent(extent, mip_level) / 2
        },
{
    assert(extent >> 0u8 == extent) by (bit_vector);
    if mip_level < 31 {
        let next = (mip_level + 1) as u8;
        assert(extent >> next == (extent >> mip_level) / 2) by (bit_vector)
            requires
                mip_level < 31,
                next == mip_level + 1,
        ;
    }
}

/// The target that receives a copy: the layer's face for a cube map, else the texture's own.
pub open spec fn spec_copy_subtarget(texture: Gles3TextureInfo, array_layer: u16) -> GLenum {
    if texture.gl_target == gles20::TEXTURE_CUBE_MAP {
        spec_cube_map_target(array_layer)
    } else {
        texture.gl_target
    }
}

/// An upload into a cube map (GL's TEXTURE_CUBE_MAP, 0x8513) goes to the face of its layer:
/// layer `l` to TEXTURE_CUBE_MAP_POSITIVE_X (0x8515) plus `l`, so that distinct layers reach
/// distinct faces. Into any other texture it goes to the texture's own target.
pub proof fn lemma_copy_reaches_the_layer_face(texture: Gles3TextureInfo, array_layer: u16)
    ensures
        texture.gl_target == 0x8513u32 && array_layer < 6 ==> spec_copy_subtarget(
            texture,
            array_layer,
        ) == 0x8515u32 + array_layer,
        texture.gl_target != 0x8513u32 ==> spec_copy_subtarget(texture, array_layer)
            == texture.gl_target,
{
    lemma_cube_map_target_is_face(array_layer);
}

impl RafxCommandBufferGles3 {
    /// Copies `size` bytes of the source buffer's CPU copy, from `src_offset`, into the
    /// destination's GL buffer object at `dst_offset`. The returned calls take the bytes from
    /// the source buffer's CPU copy.
    pub fn cmd_copy_buffer_to_buffer(
        &self,
        src_buffer: &RafxBufferGles3,
        dst_buffer: &RafxBufferGles3,
        src_offset: u64,
        dst_offset: u64,
        size: u64,
    ) -> (r: RafxResult<Vec<GlCommand>>)
        requires
            self.command_pool_state.is_started,
            dst_buffer.buffer_id is Some,
            src_buffer.buffer_contents matches Some(c) && src_offset + size <= c@.len(),
        ensures
            r matches Ok(cmds) && cmds@ == seq![
                GlCommand::BindBuffer {
                    target: dst_buffer.target,
                    buffer: dst_buffer.buffer_id->Some_0,
                },
                GlCommand::BufferSubData {
                    target: dst_buffer.target,
                    dst_offset,
                    src_offset,
                    size,
                },
                GlCommand::BindBuffer { target: dst_buffer.target, buffer: BufferId(gles20::NONE) },
            ],
    {
        let target = dst_buffer.gl_target();
        let id = match dst_buffer.gl_buffer_id() {
            Some(id) => id,
            None => BufferId(gles20::NONE),
        };
        let cmds = vec![
            GlCommand::BindBuffer { target, buffer: id },
            GlCommand::BufferSubData { target, dst_offset, src_offset, size },
            GlCommand::BindBuffer { target, buffer: BufferId(gles20::NONE) },
        ];
        assert(cmds@ =~= seq![
            GlCommand::BindBuffer { target, buffer: id },
            GlCommand::BufferSubData { target, dst_offset, src_offset, size },
            GlCommand::BindBuffer { target, buffer: BufferId(gles20::NONE) },
        ]);
        Ok(cmds)
    }

    /// Uploads the source buffer's CPU copy, from the parameters' offset on, as the whole of one
    /// mip level of the texture (one face of a cube map), in the texture's format. A source
    /// buffer without a CPU copy is refused.
    pub fn cmd_copy_buffer_to_texture(
        &self,
        src_buffer: &RafxBufferGles3,
        dst_texture: &Gles3TextureInfo,
        params: &RafxCmdCopyBufferToTextureParams,
    ) -> (r: RafxResult<Vec<GlCommand>>)
        requires
            self.command_pool_state.is_started,
            params.mip_level < 32,
            dst_texture.gl_target == gles20::TEXTURE_CUBE_MAP ==> params.array_layer < 6,
            src_buffer.buffer_contents matches Some(c) ==> params.buffer_offset <= c@.len(),
        ensures
            src_buffer.buffer_contents is None ==> r == Err::<Vec<GlCommand>, RafxError>(
                RafxError::BufferNotCpuVisible,
            ),
            src_buffer.buffer_contents is Some ==> (r matches Ok(cmds) && cmds@ == seq![
                GlCommand::BindTexture {
                    target: dst_texture.gl_target,
                    texture: dst_texture.image->Texture_0,
                },
                GlCommand::TexImage2D {
                    target: spec_copy_subtarget(*dst_texture, params.array_layer),
                    mip_level: params.mip_level,
                    internal_format: dst_texture.format_info.gl_internal_format,
                    width: spec_mip_extent(dst_texture.extents.width, params.mip_level),
                    height: spec_mip_extent(dst_texture.extents.height, params.mip_level),
                    format: dst_texture.format_info.gl_format,
                    gl_type: dst_texture.format_info.gl_type,
                    src_offset: Some(params.buffer_offset),
                },
                GlCommand::BindTexture {
                    target: dst_texture.gl_target,
                    texture: TextureId(gles20::NONE),
                },
            ]),
    {
        if src_buffer.buffer_contents.is_none() {
            return Err(RafxError::BufferNotCpuVisible);
        }
        let mut width = dst_texture.extents.width >> params.mip_level;
        if width < 1 {
            width = 1;
        }
        let mut height = dst_texture.extents.height >> params.mip_level;
        if height < 1 {
            height = 1;
        }
        let mut subtarget = dst_texture.gl_target;
        if subtarget == gles20::TEXTURE_CUBE_MAP {
            subtarget = array_layer_to_cube_map_target(params.array_layer);
        }
        let format_info = dst_texture.format_info;
        let texture = match dst_texture.image.gl_texture_id() {
            Some(id) => id,
            None => TextureId(gles20::NONE),
        };
        let cmds = vec![
            GlCommand::BindTexture { target: dst_texture.gl_target, texture },
            GlCommand::TexImage2D {
                target: subtarget,
                mip_level: params.mip_level,
                internal_format: format_info.gl_internal_format,
                width,
                height,
                format: format_info.gl_format,
                gl_type: format_info.gl_type,
                src_offset: Some(params.buffer_offset),
            },
            GlCommand::BindTexture { target: dst_texture.gl_target, texture: TextureId(gles20::NONE) },
        ];
        assert(cmds@ =~= seq![
            GlCommand::BindTexture { target: dst_texture.gl_target, texture },
            GlCommand::TexImage2D {
                target: subtarget,
                mip_level: params.mip_level,
                internal_format: format_info.gl_internal_format,
                width,
                height,
                format: format_info.gl_format,
                gl_type: format_info.gl_type,
                src_offset: Some(params.buffer_offset),
            },
            GlCommand::BindTexture { target: dst_texture.gl_target, texture: TextureId(gles20::NONE) },
        ]);
        Ok(cmds)
    }
}

} // verus!
