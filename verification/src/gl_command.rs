//! The GL calls that command recording decides on. A command buffer does not touch GL itself:
//! it returns these, in order, for the GL context to perform.
use crate::gl_context::{BufferId, FramebufferId, LocationId, ProgramId, TextureId};
use crate::gles20::GLenum;
use vstd::prelude::*;

verus! {

/// One GL call with its arguments. Floating-point arguments are carried as their IEEE-754 bit
/// patterns.
#[derive(Copy, Clone, Debug, PartialEq, Eq, Structural)]
pub enum GlCommand {
    UseProgram(ProgramId),
    BindFramebuffer { target: GLenum, framebuffer: FramebufferId },
    BindTexture { target: GLenum, texture: TextureId },
    /// `glFramebufferTexture2D`.
    FramebufferTexture {
        target: GLenum,
        attachment: GLenum,
        texture_target: GLenum,
        texture: TextureId,
        mip_level: u8,
    },
    ClearColor { r_bits: u32, g_bits: u32, b_bits: u32, a_bits: u32 },
    ClearDepth { depth_bits: u32 },
    ClearStencil(i32),
    Clear(u32),
    Viewport { x: i32, y: i32, width: i32, height: i32 },
    DepthRange { near_bits: u32, far_bits: u32 },
    Scissor { x: i32, y: i32, width: i32, height: i32 },
    Enable(GLenum),
    Disable(GLenum),
    CullFace(GLenum),
    FrontFace(GLenum),
    DepthMask(bool),
    DepthFunc(GLenum),
    StencilMask(u32),
    StencilFuncSeparate { face: GLenum, func: GLenum, reference: i32, mask: u32 },
    StencilOpSeparate { face: GLenum, stencil_fail: GLenum, depth_fail: GLenum, pass: GLenum },
    BlendFuncSeparate {
        src_rgb: GLenum,
        dst_rgb: GLenum,
        src_alpha: GLenum,
        dst_alpha: GLenum,
    },
    BlendEquationSeparate { rgb: GLenum, alpha: GLenum },
    ColorMask { red: bool, green: bool, blue: bool, alpha: bool },
    EnableVertexAttribArray(u32),
    DisableVertexAttribArray(u32),
    BindBuffer { target: GLenum, buffer: BufferId },
    /// `glBufferSubData` from the CPU copy of the call's source buffer (for a flush, the
    /// buffer itself): `size` of its bytes, from `src_offset`, into the bound buffer at
    /// `dst_offset`.
    BufferSubData { target: GLenum, dst_offset: u64, src_offset: u64, size: u64 },
    /// `glBufferData` with no data: allocates `size` bytes for the bound buffer.
    BufferData { target: GLenum, size: u64, usage: GLenum },
    VertexAttribPointer {
        index: u32,
        size: i32,
        gl_type: GLenum,
        normalized: bool,
        stride: u32,
        byte_offset: i32,
    },
    DrawArrays { mode: GLenum, first: i32, count: i32 },
    DrawElements { mode: GLenum, count: i32, index_type: GLenum, byte_offset: u32 },
    /// `glTexImage2D`: with `src_offset`, the pixels are read from the CPU copy of the call's
    /// source buffer that many bytes in; without, the level is allocated and left undefined.
    TexImage2D {
        target: GLenum,
        mip_level: u8,
        internal_format: i32,
        width: u32,
        height: u32,
        format: GLenum,
        gl_type: GLenum,
        src_offset: Option<u64>,
    },
    PixelStorei { pname: GLenum, param: i32 },
    /// `glActiveTexture(TEXTURE0 + unit)`.
    ActiveTexture(u32),
    TexParameteri { target: GLenum, pname: GLenum, param: i32 },
    /// Sets a sampler uniform to a texture unit.
    UniformTextureUnit { location: LocationId, unit: u32 },
    /// Sets a uniform from the bytes of a bound buffer: `element_count` values of GL type
    /// `gl_type`, read from the contents of the buffer bound at `buffer_state_index` of the
    /// descriptor set array, `buffer_offset + field_offset` bytes in.
    UniformFromBuffer {
        location: LocationId,
        gl_type: GLenum,
        element_count: u32,
        buffer_state_index: u32,
        buffer_offset: u64,
        field_offset: u32,
    },
}

} // verus!
