//! The quad that presents a texture over the whole surface.
use crate::gl_command::GlCommand;
use crate::gl_context::{BufferId, ProgramId, TextureId};
use crate::gles20;
use crate::texture::{Gles3TextureInfo, RafxRawImageGl, RafxTextureGl};
use vstd::prelude::*;

verus! {

/// The program and the two vertex buffers (upright and flipped) of the quad.
#[derive(Copy, Clone, Debug, PartialEq, Eq, Structural)]
pub struct FullscreenQuad {
    pub program_id: ProgramId,
    pub buffer_id: BufferId,
    pub flip_y_buffer_id: BufferId,
}

/// The calls that draw a texture over the surface with the quad, flipped vertically if
/// `flip_y`, and leave GL unbound after.
pub open spec fn spec_draw_commands(quad: FullscreenQuad, texture: TextureId, flip_y: bool) -> Seq<
    GlCommand,
> {
    seq![
        GlCommand::Disable(gles20::BLEND),
        GlCommand::Disable(gles20::DEPTH_TEST),
        GlCommand::UseProgram(quad.program_id),
        GlCommand::BindBuffer {
            target: gles20::ARRAY_BUFFER,
            buffer: if flip_y {
                quad.flip_y_buffer_id
            } else {
                quad.buffer_id
            },
        },
        GlCommand::VertexAttribPointer {
            index: 0,
            size: 2,
            gl_type: gles20::FLOAT,
            normalized: false,
            stride: 16,
            byte_offset: 0,
        },
        GlCommand::EnableVertexAttribArray(0),
        GlCommand::VertexAttribPointer {
            index: 1,
            size: 2,
            gl_type: gles20::FLOAT,
            normalized: false,
            stride: 16,
            byte_offset: 8,
        },
        GlCommand::EnableVertexAttribArray(1),
        GlCommand::ActiveTexture(0),
        GlCommand::BindTexture { target: gles20::TEXTURE_2D, texture },
        GlCommand::TexParameteri {
            target: gles20::TEXTURE_2D,
            pname: gles20::TEXTURE_MIN_FILTER,
            param: gles20::LINEAR as i32,
        },
        GlCommand::TexParameteri {
            target: gles20::TEXTURE_2D,
            pname: gles20::TEXTURE_MAG_FILTER,
            param: gles20::LINEAR as i32,
        },
        GlCommand::TexParameteri {
            target: gles20::TEXTURE_2D,
            pname: gles20::TEXTURE_WRAP_S,
            param: gles20::CLAMP_TO_EDGE as i32,
        },
        GlCommand::TexParameteri {
            target: gles20::TEXTURE_2D,
            pname: gles20::TEXTURE_WRAP_T,
            param: gles20::CLAMP_TO_EDGE as i32,
        },
        GlCommand::DrawArrays { mode: gles20::TRIANGLES, first: 0, count: 6 },
        GlCommand::BindBuffer { target: gles20::ARRAY_BUFFER, buffer: BufferId(gles20::NONE) },
        GlCommand::BindTexture { target: gles20::TEXTURE_2D, texture: TextureId(gles20::NONE) },
        GlCommand::UseProgram(ProgramId(gles20::NONE)),
        GlCommand::DisableVertexAttribArray(0),
        GlCommand::DisableVertexAttribArray(1),
    ]
}

impl FullscreenQuad {
    /// Draws a texture over the surface.
    pub fn draw(&self, texture: &Gles3TextureInfo, flip_y: bool) -> (r: Vec<GlCommand>)
        ensures
            r@ == spec_draw_commands(*self, texture.image->Texture_0, flip_y),
    {
        let buffer_id = if flip_y {
            self.flip_y_buffer_id
        } else {
            self.buffer_id
        };
        let texture_id = match texture.image {
            crate::texture::RafxRawImageGles3::Texture(id) => id,
        };
        let r = vec![
            GlCommand::Disable(gles20::BLEND),
            GlCommand::Disable(gles20::DEPTH_TEST),
            GlCommand::UseProgram(self.program_id),
            GlCommand::BindBuffer { target: gles20::ARRAY_BUFFER, buffer: buffer_id },
            GlCommand::VertexAttribPointer {
                index: 0,
                size: 2,
                gl_type: gles20::FLOAT,
                normalized: false,
                stride: 16,
                byte_offset: 0,
            },
            GlCommand::EnableVertexAttribArray(0),
            GlCommand::VertexAttribPointer {
                index: 1,
                size: 2,
                gl_type: gles20::FLOAT,
                normalized: false,
                stride: 16,
                byte_offset: 8,
            },
            GlCommand::EnableVertexAttribArray(1),
            GlCommand::ActiveTexture(0),
            GlCommand::BindTexture { target: gles20::TEXTURE_2D, texture: texture_id },
            GlCommand::TexParameteri {
                target: gles20::TEXTURE_2D,
                pname: gles20::TEXTURE_MIN_FILTER,
                param: gles20::LINEAR as i32,
            },
            GlCommand::TexParameteri {
                target: gles20::TEXTURE_2D,
                pname: gles20::TEXTURE_MAG_FILTER,
                param: gles20::LINEAR as i32,
            },
            GlCommand::TexParameteri {
                target: gles20::TEXTURE_2D,
                pname: gles20::TEXTURE_WRAP_S,
                param: gles20::CLAMP_TO_EDGE as i32,
            },
            GlCommand::TexParameteri {
                target: gles20::TEXTURE_2D,
                pname: gles20::TEXTURE_WRAP_T,
                param: gles20::CLAMP_TO_EDGE as i32,
            },
            GlCommand::DrawArrays { mode: gles20::TRIANGLES, first: 0, count: 6 },
            GlCommand::BindBuffer { target: gles20::ARRAY_BUFFER, buffer: BufferId(gles20::NONE) },
            GlCommand::BindTexture { target: gles20::TEXTURE_2D, texture: TextureId(gles20::NONE) },
            GlCommand::UseProgram(ProgramId(gles20::NONE)),
            GlCommand::DisableVertexAttribArray(0),
            GlCommand::DisableVertexAttribArray(1),
        ];
        assert(r@ =~= spec_draw_commands(*self, texture.image->Texture_0, flip_y));
        r
    }
}

/// The quad of the GL backend: its program and its one vertex buffer.
#[derive(Copy, Clone, Debug, PartialEq, Eq, Structural)]
pub struct FullscreenQuadGl {
    pub program_id: ProgramId,
    pub buffer_id: BufferId,
}

/// The calls that set up the quad's two attributes: position and texture coordinate, two floats
/// each, interleaved.
pub open spec fn spec_gl_quad_head(quad: FullscreenQuadGl) -> Seq<GlCommand> {
    seq![
        GlCommand::Disable(gles20::DEPTH_TEST),
        GlCommand::UseProgram(quad.program_id),
        GlCommand::BindBuffer { target: gles20::ARRAY_BUFFER, buffer: quad.buffer_id },
        GlCommand::VertexAttribPointer {
            index: 0,
            size: 2,
            gl_type: gles20::FLOAT,
            normalized: false,
            stride: 16,
            byte_offset: 0,
        },
        GlCommand::EnableVertexAttribArray(0),
        GlCommand::VertexAttribPointer {
            index: 1,
            size: 2,
            gl_type: gles20::FLOAT,
            normalized: false,
            stride: 16,
            byte_offset: 8,
        },
        GlCommand::EnableVertexAttribArray(1),
    ]
}

/// The calls that disable every other attribute array the device has, from 2 on.
pub open spec fn spec_disable_other_attributes(max_vertex_attribute_count: u32) -> Seq<GlCommand> {
    Seq::new(
        (if max_vertex_attribute_count > 2 {
            max_vertex_attribute_count - 2
        } else {
            0
        }) as nat,
        |k: int| GlCommand::DisableVertexAttribArray((k + 2) as u32),
    )
}

/// The calls that sample the texture with linear filtering and clamping, draw the quad's two
/// triangles, and unbind the buffer, texture and program.
pub open spec fn spec_gl_quad_tail(texture: TextureId) -> Seq<GlCommand> {
    seq![
        GlCommand::BindTexture { target: gles20::TEXTURE_2D, texture },
        GlCommand::TexParameteri {
            target: gles20::TEXTURE_2D,
            pname: gles20::TEXTURE_MIN_FILTER,
            param: gles20::LINEAR as i32,
        },
        GlCommand::TexParameteri {
            target: gles20::TEXTURE_2D,
            pname: gles20::TEXTURE_MAG_FILTER,
            param: gles20::LINEAR as i32,
        },
        GlCommand::TexParameteri {
            target: gles20::TEXTURE_2D,
            pname: gles20::TEXTURE_WRAP_S,
            param: gles20::CLAMP_TO_EDGE as i32,
        },
        GlCommand::TexParameteri {
            target: gles20::TEXTURE_2D,
            pname: gles20::TEXTURE_WRAP_T,
            param: gles20::CLAMP_TO_EDGE as i32,
        },
        GlCommand::DrawArrays { mode: gles20::TRIANGLES, first: 0, count: 6 },
        GlCommand::BindBuffer { target: gles20::ARRAY_BUFFER, buffer: BufferId(gles20::NONE) },
        GlCommand::BindTexture { target: gles20::TEXTURE_2D, texture: TextureId(gles20::NONE) },
        GlCommand::UseProgram(ProgramId(gles20::NONE)),
    ]
}

impl FullscreenQuadGl {
    /// Draws a GL texture over the surface. Only the quad's two attribute arrays stay enabled:
    /// every other one of the device's is disabled.
    pub fn draw(&self, max_vertex_attribute_count: u32, texture: &RafxTextureGl) -> (r: Vec<
        GlCommand,
    >)
        requires
            texture.image is Texture,
        ensures
            r@ == spec_gl_quad_head(*self) + spec_disable_other_attributes(
                max_vertex_attribute_count,
            ) + spec_gl_quad_tail(texture.image->Texture_0),
    {
        let mut r = vec![
            GlCommand::Disable(gles20::DEPTH_TEST),
            GlCommand::UseProgram(self.program_id),
            GlCommand::BindBuffer { target: gles20::ARRAY_BUFFER, buffer: self.buffer_id },
            GlCommand::VertexAttribPointer {
                index: 0,
                size: 2,
                gl_type: gles20::FLOAT,
                normalized: false,
                stride: 16,
                byte_offset: 0,
            },
            GlCommand::EnableVertexAttribArray(0),
            GlCommand::VertexAttribPointer {
                index: 1,
                size: 2,
                gl_type: gles20::FLOAT,
                normalized: false,
                stride: 16,
                byte_offset: 8,
            },
            GlCommand::EnableVertexAttribArray(1),
        ];
        assert(r@ =~= spec_gl_quad_head(*self));
        let ghost head = r@;
        let mut i: u32 = 2;
        while i < max_vertex_attribute_count
            invariant
                2 <= i,
                i <= max_vertex_attribute_count || i == 2,
                r@ == head + Seq::new((i - 2) as nat, |k: int| GlCommand::DisableVertexAttribArray((k + 2) as u32)),
            decreases max_vertex_attribute_count - i,
        {
            r.push(GlCommand::DisableVertexAttribArray(i));
            i = i + 1;
            assert(r@ =~= head + Seq::new((i - 2) as nat, |k: int| GlCommand::DisableVertexAttribArray((k + 2) as u32)));
        }
        assert(Seq::new((i - 2) as nat, |k: int| GlCommand::DisableVertexAttribArray((k + 2) as u32))
            =~= spec_disable_other_attributes(max_vertex_attribute_count));
        let texture_id = match texture.image {
            RafxRawImageGl::Texture(id) => id,
            RafxRawImageGl::Renderbuffer(_) => TextureId(gles20::NONE),
        };
        let mut tail = vec![
            GlCommand::BindTexture { target: gles20::TEXTURE_2D, texture: texture_id },
            GlCommand::TexParameteri {
                target: gles20::TEXTURE_2D,
                pname: gles20::TEXTURE_MIN_FILTER,
                param: gles20::LINEAR as i32,
            },
            GlCommand::TexParameteri {
                target: gles20::TEXTURE_2D,
                pname: gles20::TEXTURE_MAG_FILTER,
                param: gles20::LINEAR as i32,
            },
            GlCommand::TexParameteri {
                target: gles20::TEXTURE_2D,
                pname: gles20::TEXTURE_WRAP_S,
                param: gles20::CLAMP_TO_EDGE as i32,
            },
            GlCommand::TexParameteri {
                target: gles20::TEXTURE_2D,
                pname: gles20::TEXTURE_WRAP_T,
                param: gles20::CLAMP_TO_EDGE as i32,
            },
            GlCommand::DrawArrays { mode: gles20::TRIANGLES, first: 0, count: 6 },
            GlCommand::BindBuffer { target: gles20::ARRAY_BUFFER, buffer: BufferId(gles20::NONE) },
            GlCommand::BindTexture { target: gles20::TEXTURE_2D, texture: TextureId(gles20::NONE) },
            GlCommand::UseProgram(ProgramId(gles20::NONE)),
        ];
        assert(tail@ =~= spec_gl_quad_tail(texture.image->Texture_0));
        r.append(&mut tail);
        r
    }
}

} // verus!
