//! GL images, and what recording reads of a texture.
use crate::gl_command::GlCommand;
use crate::gl_context::{RenderbufferId, TextureId};
use crate::gles20::{self, GLenum};
use crate::types::{RafxError, RafxExtents3D, RafxResourceType, RafxResult};
use vstd::prelude::*;

verus! {

/// The GL object behind an image of the GL backend.
#[derive(Copy, Clone, Debug, PartialEq, Eq, Structural)]
pub enum RafxRawImageGl {
    Renderbuffer(RenderbufferId),
    Texture(TextureId),
}

impl RafxRawImageGl {
    pub fn gl_texture_id(&self) -> (r: Option<TextureId>)
        ensures
            r == (match *self {
                RafxRawImageGl::Texture(id) => Some(id),
                RafxRawImageGl::Renderbuffer(_) => None,
            }),
    {
        match self {
            RafxRawImageGl::Renderbuffer(_) => None,
            RafxRawImageGl::Texture(id) => Some(*id),
        }
    }

    pub fn gl_renderbuffer_id(&self) -> (r: Option<RenderbufferId>)
        ensures
            r == (match *self {
                RafxRawImageGl::Renderbuffer(id) => Some(id),
                RafxRawImageGl::Texture(_) => None,
            }),
    {
        match self {
            RafxRawImageGl::Renderbuffer(id) => Some(*id),
            RafxRawImageGl::Texture(_) => None,
        }
    }
}

/// The GL object behind an image of the GL ES 3.0 backend: always a texture.
#[derive(Copy, Clone, Debug, PartialEq, Eq, Structural)]
pub enum RafxRawImageGles3 {
    Texture(TextureId),
}

impl RafxRawImageGles3 {
    pub fn gl_texture_id(&self) -> (r: Option<TextureId>)
        ensures
            r == Some(self->Texture_0),
    {
        match self {
            RafxRawImageGles3::Texture(id) => Some(*id),
        }
    }
}

/// How the texels of a texture format are laid out for GL: the arguments of `glTexImage2D`.
#[derive(Copy, Clone, Debug, PartialEq, Eq, Structural)]
pub struct GlTextureFormatInfo {
    pub gl_internal_format: i32,
    pub gl_format: GLenum,
    pub gl_type: GLenum,
}

/// What recording reads of a texture: its GL image and target, its size, its mip count and
/// its format.
#[derive(Copy, Clone, Debug, PartialEq, Eq, Structural)]
pub struct Gles3TextureInfo {
    pub image: RafxRawImageGles3,
    pub gl_target: GLenum,
    pub extents: RafxExtents3D,
    pub mip_count: u32,
    pub format_info: GlTextureFormatInfo,
}

/// The cube map faces in GL's layer order.
pub open spec fn spec_cube_map_target(array_layer: u16) -> GLenum {
    if array_layer == 0 {
        gles20::TEXTURE_CUBE_MAP_POSITIVE_X
    } else if array_layer == 1 {
        gles20::TEXTURE_CUBE_MAP_NEGATIVE_X
    } else if array_layer == 2 {
        gles20::TEXTURE_CUBE_MAP_POSITIVE_Y
    } else if array_layer == 3 {
        gles20::TEXTURE_CUBE_MAP_NEGATIVE_Y
    } else if array_layer == 4 {
        gles20::TEXTURE_CUBE_MAP_POSITIVE_Z
    } else {
        gles20::TEXTURE_CUBE_MAP_NEGATIVE_Z
    }
}

/// GL numbers the six faces in layer order from TEXTURE_CUBE_MAP_POSITIVE_X (0x8515): layer
/// `l` of a cube map is the face `0x8515 + l`.
pub proof fn lemma_cube_map_target_is_face(array_layer: u16)
    ensures
        array_layer < 6 ==> spec_cube_map_target(array_layer) == 0x8515u32 + array_layer,
{
}

/// The face target of a cube map layer.
pub fn array_layer_to_cube_map_target(array_layer: u16) -> (r: GLenum)
    requires
        array_layer < 6,
    ensures
        r == spec_cube_map_target(array_layer),
{
    let targets: [GLenum; 6] = [
        gles20::TEXTURE_CUBE_MAP_POSITIVE_X,
        gles20::TEXTURE_CUBE_MAP_NEGATIVE_X,
        gles20::TEXTURE_CUBE_MAP_POSITIVE_Y,
        gles20::TEXTURE_CUBE_MAP_NEGATIVE_Y,
        gles20::TEXTURE_CUBE_MAP_POSITIVE_Z,
        gles20::TEXTURE_CUBE_MAP_NEGATIVE_Z,
    ];
    targets[array_layer as usize]
}


#[derive(Copy, Clone, Debug, PartialEq, Eq, Structural)]
pub enum RafxSampleCount {
    SampleCount1,
    SampleCount2,
    SampleCount4,
    SampleCount8,
    SampleCount16,
}

#[derive(Copy, Clone, Debug, PartialEq, Eq, Structural)]
pub enum RafxTextureDimensions {
    Auto,
    Dim1D,
    Dim2D,
    Dim3D,
}

/// What a texture is made from, but for its format: GL needs only the format's layout.
#[derive(Copy, Clone, Debug, PartialEq, Eq, Structural)]
pub struct RafxTextureDef {
    pub extents: RafxExtents3D,
    pub array_length: u32,
    pub mip_count: u32,
    pub resource_type: RafxResourceType,
    pub sample_count: RafxSampleCount,
    pub dimensions: RafxTextureDimensions,
}

/// A texture of the GL ES 3.0 backend.
#[derive(Copy, Clone)]
pub struct RafxTextureGles3 {
    pub texture_def: RafxTextureDef,
    pub image: RafxRawImageGles3,
    pub gl_target: GLenum,
    /// Tells textures apart: two textures are equal when they have the same id.
    pub texture_id: u32,
    pub format_info: GlTextureFormatInfo,
}

impl PartialEq for RafxTextureGles3 {
    fn eq(&self, other: &Self) -> (r: bool) {
        self.texture_id == other.texture_id
    }
}

impl vstd::std_specs::cmp::PartialEqSpecImpl for RafxTextureGles3 {
    open spec fn obeys_eq_spec() -> bool {
        true
    }

    open spec fn eq_spec(&self, other: &Self) -> bool {
        self.texture_id == other.texture_id
    }
}

/// Cube textures bind to the cube map target, others to the 2D target.
pub open spec fn spec_texture_gl_target(def: RafxTextureDef) -> GLenum {
    if def.resource_type.spec_contains(RafxResourceType::TEXTURE_CUBE) {
        gles20::TEXTURE_CUBE_MAP
    } else {
        gles20::TEXTURE_2D
    }
}

/// The uploads that allocate the first `mips` mip levels of one face, halving the size per level.
pub open spec fn spec_face_allocation(
    subtarget: GLenum,
    def: RafxTextureDef,
    format_info: GlTextureFormatInfo,
    mips: nat,
) -> Seq<GlCommand> {
    Seq::new(
        mips,
        |m: int|
            GlCommand::TexImage2D {
                target: subtarget,
                mip_level: m as u8,
                internal_format: format_info.gl_internal_format,
                width: def.extents.width >> (m as u32),
                height: def.extents.height >> (m as u32),
                format: format_info.gl_format,
                gl_type: format_info.gl_type,
                src_offset: None,
            },
    )
}

/// The uploads that allocate all mip levels of the first `faces` cube map faces.
pub open spec fn spec_cube_allocation(
    def: RafxTextureDef,
    format_info: GlTextureFormatInfo,
    faces: nat,
) -> Seq<GlCommand>
    decreases faces,
{
    if faces == 0 {
        Seq::empty()
    } else {
        spec_cube_allocation(def, format_info, (faces - 1) as nat) + spec_face_allocation(
            spec_cube_map_target((faces - 1) as u16),
            def,
            format_info,
            def.mip_count as nat,
        )
    }
}

/// The calls that allocate a new texture named `texture`: every mip level of every face, with
/// rows unpadded.
pub open spec fn spec_allocation_commands(
    def: RafxTextureDef,
    format_info: GlTextureFormatInfo,
    texture: TextureId,
) -> Seq<GlCommand> {
    let gl_target = spec_texture_gl_target(def);
    seq![
        GlCommand::PixelStorei { pname: gles20::UNPACK_ALIGNMENT, param: 1 },
        GlCommand::BindTexture { target: gl_target, texture },
    ] + (if gl_target == gles20::TEXTURE_CUBE_MAP {
        spec_cube_allocation(def, format_info, 6)
    } else {
        spec_face_allocation(gles20::TEXTURE_2D, def, format_info, def.mip_count as nat)
    }) + seq![GlCommand::BindTexture { target: gl_target, texture: TextureId(gles20::NONE) }]
}

/// The upload that allocates mip level `m` of cube map face `face`.
pub open spec fn spec_level_allocation(
    def: RafxTextureDef,
    format_info: GlTextureFormatInfo,
    face: nat,
    m: int,
) -> GlCommand {
    GlCommand::TexImage2D {
        target: spec_cube_map_target(face as u16),
        mip_level: m as u8,
        internal_format: format_info.gl_internal_format,
        width: def.extents.width >> (m as u32),
        height: def.extents.height >> (m as u32),
        format: format_info.gl_format,
        gl_type: format_info.gl_type,
        src_offset: None,
    }
}

/// Allocating a texture uploads each mip level of each face once: one level per face and mip,
/// between the unpack alignment and binding calls and the final unbind.
pub proof fn lemma_allocation_covers_every_level(
    def: RafxTextureDef,
    format_info: GlTextureFormatInfo,
    texture: TextureId,
)
    ensures
        spec_allocation_commands(def, format_info, texture).len() == 3 + (if spec_texture_gl_target(
            def,
        ) == gles20::TEXTURE_CUBE_MAP {
            6 * def.mip_count
        } else {
            def.mip_count as int
        }),
        forall|face: nat, m: int|
            face < 6 && 0 <= m < def.mip_count ==> #[trigger] spec_cube_allocation(
                def,
                format_info,
                6,
            )[face * def.mip_count + m] == spec_level_allocation(def, format_info, face, m),
{
    lemma_cube_allocation_layout(def, format_info, 6);
}

/// The uploads of the first `faces` faces: `mip_count` per face, face by face.
proof fn lemma_cube_allocation_layout(def: RafxTextureDef, format_info: GlTextureFormatInfo, faces: nat)
    ensures
        spec_cube_allocation(def, format_info, faces).len() == faces * def.mip_count,
        forall|face: nat, m: int|
            face < faces && 0 <= m < def.mip_count ==> #[trigger] spec_cube_allocation(
                def,
                format_info,
                faces,
            )[face * def.mip_count + m] == spec_level_allocation(def, format_info, face, m),
    decreases faces,
{
    if faces > 0 {
        let prev = (faces - 1) as nat;
        lemma_cube_allocation_layout(def, format_info, prev);
        let mc = def.mip_count as int;
        assert(prev * mc + mc == faces * mc) by (nonlinear_arith)
            requires
                prev + 1 == faces,
        ;
        assert forall|face: nat, m: int| face < faces && 0 <= m < def.mip_count implies #[trigger] spec_cube_allocation(
            def,
            format_info,
            faces,
        )[face * def.mip_count + m] == spec_level_allocation(def, format_info, face, m) by {
            if face < prev {
                assert(face * mc + m < prev * mc) by (nonlinear_arith)
                    requires
                        face < prev,
                        0 <= m < mc,
                ;
                assert(spec_cube_allocation(def, format_info, prev)[face * def.mip_count + m]
                    == spec_level_allocation(def, format_info, face, m));
            } else {
                assert(face == prev);
                assert(face * mc + m - prev * mc == m);
            }
        }
    }
}

/// Appends the uploads that allocate every mip level of one face.
fn push_face_allocation(
    cmds: &mut Vec<GlCommand>,
    subtarget: GLenum,
    def: &RafxTextureDef,
    format_info: &GlTextureFormatInfo,
)
    requires
        def.mip_count <= 32,
    ensures
        final(cmds)@ == old(cmds)@ + spec_face_allocation(
            subtarget,
            *def,
            *format_info,
            def.mip_count as nat,
        ),
{
    let ghost start = cmds@;
    let mut mip_level: u32 = 0;
    while mip_level < def.mip_count
        invariant
            mip_level <= def.mip_count <= 32,
            cmds@ == start + spec_face_allocation(subtarget, *def, *format_info, mip_level as nat),
        decreases def.mip_count - mip_level,
    {
        cmds.push(
            GlCommand::TexImage2D {
                target: subtarget,
                mip_level: mip_level as u8,
                internal_format: format_info.gl_internal_format,
                width: def.extents.width >> mip_level,
                height: def.extents.height >> mip_level,
                format: format_info.gl_format,
                gl_type: format_info.gl_type,
                src_offset: None,
            },
        );
        mip_level = mip_level + 1;
        assert(cmds@ =~= start + spec_face_allocation(
            subtarget,
            *def,
            *format_info,
            mip_level as nat,
        ));
    }
}

impl RafxTextureGles3 {
    /// Makes a texture, from an existing GL image or else from `new_texture`, the name GL gave
    /// for a new texture, whose storage the returned calls allocate. Only single-sampled 2D
    /// textures and cube maps of six faces are supported, with at most 32 mip levels. The
    /// format's GL layout, `format_info`, is required: without it the texture is refused.
    /// `dimensions` are the texture's dimensions as its definition determines them.
    pub fn from_existing(
        existing_image: Option<RafxRawImageGles3>,
        texture_def: &RafxTextureDef,
        dimensions: RafxTextureDimensions,
        format_info: Option<GlTextureFormatInfo>,
        new_texture: TextureId,
        texture_id: u32,
    ) -> (r: RafxResult<(RafxTextureGles3, Vec<GlCommand>)>)
        requires
            texture_def.sample_count == RafxSampleCount::SampleCount1,
            dimensions == RafxTextureDimensions::Dim2D,
            texture_def.resource_type.spec_contains(RafxResourceType::TEXTURE_CUBE)
                ==> texture_def.array_length == 6,
            existing_image is None ==> texture_def.mip_count <= 32,
        ensures
            format_info is None ==> r == Err::<(RafxTextureGles3, Vec<GlCommand>), RafxError>(
                RafxError::FormatNotSupported,
            ),
            format_info matches Some(fi) ==> r matches Ok((t, cmds)) && {
                &&& t.texture_def == *texture_def
                &&& t.gl_target == spec_texture_gl_target(*texture_def)
                &&& t.texture_id == texture_id
                &&& t.format_info == fi
                &&& match existing_image {
                    Some(image) => t.image == image && cmds@ == Seq::<GlCommand>::empty(),
                    None => t.image == RafxRawImageGles3::Texture(new_texture) && cmds@
                        == spec_allocation_commands(*texture_def, fi, new_texture),
                }
            },
    {
        let gl_target = if texture_def.resource_type.contains(RafxResourceType::TEXTURE_CUBE) {
            gles20::TEXTURE_CUBE_MAP
        } else {
            gles20::TEXTURE_2D
        };
        let format_info = match format_info {
            Some(fi) => fi,
            None => {
                return Err(RafxError::FormatNotSupported);
            },
        };
        let mut cmds: Vec<GlCommand> = Vec::new();
        let image = match existing_image {
            Some(image) => image,
            None => {
                cmds.push(GlCommand::PixelStorei { pname: gles20::UNPACK_ALIGNMENT, param: 1 });
                cmds.push(GlCommand::BindTexture { target: gl_target, texture: new_texture });
                let ghost head = cmds@;
                if gl_target == gles20::TEXTURE_CUBE_MAP {
                    let mut face: u16 = 0;
                    while face < 6
                        invariant
                            face <= 6,
                            texture_def.mip_count <= 32,
                            cmds@ == head + spec_cube_allocation(
                                *texture_def,
                                format_info,
                                face as nat,
                            ),
                        decreases 6 - face,
                    {
                        let subtarget = array_layer_to_cube_map_target(face);
                        push_face_allocation(&mut cmds, subtarget, texture_def, &format_info);
                        face = face + 1;
                        assert(cmds@ =~= head + spec_cube_allocation(
                            *texture_def,
                            format_info,
                            face as nat,
                        ));
                    }
                } else {
                    push_face_allocation(&mut cmds, gles20::TEXTURE_2D, texture_def, &format_info);
                }
                cmds.push(
                    GlCommand::BindTexture { target: gl_target, texture: TextureId(gles20::NONE) },
                );
                assert(cmds@ =~= spec_allocation_commands(*texture_def, format_info, new_texture));
                RafxRawImageGles3::Texture(new_texture)
            },
        };
        Ok(
            (
                RafxTextureGles3 {
                    texture_def: *texture_def,
                    image,
                    gl_target,
                    texture_id,
                    format_info,
                },
                cmds,
            ),
        )
    }

    pub fn texture_def(&self) -> (r: &RafxTextureDef)
        ensures
            *r == self.texture_def,
    {
        &self.texture_def
    }

    pub fn gl_raw_image(&self) -> (r: &RafxRawImageGles3)
        ensures
            *r == self.image,
    {
        &self.image
    }

    pub fn gl_target(&self) -> (r: GLenum)
        ensures
            r == self.gl_target,
    {
        self.gl_target
    }

    pub fn gl_format_info(&self) -> (r: &GlTextureFormatInfo)
        ensures
            *r == self.format_info,
    {
        &self.format_info
    }

    /// What recording reads of the texture.
    pub fn recording_info(&self) -> (r: Gles3TextureInfo)
        ensures
            r == (Gles3TextureInfo {
                image: self.image,
                gl_target: self.gl_target,
                extents: self.texture_def.extents,
                mip_count: self.texture_def.mip_count,
                format_info: self.format_info,
            }),
    {
        Gles3TextureInfo {
            image: self.image,
            gl_target: self.gl_target,
            extents: self.texture_def.extents,
            mip_count: self.texture_def.mip_count,
            format_info: self.format_info,
        }
    }
}

/// A texture of the GL backend. Only the swapchain's image can be one: it wraps the default
/// framebuffer, which the `NONE` renderbuffer stands for.
#[derive(Copy, Clone)]
pub struct RafxTextureGl {
    pub texture_def: RafxTextureDef,
    pub image: RafxRawImageGl,
    /// Tells textures apart: two textures are equal when they have the same id.
    pub texture_id: u32,
}

impl PartialEq for RafxTextureGl {
    fn eq(&self, other: &Self) -> (r: bool) {
        self.texture_id == other.texture_id
    }
}

impl vstd::std_specs::cmp::PartialEqSpecImpl for RafxTextureGl {
    open spec fn obeys_eq_spec() -> bool {
        true
    }

    open spec fn eq_spec(&self, other: &Self) -> bool {
        self.texture_id == other.texture_id
    }
}

impl RafxTextureGl {
    /// Wraps the default framebuffer as a texture. The GL backend makes no other textures.
    pub fn from_existing(
        existing_image: Option<RafxRawImageGl>,
        texture_def: &RafxTextureDef,
        texture_id: u32,
    ) -> (r: RafxResult<RafxTextureGl>)
        requires
            existing_image == Some(RafxRawImageGl::Renderbuffer(RenderbufferId(gles20::NONE))),
        ensures
            r matches Ok(t) && t.texture_def == *texture_def && t.image == existing_image->Some_0
                && t.texture_id == texture_id,
    {
        let image = match existing_image {
            Some(image) => image,
            None => RafxRawImageGl::Renderbuffer(RenderbufferId(gles20::NONE)),
        };
        Ok(RafxTextureGl { texture_def: *texture_def, image, texture_id })
    }

    pub fn texture_def(&self) -> (r: &RafxTextureDef)
        ensures
            *r == self.texture_def,
    {
        &self.texture_def
    }

    pub fn gl_raw_image(&self) -> (r: &RafxRawImageGl)
        ensures
            *r == self.image,
    {
        &self.image
    }
}

} // verus!
