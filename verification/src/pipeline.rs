//! Pipelines: the GL state a pipeline sets when bound, its vertex attributes, and the record of
//! which descriptor set updates its program has seen.
use crate::conversions::{
    spec_gles2_blend_state, spec_gles2_depth_stencil_state, spec_gles2_front_face,
    spec_gles2_rasterizer_state, spec_gles2_topology, Gles2BlendState, Gles2DepthStencilState,
    Gles2RasterizerState,
};
use crate::gl_context::{LocationId, ProgramId};
use crate::gles20::GLenum;
use crate::root_signature::RafxRootSignatureGles3;
use crate::types::{
    RafxBlendState, RafxColorFlags, RafxDepthState, RafxError, RafxFrontFace, RafxPipelineType,
    RafxPrimitiveTopology, RafxRasterizerState, RafxResult,
};
use vstd::prelude::*;

verus! {

/// A vertex attribute of a pipeline: where it is read from and how.
#[derive(Copy, Clone, Debug, PartialEq, Eq, Structural)]
pub struct Gles3Attribute {
    /// The vertex buffer binding it reads from.
    pub buffer_index: u32,
    /// Its attribute location, below the device's attribute count.
    pub location: u32,
    pub channel_count: u32,
    pub gl_type: GLenum,
    pub stride: u32,
    pub divisor: u32,
    pub is_normalized: bool,
    pub byte_offset: u32,
}

/// What drawing with a pipeline needs to know of it.
pub struct Gles3PipelineInfo {
    pub gl_rasterizer_state: Gles2RasterizerState,
    pub gl_depth_stencil_state: Gles2DepthStencilState,
    pub gl_blend_state: Gles2BlendState,
    /// The channels that drawing writes.
    pub color_flags: RafxColorFlags,
    pub gl_topology: GLenum,
    pub gl_attributes: Vec<Gles3Attribute>,
    pub program_id: ProgramId,
    /// The program's uniform location of each of the root signature's location names.
    pub resource_locations: Vec<Option<LocationId>>,
    /// The program's uniform location of each reflected uniform field.
    pub uniform_member_locations: Vec<Option<LocationId>>,
    /// The id of the root signature the program was built for.
    pub root_signature_id: u32,
}

/// Which descriptor set updates a pipeline's program has received, and from which command
/// pool. Shared by every command pool that draws with the pipeline.
pub struct PipelineBindingState {
    /// Per set, the update index of the command pool that the program last received.
    pub last_descriptor_updates: Vec<u64>,
    /// The id of the command pool that bound descriptor sets into the program last.
    pub last_bound_by_command_pool: u32,
}

impl PipelineBindingState {
    /// A program that has received nothing.
    pub fn new() -> (r: PipelineBindingState)
        ensures
            r.last_descriptor_updates@ == seq![0u64, 0u64, 0u64, 0u64],
            r.last_bound_by_command_pool == 0,
    {
        PipelineBindingState {
            last_descriptor_updates: vec![0, 0, 0, 0],
            last_bound_by_command_pool: 0,
        }
    }
}

/// A pipeline of the GL backend: the root signature it binds with, whose pipeline type is the
/// pipeline's.
pub struct RafxPipelineGl {
    pub root_signature: RafxRootSignatureGles3,
}

impl RafxPipelineGl {
    /// A pipeline binding with `root_signature`, of its pipeline type.
    pub fn new(root_signature: RafxRootSignatureGles3) -> (r: RafxPipelineGl)
        ensures
            r.root_signature == root_signature,
    {
        RafxPipelineGl { root_signature }
    }

    /// The pipeline's type: always its root signature's.
    pub fn pipeline_type(&self) -> (r: RafxPipelineType)
        ensures
            r == self.root_signature.pipeline_type,
    {
        self.root_signature.pipeline_type()
    }

    pub fn root_signature(&self) -> (r: &RafxRootSignatureGles3)
        ensures
            *r == self.root_signature,
    {
        &self.root_signature
    }
}

#[derive(Copy, Clone, Debug, PartialEq, Eq, Structural)]
pub enum RafxVertexAttributeRate {
    Vertex,
    Instance,
}

/// A vertex attribute as a pipeline definition gives it, with what GL reads of its format: its
/// GL component type, where GL has one, its channel count and whether it is normalized.
#[derive(Copy, Clone, Debug, PartialEq, Eq, Structural)]
pub struct RafxVertexLayoutAttribute {
    pub buffer_index: u32,
    pub location: u32,
    pub byte_offset: u32,
    pub format_gl_type: Option<GLenum>,
    pub channel_count: u32,
    pub is_normalized: bool,
}

/// A vertex buffer binding of a pipeline definition.
#[derive(Copy, Clone, Debug, PartialEq, Eq, Structural)]
pub struct RafxVertexLayoutBuffer {
    pub stride: u32,
    pub rate: RafxVertexAttributeRate,
}

/// Why GL cannot take an attribute, if it cannot: its location is checked before its format.
pub open spec fn spec_attribute_error(a: RafxVertexLayoutAttribute, max_vertex_attribute_count: u32) -> Option<
    RafxError,
> {
    if a.location >= max_vertex_attribute_count {
        Some(RafxError::VertexAttributeLocationOutOfRange(a.location, max_vertex_attribute_count))
    } else if a.format_gl_type is None {
        Some(RafxError::VertexFormatNotSupported)
    } else {
        None
    }
}

/// An attribute as GL reads it: per-instance attributes advance once per instance.
pub open spec fn spec_gles3_attribute(
    a: RafxVertexLayoutAttribute,
    buffers: Seq<RafxVertexLayoutBuffer>,
) -> Gles3Attribute {
    let buffer = buffers[a.buffer_index as int];
    Gles3Attribute {
        buffer_index: a.buffer_index,
        location: a.location,
        channel_count: a.channel_count,
        gl_type: a.format_gl_type->Some_0,
        stride: buffer.stride,
        divisor: match buffer.rate {
            RafxVertexAttributeRate::Vertex => 0,
            RafxVertexAttributeRate::Instance => 1,
        },
        is_normalized: a.is_normalized,
        byte_offset: a.byte_offset,
    }
}

/// The attributes as GL reads them, in order.
pub open spec fn spec_gles3_attributes(
    attributes: Seq<RafxVertexLayoutAttribute>,
    buffers: Seq<RafxVertexLayoutBuffer>,
) -> Seq<Gles3Attribute> {
    attributes.map_values(|a: RafxVertexLayoutAttribute| spec_gles3_attribute(a, buffers))
}

/// No attribute before `k` is refused.
pub open spec fn attributes_accepted_before(
    attributes: Seq<RafxVertexLayoutAttribute>,
    max_vertex_attribute_count: u32,
    k: int,
) -> bool {
    forall|j: int| 0 <= j < k ==> spec_attribute_error(#[trigger] attributes[j], max_vertex_attribute_count) is None
}

/// A pipeline's vertex attributes as GL reads them, in order. The first attribute whose
/// location is not below the device's attribute count, or whose format GL cannot read, refuses
/// the pipeline.
pub fn pipeline_vertex_attributes(
    attributes: &Vec<RafxVertexLayoutAttribute>,
    buffers: &Vec<RafxVertexLayoutBuffer>,
    max_vertex_attribute_count: u32,
) -> (r: RafxResult<Vec<Gles3Attribute>>)
    requires
        forall|i: int|
            0 <= i < attributes@.len() && attributes_accepted_before(
                attributes@,
                max_vertex_attribute_count,
                i + 1,
            ) ==> (#[trigger] attributes@[i]).buffer_index < buffers@.len(),
    ensures
        r is Ok <==> attributes_accepted_before(
            attributes@,
            max_vertex_attribute_count,
            attributes@.len() as int,
        ),
        r matches Ok(v) ==> v@ == spec_gles3_attributes(attributes@, buffers@),
        r matches Err(e) ==> exists|k: int|
            0 <= k < attributes@.len() && attributes_accepted_before(
                attributes@,
                max_vertex_attribute_count,
                k,
            ) && spec_attribute_error(#[trigger] attributes@[k], max_vertex_attribute_count)
                == Some(e),
{
    let mut gl_attributes: Vec<Gles3Attribute> = Vec::new();
    let mut i: usize = 0;
    while i < attributes.len()
        invariant
            i <= attributes@.len(),
            attributes_accepted_before(attributes@, max_vertex_attribute_count, i as int),
            forall|k: int|
                0 <= k < attributes@.len() && attributes_accepted_before(
                    attributes@,
                    max_vertex_attribute_count,
                    k + 1,
                ) ==> (#[trigger] attributes@[k]).buffer_index < buffers@.len(),
            gl_attributes@ == spec_gles3_attributes(attributes@.take(i as int), buffers@),
        decreases attributes@.len() - i,
    {
        let attribute = attributes[i];
        if attribute.location >= max_vertex_attribute_count {
            return Err(
                RafxError::VertexAttributeLocationOutOfRange(
                    attribute.location,
                    max_vertex_attribute_count,
                ),
            );
        }
        let gl_type = match attribute.format_gl_type {
            Some(t) => t,
            None => {
                return Err(RafxError::VertexFormatNotSupported);
            },
        };
        assert(attributes_accepted_before(attributes@, max_vertex_attribute_count, i + 1));
        let buffer = buffers[attribute.buffer_index as usize];
        let divisor: u32 = match buffer.rate {
            RafxVertexAttributeRate::Vertex => 0,
            RafxVertexAttributeRate::Instance => 1,
        };
        gl_attributes.push(
            Gles3Attribute {
                buffer_index: attribute.buffer_index,
                location: attribute.location,
                channel_count: attribute.channel_count,
                gl_type,
                stride: buffer.stride,
                divisor,
                is_normalized: attribute.is_normalized,
                byte_offset: attribute.byte_offset,
            },
        );
        i = i + 1;
        assert(gl_attributes@ =~= spec_gles3_attributes(attributes@.take(i as int), buffers@));
    }
    assert(attributes@.take(attributes@.len() as int) =~= attributes@);
    Ok(gl_attributes)
}

/// Every attribute of an accepted pipeline has a location below the device's attribute count
/// and a GL component type, and reads the buffer its definition names.
pub proof fn lemma_accepted_attributes_fit(
    attributes: Seq<RafxVertexLayoutAttribute>,
    buffers: Seq<RafxVertexLayoutBuffer>,
    max_vertex_attribute_count: u32,
)
    requires
        attributes_accepted_before(attributes, max_vertex_attribute_count, attributes.len() as int),
    ensures
        forall|i: int|
            0 <= i < attributes.len() ==> {
                let a = #[trigger] spec_gles3_attributes(attributes, buffers)[i];
                &&& a.location < max_vertex_attribute_count
                &&& a.gl_type == attributes[i].format_gl_type->Some_0
                &&& attributes[i].format_gl_type is Some
                &&& a.buffer_index == attributes[i].buffer_index
            },
{
    assert forall|i: int| 0 <= i < attributes.len() implies {
        let a = #[trigger] spec_gles3_attributes(attributes, buffers)[i];
        &&& a.location < max_vertex_attribute_count
        &&& a.gl_type == attributes[i].format_gl_type->Some_0
        &&& attributes[i].format_gl_type is Some
        &&& a.buffer_index == attributes[i].buffer_index
    } by {
        assert(spec_attribute_error(attributes[i], max_vertex_attribute_count) is None);
    }
}

/// The fixed-function state of a pipeline in GL terms.
pub struct Gles3PipelineStates {
    pub gl_rasterizer_state: Gles2RasterizerState,
    pub gl_depth_stencil_state: Gles2DepthStencilState,
    pub gl_blend_state: Gles2BlendState,
    pub gl_topology: GLenum,
}

/// The GL winding of the other face: rendering flips the Y axis, which swaps windings.
pub open spec fn spec_flipped_front_face(f: RafxFrontFace) -> GLenum {
    match f {
        RafxFrontFace::CounterClockwise => spec_gles2_front_face(RafxFrontFace::Clockwise),
        RafxFrontFace::Clockwise => spec_gles2_front_face(RafxFrontFace::CounterClockwise),
    }
}

/// A pipeline's fixed-function state in GL terms. The topology is checked before the blend
/// state, and the front face is reversed, since GL renders with the Y axis flipped.
pub fn pipeline_states(
    rasterizer_state: &RafxRasterizerState,
    depth_state: &RafxDepthState,
    blend_state: &RafxBlendState,
    primitive_topology: RafxPrimitiveTopology,
) -> (r: RafxResult<Gles3PipelineStates>)
    ensures
        spec_gles2_topology(primitive_topology) is None ==> r == Err::<Gles3PipelineStates, RafxError>(
            RafxError::TopologyNotSupported(primitive_topology),
        ),
        spec_gles2_topology(primitive_topology) is Some ==> match spec_gles2_blend_state(
            blend_state.independent_blend,
            blend_state.render_target_blend_states@,
        ) {
            Err(e) => r == Err::<Gles3PipelineStates, RafxError>(e),
            Ok(b) => r matches Ok(s) && {
                &&& s.gl_topology == spec_gles2_topology(primitive_topology)->Some_0
                &&& s.gl_blend_state == b
                &&& s.gl_depth_stencil_state == spec_gles2_depth_stencil_state(*depth_state)
                &&& s.gl_rasterizer_state == (Gles2RasterizerState {
                    front_face: spec_flipped_front_face(rasterizer_state.front_face),
                    ..spec_gles2_rasterizer_state(*rasterizer_state)
                })
            },
        },
{
    let gl_topology = match primitive_topology.gles2_topology() {
        Some(t) => t,
        None => {
            return Err(RafxError::TopologyNotSupported(primitive_topology));
        },
    };
    let mut gl_rasterizer_state = Gles2RasterizerState::from(rasterizer_state);
    let gl_depth_stencil_state = Gles2DepthStencilState::from(depth_state);
    let gl_blend_state = match blend_state.gles2_blend_state() {
        Ok(b) => b,
        Err(e) => {
            return Err(e);
        },
    };
    let flipped = match rasterizer_state.front_face {
        RafxFrontFace::CounterClockwise => RafxFrontFace::Clockwise,
        RafxFrontFace::Clockwise => RafxFrontFace::CounterClockwise,
    };
    gl_rasterizer_state.front_face = flipped.gles2_front_face();
    Ok(Gles3PipelineStates { gl_rasterizer_state, gl_depth_stencil_state, gl_blend_state, gl_topology })
}

} // verus!
