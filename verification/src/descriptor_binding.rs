//! Pushing a descriptor set into a program: GL ES 2.0 programs have no descriptor sets, so each
//! texture is bound to its texture unit with its sampler's parameters, and each field of a
//! uniform buffer is set as a uniform of its own.
use crate::descriptor_set_array::{BufferDescriptorState, DescriptorSetArrayData};
use crate::gl_command::GlCommand;
use crate::gles20;
use crate::pipeline::Gles3PipelineInfo;
use crate::reflection::{UniformFieldInfo, UniformIndex, UniformReflectionData};
use crate::root_signature::{DescriptorInfo, RafxRootSignatureGles3, RafxSamplerIndexGles3};
use crate::sampler::RafxSamplerGles2;
use crate::types::{RafxResourceType, MAX_DESCRIPTOR_SET_LAYOUTS};
use vstd::prelude::*;

verus! {

/// Where a descriptor's states of one set start in the flat states.
pub open spec fn state_base(array_index: u32, per_set: u32, d: DescriptorInfo) -> int {
    array_index * per_set + d.descriptor_data_offset_in_set->Some_0
}

/// The texture unit of a texture descriptor's element.
pub open spec fn texture_unit(
    rs: RafxRootSignatureGles3,
    set_index: u32,
    d: DescriptorInfo,
    i: int,
) -> int {
    rs.layouts@[set_index as int].texture_unit_offset + d.descriptor_data_offset_in_set->Some_0
        + i
}

/// Where a mutable sampler's state is for a set.
pub open spec fn sampler_state_index(
    rs: RafxRootSignatureGles3,
    data: DescriptorSetArrayData,
    array_index: u32,
    sd: int,
) -> int {
    state_base(array_index, data.sampler_states_per_set, rs.descriptors@[sd])
}

/// The sampler a texture descriptor is applied with in a set.
pub open spec fn spec_texture_sampler(
    rs: RafxRootSignatureGles3,
    data: DescriptorSetArrayData,
    array_index: u32,
    d: DescriptorInfo,
) -> RafxSamplerGles2 {
    match d.sampler_descriptor_index->Some_0 {
        RafxSamplerIndexGles3::Immutable(ii) => rs.immutable_samplers@[ii as int],
        RafxSamplerIndexGles3::Mutable(sd) => data.sampler_states@[sampler_state_index(
            rs,
            data,
            array_index,
            sd.0 as int,
        )]->Some_0.sampler->Some_0,
    }
}

/// The sampler of a texture descriptor can be found for a set.
pub open spec fn sampler_ok(
    rs: RafxRootSignatureGles3,
    data: DescriptorSetArrayData,
    array_index: u32,
    d: DescriptorInfo,
) -> bool {
    match d.sampler_descriptor_index->Some_0 {
        RafxSamplerIndexGles3::Immutable(ii) => ii < rs.immutable_samplers@.len(),
        RafxSamplerIndexGles3::Mutable(sd) => {
            &&& sd.0 < rs.descriptors@.len()
            &&& rs.descriptors@[sd.0 as int].descriptor_data_offset_in_set is Some
            &&& sampler_state_index(rs, data, array_index, sd.0 as int) <= u32::MAX
            &&& sampler_state_index(rs, data, array_index, sd.0 as int) < data.sampler_states@.len()
            &&& data.sampler_states@[sampler_state_index(rs, data, array_index, sd.0 as int)] matches Some(
                state,
            ) && state.sampler is Some
        },
    }
}

/// The location of a resource's element in a program, where the program has the location
/// name.
pub open spec fn resource_location_index(d: DescriptorInfo, i: int) -> int {
    d.first_location_index->Some_0 + i
}

/// Element `i` of a texture descriptor can be bound: its location is known, and where the
/// program uses it, a texture is bound to it and its texture unit is a `u32`.
pub open spec fn texture_element_ok(
    rs: RafxRootSignatureGles3,
    pipeline: Gles3PipelineInfo,
    data: DescriptorSetArrayData,
    set_index: u32,
    array_index: u32,
    d: DescriptorInfo,
    i: int,
) -> bool {
    &&& d.first_location_index is Some
    &&& resource_location_index(d, i) <= u32::MAX
    &&& resource_location_index(d, i) < pipeline.resource_locations@.len()
    &&& pipeline.resource_locations@[resource_location_index(d, i)] is Some ==> {
        let s = state_base(array_index, data.texture_states_per_set, d) + i;
        &&& s <= u32::MAX
        &&& s < data.texture_states@.len()
        &&& data.texture_states@[s] matches Some(t) && t.texture is Some
        &&& texture_unit(rs, set_index, d, i) <= u32::MAX
    }
}

/// The calls that bind element `i` of a texture descriptor, if the program uses it: the
/// texture to its unit, the unit to the sampler uniform, and the sampler's parameters to the
/// texture.
pub open spec fn spec_texture_element_commands(
    rs: RafxRootSignatureGles3,
    pipeline: Gles3PipelineInfo,
    data: DescriptorSetArrayData,
    set_index: u32,
    array_index: u32,
    d: DescriptorInfo,
    i: int,
) -> Seq<GlCommand> {
    match pipeline.resource_locations@[resource_location_index(d, i)] {
        None => Seq::empty(),
        Some(location) => {
            let t = data.texture_states@[state_base(array_index, data.texture_states_per_set, d)
                + i]->Some_0.texture->Some_0;
            let sampler = spec_texture_sampler(rs, data, array_index, d).inner;
            let unit = texture_unit(rs, set_index, d, i) as u32;
            let target = t.gl_target;
            let min_filter = if t.mip_count > 1 {
                sampler.gl_mip_map_mode
            } else {
                sampler.gl_min_filter
            };
            seq![
                GlCommand::ActiveTexture(unit),
                GlCommand::BindTexture { target, texture: t.image->Texture_0 },
                GlCommand::UniformTextureUnit { location, unit },
                GlCommand::TexParameteri {
                    target,
                    pname: gles20::TEXTURE_MIN_FILTER,
                    param: min_filter as i32,
                },
                GlCommand::TexParameteri {
                    target,
                    pname: gles20::TEXTURE_MAG_FILTER,
                    param: sampler.gl_mag_filter as i32,
                },
                GlCommand::TexParameteri {
                    target,
                    pname: gles20::TEXTURE_WRAP_S,
                    param: sampler.gl_address_mode_s as i32,
                },
                GlCommand::TexParameteri {
                    target,
                    pname: gles20::TEXTURE_WRAP_T,
                    param: sampler.gl_address_mode_t as i32,
                },
            ]
        },
    }
}

/// The calls for the first `n` elements of a texture descriptor.
pub open spec fn spec_texture_commands(
    rs: RafxRootSignatureGles3,
    pipeline: Gles3PipelineInfo,
    data: DescriptorSetArrayData,
    set_index: u32,
    array_index: u32,
    d: DescriptorInfo,
    n: nat,
) -> Seq<GlCommand>
    decreases n,
{
    if n == 0 {
        Seq::empty()
    } else {
        spec_texture_commands(rs, pipeline, data, set_index, array_index, d, (n - 1) as nat)
            + spec_texture_element_commands(
            rs,
            pipeline,
            data,
            set_index,
            array_index,
            d,
            n - 1,
        )
    }
}

/// The fields of the uniform of a uniform buffer descriptor.
pub open spec fn spec_uniform_fields(refl: UniformReflectionData, u: UniformIndex) -> Seq<
    UniformFieldInfo,
> {
    let g = refl.spec_uniforms()[u.0 as int];
    refl.spec_fields().subrange(
        g.first_field_index.0 as int,
        g.first_field_index.0 + g.field_count,
    )
}

/// The uniform calls for the first `m` fields of a uniform, read from the buffer bound at
/// `buffer_state_index`.
pub open spec fn spec_uniform_field_commands(
    pipeline: Gles3PipelineInfo,
    fields: Seq<UniformFieldInfo>,
    buffer_state_index: int,
    buffer: BufferDescriptorState,
    m: nat,
) -> Seq<GlCommand>
    decreases m,
{
    if m == 0 {
        Seq::empty()
    } else {
        let f = fields[m - 1];
        spec_uniform_field_commands(pipeline, fields, buffer_state_index, buffer, (m - 1) as nat)
            + match pipeline.uniform_member_locations@[f.field_index.0 as int] {
            None => Seq::empty(),
            Some(location) => seq![
                GlCommand::UniformFromBuffer {
                    location,
                    gl_type: f.ty,
                    element_count: f.element_count,
                    buffer_state_index: buffer_state_index as u32,
                    buffer_offset: buffer.offset,
                    field_offset: f.offset,
                },
            ],
        }
    }
}

/// Element `i` of a uniform buffer descriptor can be pushed: a buffer with contents is bound
/// to it, and the program knows every field of the uniform.
pub open spec fn uniform_element_ok(
    refl: UniformReflectionData,
    pipeline: Gles3PipelineInfo,
    data: DescriptorSetArrayData,
    array_index: u32,
    d: DescriptorInfo,
    u: UniformIndex,
    i: int,
) -> bool {
    let s = state_base(array_index, data.buffer_states_per_set, d) + i;
    &&& s <= u32::MAX
    &&& s < data.buffer_states@.len()
    &&& data.buffer_states@[s] matches Some(b) && b.has_contents
    &&& u.0 < refl.spec_uniforms().len()
    &&& forall|j: int|
        0 <= j < spec_uniform_fields(refl, u).len() ==> (#[trigger] spec_uniform_fields(
            refl,
            u,
        )[j]).field_index.0 < pipeline.uniform_member_locations@.len()
}

/// The calls for the first `n` elements of a uniform buffer descriptor.
pub open spec fn spec_uniform_commands(
    refl: UniformReflectionData,
    pipeline: Gles3PipelineInfo,
    data: DescriptorSetArrayData,
    array_index: u32,
    d: DescriptorInfo,
    u: UniformIndex,
    n: nat,
) -> Seq<GlCommand>
    decreases n,
{
    if n == 0 {
        Seq::empty()
    } else {
        let s = state_base(array_index, data.buffer_states_per_set, d) + (n - 1);
        let fields = spec_uniform_fields(refl, u);
        spec_uniform_commands(refl, pipeline, data, array_index, d, u, (n - 1) as nat)
            + spec_uniform_field_commands(
            pipeline,
            fields,
            s,
            data.buffer_states@[s]->Some_0,
            fields.len(),
        )
    }
}

pub open spec fn is_texture_type(rt: RafxResourceType) -> bool {
    rt.0 == RafxResourceType::TEXTURE || rt.0 == RafxResourceType::TEXTURE_READ_WRITE
}

/// A descriptor of the layout can be pushed for a set.
pub open spec fn descriptor_ok(
    rs: RafxRootSignatureGles3,
    pipeline: Gles3PipelineInfo,
    data: DescriptorSetArrayData,
    set_index: u32,
    array_index: u32,
    d: DescriptorInfo,
) -> bool {
    let rt = d.resource_type;
    if rt.0 == RafxResourceType::SAMPLER {
        true
    } else if is_texture_type(rt) {
        &&& d.descriptor_data_offset_in_set is Some
        &&& state_base(array_index, data.texture_states_per_set, d) <= u32::MAX
        &&& d.sampler_descriptor_index is Some ==> {
            &&& sampler_ok(rs, data, array_index, d)
            &&& forall|i: int|
                0 <= i < d.element_count ==> #[trigger] texture_element_ok(
                    rs,
                    pipeline,
                    data,
                    set_index,
                    array_index,
                    d,
                    i,
                )
        }
    } else if rt.0 == RafxResourceType::UNIFORM_BUFFER {
        d.uniform_index matches Some(u) ==> {
            &&& d.descriptor_data_offset_in_set is Some
            &&& state_base(array_index, data.buffer_states_per_set, d) <= u32::MAX
            &&& forall|i: int|
                0 <= i < d.element_count ==> #[trigger] uniform_element_ok(
                    rs.uniform_reflection,
                    pipeline,
                    data,
                    array_index,
                    d,
                    u,
                    i,
                )
        }
    } else {
        false
    }
}

/// The calls that push one descriptor for a set.
pub open spec fn spec_descriptor_commands(
    rs: RafxRootSignatureGles3,
    pipeline: Gles3PipelineInfo,
    data: DescriptorSetArrayData,
    set_index: u32,
    array_index: u32,
    d: DescriptorInfo,
) -> Seq<GlCommand> {
    if is_texture_type(d.resource_type) && d.sampler_descriptor_index is Some {
        spec_texture_commands(rs, pipeline, data, set_index, array_index, d, d.element_count as nat)
    } else if d.resource_type.0 == RafxResourceType::UNIFORM_BUFFER && d.uniform_index is Some {
        spec_uniform_commands(
            rs.uniform_reflection,
            pipeline,
            data,
            array_index,
            d,
            d.uniform_index->Some_0,
            d.element_count as nat,
        )
    } else {
        Seq::empty()
    }
}

/// The `k`th descriptor of a set layout.
pub open spec fn layout_descriptor(rs: RafxRootSignatureGles3, set_index: u32, k: int) -> DescriptorInfo {
    rs.descriptors@[rs.layouts@[set_index as int].descriptors@[k].0 as int]
}

/// Every descriptor of the set layout can be pushed for the set.
pub open spec fn descriptor_set_bindable(
    rs: RafxRootSignatureGles3,
    pipeline: Gles3PipelineInfo,
    data: DescriptorSetArrayData,
    set_index: u32,
    array_index: u32,
) -> bool {
    &&& set_index < MAX_DESCRIPTOR_SET_LAYOUTS
    &&& forall|k: int|
        0 <= k < rs.layouts@[set_index as int].descriptors@.len() ==> #[trigger] descriptor_ok(
            rs,
            pipeline,
            data,
            set_index,
            array_index,
            layout_descriptor(rs, set_index, k),
        )
}

/// The calls that push the first `k` descriptors of a set layout.
pub open spec fn spec_set_commands(
    rs: RafxRootSignatureGles3,
    pipeline: Gles3PipelineInfo,
    data: DescriptorSetArrayData,
    set_index: u32,
    array_index: u32,
    k: nat,
) -> Seq<GlCommand>
    decreases k,
{
    if k == 0 {
        Seq::empty()
    } else {
        spec_set_commands(rs, pipeline, data, set_index, array_index, (k - 1) as nat)
            + spec_descriptor_commands(
            rs,
            pipeline,
            data,
            set_index,
            array_index,
            layout_descriptor(rs, set_index, k - 1),
        )
    }
}


/// `a * b + c`, if it is a `u32`.
fn mul_add_u32(a: u32, b: u32, c: u32) -> (r: Option<u32>)
    ensures
        r == (if a * b + c <= u32::MAX {
            Some((a * b + c) as u32)
        } else {
            None::<u32>
        }),
{
    proof {
        assert((a as u64) * (b as u64) <= 0xffff_fffe_0000_0001u64) by (nonlinear_arith)
            requires
                a <= 0xffff_ffffu32,
                b <= 0xffff_ffffu32,
        ;
    }
    let v: u64 = (a as u64) * (b as u64) + (c as u64);
    if v <= 0xffff_ffffu64 {
        Some(v as u32)
    } else {
        None
    }
}

/// `a + b`, if it is a `u32`.
fn add_u32(a: u32, b: u32) -> (r: Option<u32>)
    ensures
        r == (if a + b <= u32::MAX {
            Some((a + b) as u32)
        } else {
            None::<u32>
        }),
{
    a.checked_add(b)
}

/// The sampler a texture descriptor is applied with in a set, if it can be found.
fn texture_sampler(
    rs: &RafxRootSignatureGles3,
    data: &DescriptorSetArrayData,
    array_index: u32,
    d: &DescriptorInfo,
) -> (r: Option<RafxSamplerGles2>)
    requires
        d.sampler_descriptor_index is Some,
    ensures
        r is Some <==> sampler_ok(*rs, *data, array_index, *d),
        r matches Some(s) ==> s == spec_texture_sampler(*rs, *data, array_index, *d),
{
    match d.sampler_descriptor_index {
        Some(RafxSamplerIndexGles3::Immutable(ii)) => {
            if (ii as usize) < rs.immutable_samplers.len() {
                Some(rs.immutable_samplers[ii as usize])
            } else {
                None
            }
        },
        Some(RafxSamplerIndexGles3::Mutable(sd)) => {
            if (sd.0 as usize) >= rs.descriptors.len() {
                return None;
            }
            let sampler_descriptor = &rs.descriptors[sd.0 as usize];
            let offset = match sampler_descriptor.descriptor_data_offset_in_set {
                Some(o) => o,
                None => {
                    return None;
                },
            };
            let index = match mul_add_u32(array_index, data.sampler_states_per_set, offset) {
                Some(v) => v,
                None => {
                    return None;
                },
            };
            if (index as usize) >= data.sampler_states.len() {
                return None;
            }
            match data.sampler_states[index as usize] {
                Some(state) => state.sampler,
                None => None,
            }
        },
        None => None,
    }
}

/// The calls for element `i` of a texture descriptor, if it can be bound.
fn texture_element_commands(
    rs: &RafxRootSignatureGles3,
    pipeline: &Gles3PipelineInfo,
    data: &DescriptorSetArrayData,
    set_index: u32,
    array_index: u32,
    d: &DescriptorInfo,
    sampler: RafxSamplerGles2,
    base: u32,
    i: u32,
) -> (r: Option<Vec<GlCommand>>)
    requires
        set_index < MAX_DESCRIPTOR_SET_LAYOUTS,
        rs.layouts@.len() == MAX_DESCRIPTOR_SET_LAYOUTS,
        d.descriptor_data_offset_in_set is Some,
        d.sampler_descriptor_index is Some,
        sampler_ok(*rs, *data, array_index, *d),
        sampler == spec_texture_sampler(*rs, *data, array_index, *d),
        base == state_base(array_index, data.texture_states_per_set, *d),
    ensures
        r is Some <==> texture_element_ok(*rs, *pipeline, *data, set_index, array_index, *d, i as int),
        r matches Some(c) ==> c@ == spec_texture_element_commands(
            *rs,
            *pipeline,
            *data,
            set_index,
            array_index,
            *d,
            i as int,
        ),
{
    let first = match d.first_location_index {
        Some(f) => f,
        None => {
            return None;
        },
    };
    let location_index = match add_u32(first, i) {
        Some(v) => v,
        None => {
            return None;
        },
    };
    if (location_index as usize) >= pipeline.resource_locations.len() {
        return None;
    }
    match pipeline.resource_locations[location_index as usize] {
        None => {
            let r: Vec<GlCommand> = Vec::new();
            assert(r@ =~= Seq::<GlCommand>::empty());
            Some(r)
        },
        Some(location) => {
            let image_state_index = match add_u32(base, i) {
                Some(v) => v,
                None => {
                    return None;
                },
            };
            if (image_state_index as usize) >= data.texture_states.len() {
                return None;
            }
            let texture = match data.texture_states[image_state_index as usize] {
                Some(state) => match state.texture {
                    Some(t) => t,
                    None => {
                        return None;
                    },
                },
                None => {
                    return None;
                },
            };
            let offset = match d.descriptor_data_offset_in_set {
                Some(o) => o,
                None => 0,
            };
            let layout = &rs.layouts[set_index as usize];
            let unit_base = match add_u32(layout.texture_unit_offset, offset) {
                Some(v) => v,
                None => {
                    return None;
                },
            };
            let texture_unit_index = match add_u32(unit_base, i) {
                Some(v) => v,
                None => {
                    return None;
                },
            };
            let target = texture.gl_target;
            let id = match texture.image {
                crate::texture::RafxRawImageGles3::Texture(id) => id,
            };
            let min_filter = sampler.min_filter_for_mip_count(texture.mip_count);
            let r = vec![
                GlCommand::ActiveTexture(texture_unit_index),
                GlCommand::BindTexture { target, texture: id },
                GlCommand::UniformTextureUnit { location, unit: texture_unit_index },
                GlCommand::TexParameteri {
                    target,
                    pname: gles20::TEXTURE_MIN_FILTER,
                    param: min_filter as i32,
                },
                GlCommand::TexParameteri {
                    target,
                    pname: gles20::TEXTURE_MAG_FILTER,
                    param: sampler.inner.gl_mag_filter as i32,
                },
                GlCommand::TexParameteri {
                    target,
                    pname: gles20::TEXTURE_WRAP_S,
                    param: sampler.inner.gl_address_mode_s as i32,
                },
                GlCommand::TexParameteri {
                    target,
                    pname: gles20::TEXTURE_WRAP_T,
                    param: sampler.inner.gl_address_mode_t as i32,
                },
            ];
            assert(r@ =~= spec_texture_element_commands(
                *rs,
                *pipeline,
                *data,
                set_index,
                array_index,
                *d,
                i as int,
            ));
            Some(r)
        },
    }
}


/// The calls for every element of a texture descriptor, if each can be bound.
fn texture_commands(
    rs: &RafxRootSignatureGles3,
    pipeline: &Gles3PipelineInfo,
    data: &DescriptorSetArrayData,
    set_index: u32,
    array_index: u32,
    d: &DescriptorInfo,
    sampler: RafxSamplerGles2,
    base: u32,
) -> (r: Option<Vec<GlCommand>>)
    requires
        set_index < MAX_DESCRIPTOR_SET_LAYOUTS,
        rs.layouts@.len() == MAX_DESCRIPTOR_SET_LAYOUTS,
        d.descriptor_data_offset_in_set is Some,
        d.sampler_descriptor_index is Some,
        sampler_ok(*rs, *data, array_index, *d),
        sampler == spec_texture_sampler(*rs, *data, array_index, *d),
        base == state_base(array_index, data.texture_states_per_set, *d),
    ensures
        r is Some <==> forall|i: int|
            0 <= i < d.element_count ==> #[trigger] texture_element_ok(
                *rs,
                *pipeline,
                *data,
                set_index,
                array_index,
                *d,
                i,
            ),
        r matches Some(c) ==> c@ == spec_texture_commands(
            *rs,
            *pipeline,
            *data,
            set_index,
            array_index,
            *d,
            d.element_count as nat,
        ),
{
    let mut r: Vec<GlCommand> = Vec::new();
    let mut i: u32 = 0;
    while i < d.element_count
        invariant
            i <= d.element_count,
            set_index < MAX_DESCRIPTOR_SET_LAYOUTS,
            rs.layouts@.len() == MAX_DESCRIPTOR_SET_LAYOUTS,
            d.descriptor_data_offset_in_set is Some,
            d.sampler_descriptor_index is Some,
            sampler_ok(*rs, *data, array_index, *d),
            sampler == spec_texture_sampler(*rs, *data, array_index, *d),
            base == state_base(array_index, data.texture_states_per_set, *d),
            forall|j: int|
                0 <= j < i ==> #[trigger] texture_element_ok(
                    *rs,
                    *pipeline,
                    *data,
                    set_index,
                    array_index,
                    *d,
                    j,
                ),
            r@ == spec_texture_commands(
                *rs,
                *pipeline,
                *data,
                set_index,
                array_index,
                *d,
                i as nat,
            ),
        decreases d.element_count - i,
    {
        match texture_element_commands(rs, pipeline, data, set_index, array_index, d, sampler, base, i) {
            Some(c) => {
                let mut c = c;
                r.append(&mut c);
            },
            None => {
                return None;
            },
        }
        i = i + 1;
    }
    Some(r)
}

/// The calls that set the fields of a uniform from the buffer bound at `buffer_state_index`.
fn uniform_field_commands(
    pipeline: &Gles3PipelineInfo,
    fields: &[UniformFieldInfo],
    buffer_state_index: u32,
    buffer: BufferDescriptorState,
) -> (r: Vec<GlCommand>)
    requires
        forall|j: int|
            0 <= j < fields@.len() ==> (#[trigger] fields@[j]).field_index.0
                < pipeline.uniform_member_locations@.len(),
    ensures
        r@ == spec_uniform_field_commands(
            *pipeline,
            fields@,
            buffer_state_index as int,
            buffer,
            fields@.len(),
        ),
{
    let mut r: Vec<GlCommand> = Vec::new();
    let mut m: usize = 0;
    while m < fields.len()
        invariant
            m <= fields@.len(),
            forall|j: int|
                0 <= j < fields@.len() ==> (#[trigger] fields@[j]).field_index.0
                    < pipeline.uniform_member_locations@.len(),
            r@ == spec_uniform_field_commands(
                *pipeline,
                fields@,
                buffer_state_index as int,
                buffer,
                m as nat,
            ),
        decreases fields@.len() - m,
    {
        let f = &fields[m];
        match pipeline.uniform_member_locations[f.field_index.0 as usize] {
            Some(location) => {
                r.push(
                    GlCommand::UniformFromBuffer {
                        location,
                        gl_type: f.ty,
                        element_count: f.element_count,
                        buffer_state_index,
                        buffer_offset: buffer.offset,
                        field_offset: f.offset,
                    },
                );
            },
            None => {},
        }
        assert(r@ =~= spec_uniform_field_commands(
            *pipeline,
            fields@,
            buffer_state_index as int,
            buffer,
            (m + 1) as nat,
        ));
        m = m + 1;
    }
    r
}

/// Whether the program knows every field.
fn fields_known(pipeline: &Gles3PipelineInfo, fields: &[UniformFieldInfo]) -> (r: bool)
    ensures
        r == forall|j: int|
            0 <= j < fields@.len() ==> (#[trigger] fields@[j]).field_index.0
                < pipeline.uniform_member_locations@.len(),
{
    let mut m: usize = 0;
    while m < fields.len()
        invariant
            m <= fields@.len(),
            forall|j: int|
                0 <= j < m ==> (#[trigger] fields@[j]).field_index.0
                    < pipeline.uniform_member_locations@.len(),
        decreases fields@.len() - m,
    {
        if (fields[m].field_index.0 as usize) >= pipeline.uniform_member_locations.len() {
            return false;
        }
        m = m + 1;
    }
    true
}

/// The calls for every element of a uniform buffer descriptor, if each can be pushed.
fn uniform_commands(
    refl: &UniformReflectionData,
    pipeline: &Gles3PipelineInfo,
    data: &DescriptorSetArrayData,
    array_index: u32,
    d: &DescriptorInfo,
    u: UniformIndex,
    base: u32,
) -> (r: Option<Vec<GlCommand>>)
    requires
        refl.wf(),
        d.descriptor_data_offset_in_set is Some,
        base == state_base(array_index, data.buffer_states_per_set, *d),
    ensures
        r is Some <==> forall|i: int|
            0 <= i < d.element_count ==> #[trigger] uniform_element_ok(
                *refl,
                *pipeline,
                *data,
                array_index,
                *d,
                u,
                i,
            ),
        r matches Some(c) ==> c@ == spec_uniform_commands(
            *refl,
            *pipeline,
            *data,
            array_index,
            *d,
            u,
            d.element_count as nat,
        ),
{
    let mut r: Vec<GlCommand> = Vec::new();
    let mut i: u32 = 0;
    while i < d.element_count
        invariant
            i <= d.element_count,
            refl.wf(),
            d.descriptor_data_offset_in_set is Some,
            base == state_base(array_index, data.buffer_states_per_set, *d),
            forall|j: int|
                0 <= j < i ==> #[trigger] uniform_element_ok(
                    *refl,
                    *pipeline,
                    *data,
                    array_index,
                    *d,
                    u,
                    j,
                ),
            r@ == spec_uniform_commands(*refl, *pipeline, *data, array_index, *d, u, i as nat),
        decreases d.element_count - i,
    {
        let buffer_state_index = match add_u32(base, i) {
            Some(v) => v,
            None => {
                assert(!uniform_element_ok(*refl, *pipeline, *data, array_index, *d, u, i as int));
                return None;
            },
        };
        if (buffer_state_index as usize) >= data.buffer_states.len() {
            assert(!uniform_element_ok(*refl, *pipeline, *data, array_index, *d, u, i as int));
            return None;
        }
        let buffer = match data.buffer_states[buffer_state_index as usize] {
            Some(b) => {
                if !b.has_contents {
                    assert(!uniform_element_ok(*refl, *pipeline, *data, array_index, *d, u, i as int));
                    return None;
                }
                b
            },
            None => {
                assert(!uniform_element_ok(*refl, *pipeline, *data, array_index, *d, u, i as int));
                return None;
            },
        };
        if (u.0 as usize) >= refl.uniforms_len() {
            assert(!uniform_element_ok(*refl, *pipeline, *data, array_index, *d, u, i as int));
            return None;
        }
        let fields = refl.uniform_fields(u);
        if !fields_known(pipeline, fields) {
            assert(!uniform_element_ok(*refl, *pipeline, *data, array_index, *d, u, i as int));
            return None;
        }
        let mut c = uniform_field_commands(pipeline, fields, buffer_state_index, buffer);
        r.append(&mut c);
        i = i + 1;
    }
    Some(r)
}


/// The calls that push one descriptor for a set, if it can be pushed.
fn descriptor_commands(
    rs: &RafxRootSignatureGles3,
    pipeline: &Gles3PipelineInfo,
    data: &DescriptorSetArrayData,
    set_index: u32,
    array_index: u32,
    d: &DescriptorInfo,
) -> (r: Option<Vec<GlCommand>>)
    requires
        set_index < MAX_DESCRIPTOR_SET_LAYOUTS,
        rs.layouts@.len() == MAX_DESCRIPTOR_SET_LAYOUTS,
        rs.uniform_reflection.wf(),
    ensures
        r is Some <==> descriptor_ok(*rs, *pipeline, *data, set_index, array_index, *d),
        r matches Some(c) ==> c@ == spec_descriptor_commands(
            *rs,
            *pipeline,
            *data,
            set_index,
            array_index,
            *d,
        ),
{
    let rt = d.resource_type.0;
    if rt == RafxResourceType::SAMPLER {
        let r: Vec<GlCommand> = Vec::new();
        assert(r@ =~= spec_descriptor_commands(*rs, *pipeline, *data, set_index, array_index, *d));
        Some(r)
    } else if rt == RafxResourceType::TEXTURE || rt == RafxResourceType::TEXTURE_READ_WRITE {
        let offset = match d.descriptor_data_offset_in_set {
            Some(o) => o,
            None => {
                return None;
            },
        };
        let base = match mul_add_u32(array_index, data.texture_states_per_set, offset) {
            Some(v) => v,
            None => {
                return None;
            },
        };
        if d.sampler_descriptor_index.is_none() {
            let r: Vec<GlCommand> = Vec::new();
            assert(r@ =~= spec_descriptor_commands(*rs, *pipeline, *data, set_index, array_index, *d));
            return Some(r);
        }
        let sampler = match texture_sampler(rs, data, array_index, d) {
            Some(s) => s,
            None => {
                return None;
            },
        };
        texture_commands(rs, pipeline, data, set_index, array_index, d, sampler, base)
    } else if rt == RafxResourceType::UNIFORM_BUFFER {
        match d.uniform_index {
            Some(u) => {
                let offset = match d.descriptor_data_offset_in_set {
                    Some(o) => o,
                    None => {
                        return None;
                    },
                };
                let base = match mul_add_u32(array_index, data.buffer_states_per_set, offset) {
                    Some(v) => v,
                    None => {
                        return None;
                    },
                };
                uniform_commands(&rs.uniform_reflection, pipeline, data, array_index, d, u, base)
            },
            None => {
                let r: Vec<GlCommand> = Vec::new();
                assert(r@ =~= spec_descriptor_commands(
                    *rs,
                    *pipeline,
                    *data,
                    set_index,
                    array_index,
                    *d,
                ));
                Some(r)
            },
        }
    } else {
        None
    }
}

/// The calls that push a descriptor set, or `None` where a descriptor cannot be pushed.
fn set_commands_checked(
    root_signature: &RafxRootSignatureGles3,
    pipeline: &Gles3PipelineInfo,
    data: &DescriptorSetArrayData,
    set_index: u32,
    array_index: u32,
) -> (r: Option<Vec<GlCommand>>)
    requires
        root_signature.wf(),
        root_signature.uniform_reflection.wf(),
    ensures
        r is Some <==> descriptor_set_bindable(
            *root_signature,
            *pipeline,
            *data,
            set_index,
            array_index,
        ),
        r matches Some(c) ==> c@ == spec_set_commands(
            *root_signature,
            *pipeline,
            *data,
            set_index,
            array_index,
            root_signature.layouts@[set_index as int].descriptors@.len(),
        ),
{
    let rs = root_signature;
    if set_index as usize >= MAX_DESCRIPTOR_SET_LAYOUTS {
        return None;
    }
    let layout = &rs.layouts[set_index as usize];
    let n = layout.descriptors.len();
    let mut r: Vec<GlCommand> = Vec::new();
    let mut k: usize = 0;
    while k < n
        invariant
            k <= n,
            n == rs.layouts@[set_index as int].descriptors@.len(),
            *layout == rs.layouts@[set_index as int],
            rs == root_signature,
            set_index < MAX_DESCRIPTOR_SET_LAYOUTS,
            rs.wf(),
            rs.uniform_reflection.wf(),
            forall|j: int|
                0 <= j < k ==> #[trigger] descriptor_ok(
                    *rs,
                    *pipeline,
                    *data,
                    set_index,
                    array_index,
                    layout_descriptor(*rs, set_index, j),
                ),
            r@ == spec_set_commands(*rs, *pipeline, *data, set_index, array_index, k as nat),
        decreases n - k,
    {
        let descriptor_index = layout.descriptors[k];
        assert(descriptor_index.0 < rs.descriptors@.len());
        let d = &rs.descriptors[descriptor_index.0 as usize];
        assert(*d == layout_descriptor(*rs, set_index, k as int));
        match descriptor_commands(rs, pipeline, data, set_index, array_index, d) {
            Some(c) => {
                let mut c = c;
                r.append(&mut c);
            },
            None => {
                assert(!descriptor_ok(
                    *rs,
                    *pipeline,
                    *data,
                    set_index,
                    array_index,
                    layout_descriptor(*rs, set_index, k as int),
                ));
                return None;
            },
        }
        k = k + 1;
    }
    Some(r)
}


/// Whether a descriptor set can be pushed into the program: every descriptor of its layout has
/// what pushing it reads (bound textures and samplers, reflected uniform fields), and no
/// descriptor is of a kind that cannot be pushed.
pub fn descriptor_set_bindable_for(
    root_signature: &RafxRootSignatureGles3,
    pipeline: &Gles3PipelineInfo,
    data: &DescriptorSetArrayData,
    set_index: u32,
    array_index: u32,
) -> (r: bool)
    requires
        root_signature.wf(),
        root_signature.uniform_reflection.wf(),
    ensures
        r == descriptor_set_bindable(*root_signature, *pipeline, *data, set_index, array_index),
{
    set_commands_checked(root_signature, pipeline, data, set_index, array_index).is_some()
}

/// Pushes set `array_index` of a descriptor set array, bound at `set_index`, into a program:
/// the calls for each descriptor of the set layout in turn. Every descriptor must be one that
/// can be pushed (`descriptor_set_bindable_for` tells): each texture or buffer element the
/// program uses has something bound, its sampler and uniform fields can be found, and no
/// descriptor is of a type that GL ES 2.0 programs cannot receive.
pub fn do_bind_descriptor_set(
    root_signature: &RafxRootSignatureGles3,
    pipeline: &Gles3PipelineInfo,
    data: &DescriptorSetArrayData,
    set_index: u32,
    array_index: u32,
) -> (r: Vec<GlCommand>)
    requires
        root_signature.wf(),
        root_signature.uniform_reflection.wf(),
        descriptor_set_bindable(*root_signature, *pipeline, *data, set_index, array_index),
    ensures
        r@ == spec_set_commands(
            *root_signature,
            *pipeline,
            *data,
            set_index,
            array_index,
            root_signature.layouts@[set_index as int].descriptors@.len(),
        ),
{
    match set_commands_checked(root_signature, pipeline, data, set_index, array_index) {
        Some(c) => c,
        None => vstd::pervasive::unreached(),
    }
}

} // verus!
