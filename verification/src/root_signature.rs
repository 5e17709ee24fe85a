//! Root signatures: the descriptor layout of a pipeline. Each descriptor gets its slot in the
//! flat texture, sampler or uniform-buffer state arrays of its set, its uniform locations, and,
//! for textures, the sampler that GL ES 2.0 must apply with them.
use crate::fnv_maps::{
    binding_map_contents, binding_map_get, binding_map_insert, binding_map_new, name_map_contents,
    name_map_get, name_map_insert, name_map_new, sampler_name_map_contents, sampler_name_map_get,
    sampler_name_map_insert, sampler_name_map_new, BindingMap, NameMap, SamplerNameMap,
};
use crate::reflection::{UniformIndex, UniformReflectionData};
use crate::sampler::RafxSamplerGles2;
use crate::types::{
    RafxDescriptorIndex, RafxError, RafxPipelineType, RafxResourceType, RafxResult,
    MAX_DESCRIPTOR_SET_LAYOUTS,
};
use vstd::prelude::*;
use vstd::string::StringSliceAdditionalSpecFns;
use vstd::utf8::encode_utf8;

verus! {

/// Where a texture's sampler comes from.
#[derive(Copy, Clone, Debug, PartialEq, Eq, Structural)]
pub enum RafxSamplerIndexGles3 {
    /// The immutable sampler at this index of the root signature.
    Immutable(u32),
    /// The sampler bound to this descriptor.
    Mutable(RafxDescriptorIndex),
}

/// A shader resource as the shaders' reflection data, merged across stages, declares it.
pub struct RafxShaderResourceGles {
    pub resource_type: RafxResourceType,
    pub set_index: u32,
    pub binding: u32,
    /// The array length; 0 declares an unsized array, which is laid out as one element.
    pub element_count: u32,
    pub name: Option<String>,
    /// The name GL knows the resource by.
    pub gles_name: String,
    /// For a texture, the GL name of the sampler to apply with it.
    pub gles_sampler_name: Option<String>,
    /// Which of the root signature's immutable sampler lists is bound to this resource.
    pub immutable_sampler_index: Option<usize>,
}

impl RafxShaderResourceGles {
    /// The number of elements the resource is laid out with: an unsized array (0) as one.
    pub open spec fn spec_element_count_normalized(&self) -> u32 {
        if self.element_count == 0 {
            1
        } else {
            self.element_count
        }
    }

    pub fn element_count_normalized(&self) -> (r: u32)
        ensures
            r == self.spec_element_count_normalized(),
    {
        if self.element_count == 0 {
            1
        } else {
            self.element_count
        }
    }
}

/// The name of one uniform location: the resource's GL name, with `[element]` appended when
/// the resource is an array.
#[derive(Clone, Debug)]
pub struct LocationName {
    pub base: String,
    pub element: Option<u32>,
}

/// The decimal digits of `n`, as ASCII bytes.
pub open spec fn spec_decimal(n: nat) -> Seq<u8>
    decreases n,
{
    if n < 10 {
        seq![(48 + n) as u8]
    } else {
        spec_decimal(n / 10).push((48 + n % 10) as u8)
    }
}

fn decimal_bytes(n: u32) -> (r: Vec<u8>)
    ensures
        r@ == spec_decimal(n as nat),
    decreases n,
{
    if n < 10 {
        vec![48 + n as u8]
    } else {
        let mut r = decimal_bytes(n / 10);
        r.push(48 + (n % 10) as u8);
        r
    }
}

/// The name GL knows a location by: the base name, and for an array element `[i]` after it.
pub open spec fn spec_location_gl_name(l: LocationName) -> Seq<u8> {
    match l.element {
        None => encode_utf8(l.base@),
        Some(i) => encode_utf8(l.base@) + seq![91u8] + spec_decimal(i as nat) + seq![93u8],
    }
}

impl LocationName {
    /// The bytes of the name GL knows this location by.
    pub fn gl_name(&self) -> (r: Vec<u8>)
        ensures
            r@ == spec_location_gl_name(*self),
    {
        let base = self.base.as_str().as_bytes();
        let mut r = vstd::slice::slice_to_vec(base);
        assert(r@ == encode_utf8(self.base@));
        match self.element {
            None => {},
            Some(i) => {
                r.push(91u8);
                let mut digits = decimal_bytes(i);
                r.append(&mut digits);
                r.push(93u8);
                assert(r@ =~= encode_utf8(self.base@) + seq![91u8] + spec_decimal(i as nat) + seq![93u8]);
            },
        }
        r
    }
}

#[derive(Debug)]
pub struct DescriptorInfo {
    pub name: Option<String>,
    pub resource_type: RafxResourceType,
    /// Also the set layout.
    pub set_index: u32,
    /// Binding within the set.
    pub binding: u32,
    /// Used for arrays of textures, samplers, etc.
    pub element_count: u32,
    /// Index into the root signature's descriptor list (not the binding).
    pub descriptor_index: RafxDescriptorIndex,
    /// The uniform block binding GL assigns to a uniform buffer.
    pub uniform_block_binding: Option<u32>,
    /// The reflected uniform of a uniform buffer, if some program uses it.
    pub uniform_index: Option<UniformIndex>,
    /// Where this descriptor's states start in its set's texture, sampler or buffer states.
    pub descriptor_data_offset_in_set: Option<u32>,
    /// The sampler to apply with a texture.
    pub sampler_descriptor_index: Option<RafxSamplerIndexGles3>,
    /// Index into the root signature's location names of the first element's location.
    pub first_location_index: Option<u32>,
}

pub struct DescriptorSetLayoutInfo {
    /// Settable descriptors; immutable samplers are omitted.
    pub descriptors: Vec<RafxDescriptorIndex>,
    pub binding_to_descriptor_index: BindingMap,
    pub texture_descriptor_state_count: u32,
    pub sampler_descriptor_state_count: u32,
    pub buffer_descriptor_state_count: u32,
    /// The sum of the texture state counts of lower-numbered sets, so that every texture of
    /// every set gets its own texture unit.
    pub texture_unit_offset: u32,
}

pub struct RafxRootSignatureGles3 {
    pub pipeline_type: RafxPipelineType,
    pub layouts: Vec<DescriptorSetLayoutInfo>,
    pub descriptors: Vec<DescriptorInfo>,
    pub name_to_descriptor_index: NameMap,
    pub immutable_samplers: Vec<RafxSamplerGles2>,
    pub uniform_block_descriptors: Vec<RafxDescriptorIndex>,
    pub root_signature_id: u32,
    pub location_names: Vec<LocationName>,
    pub uniform_reflection: UniformReflectionData,
}

/// Which per-set state array a descriptor's data lives in.
#[derive(Copy, Clone, Debug, PartialEq, Eq, Structural)]
pub enum DescriptorDataKind {
    Texture,
    Sampler,
    Buffer,
}

pub open spec fn spec_data_kind(rt: RafxResourceType) -> Option<DescriptorDataKind> {
    if rt.spec_intersects(RafxResourceType::TEXTURE | RafxResourceType::TEXTURE_READ_WRITE) {
        Some(DescriptorDataKind::Texture)
    } else if rt.spec_intersects(RafxResourceType::SAMPLER) {
        Some(DescriptorDataKind::Sampler)
    } else if rt.spec_intersects(RafxResourceType::UNIFORM_BUFFER) {
        Some(DescriptorDataKind::Buffer)
    } else {
        None
    }
}

/// Resources that GL addresses through uniform locations.
pub open spec fn has_locations(rt: RafxResourceType) -> bool {
    rt.spec_intersects(
        RafxResourceType::TEXTURE | RafxResourceType::TEXEL_BUFFER_READ_WRITE
            | RafxResourceType::UNIFORM_BUFFER,
    )
}

pub open spec fn is_texture(rt: RafxResourceType) -> bool {
    rt.spec_intersects(RafxResourceType::TEXTURE | RafxResourceType::TEXTURE_READ_WRITE)
}

/// The location names of a resource's elements.
pub open spec fn spec_location_names(r: RafxShaderResourceGles) -> Seq<LocationName> {
    Seq::new(
        r.spec_element_count_normalized() as nat,
        |i: int|
            LocationName {
                base: r.gles_name,
                element: if r.spec_element_count_normalized() == 1 {
                    None
                } else {
                    Some(i as u32)
                },
            },
    )
}

/// The uniform that the reflection data has under this name.
pub open spec fn spec_uniform_lookup(refl: UniformReflectionData, name: Seq<u8>) -> Option<
    UniformIndex,
> {
    if exists|g: int|
        0 <= g < refl.spec_uniforms().len() && refl.spec_uniforms()[g].name@ == name {
        Some(
            UniformIndex(
                (choose|g: int|
                    0 <= g < refl.spec_uniforms().len() && refl.spec_uniforms()[g].name@
                        == name) as u32,
            ),
        )
    } else {
        None
    }
}

/// A descriptor as the build makes it, before its sampler is resolved.
pub struct SpecDescriptor {
    pub name: Option<String>,
    pub resource_type: RafxResourceType,
    pub set_index: u32,
    pub binding: u32,
    pub element_count: u32,
    pub uniform_block_binding: Option<u32>,
    pub uniform_index: Option<UniformIndex>,
    pub descriptor_data_offset_in_set: u32,
    pub first_location_index: Option<u32>,
    /// For a texture, the GL name of its sampler.
    pub sampler_name: Option<Seq<char>>,
}

/// The state of a root signature build after some resources.
pub struct RootSignatureBuild {
    pub descriptors: Seq<SpecDescriptor>,
    pub layout_descriptors: Seq<Seq<RafxDescriptorIndex>>,
    pub layout_bindings: Seq<Map<u32, RafxDescriptorIndex>>,
    pub names: Map<Seq<char>, RafxDescriptorIndex>,
    pub texture_counts: Seq<int>,
    pub sampler_counts: Seq<int>,
    pub buffer_counts: Seq<int>,
    pub location_names: Seq<LocationName>,
    pub immutable_samplers: Seq<RafxSamplerGles2>,
    pub uniform_block_descriptors: Seq<RafxDescriptorIndex>,
    pub sampler_names: Map<Seq<char>, RafxSamplerIndexGles3>,
}

pub open spec fn spec_build_start() -> RootSignatureBuild {
    RootSignatureBuild {
        descriptors: Seq::empty(),
        layout_descriptors: Seq::new(4, |i: int| Seq::<RafxDescriptorIndex>::empty()),
        layout_bindings: Seq::new(4, |i: int| Map::<u32, RafxDescriptorIndex>::empty()),
        names: Map::empty(),
        texture_counts: seq![0, 0, 0, 0],
        sampler_counts: seq![0, 0, 0, 0],
        buffer_counts: seq![0, 0, 0, 0],
        location_names: Seq::empty(),
        immutable_samplers: Seq::empty(),
        uniform_block_descriptors: Seq::empty(),
        sampler_names: Map::empty(),
    }
}

pub open spec fn kind_count(st: RootSignatureBuild, kind: DescriptorDataKind, set: int) -> int {
    match kind {
        DescriptorDataKind::Texture => st.texture_counts[set],
        DescriptorDataKind::Sampler => st.sampler_counts[set],
        DescriptorDataKind::Buffer => st.buffer_counts[set],
    }
}

/// The state after reserving a resource's data slots and location names.
pub open spec fn spec_reserve(
    st: RootSignatureBuild,
    kind: DescriptorDataKind,
    r: RafxShaderResourceGles,
) -> RootSignatureBuild {
    let set = r.set_index as int;
    let n = r.spec_element_count_normalized() as int;
    RootSignatureBuild {
        texture_counts: if kind == DescriptorDataKind::Texture {
            st.texture_counts.update(set, st.texture_counts[set] + n)
        } else {
            st.texture_counts
        },
        sampler_counts: if kind == DescriptorDataKind::Sampler {
            st.sampler_counts.update(set, st.sampler_counts[set] + n)
        } else {
            st.sampler_counts
        },
        buffer_counts: if kind == DescriptorDataKind::Buffer {
            st.buffer_counts.update(set, st.buffer_counts[set] + n)
        } else {
            st.buffer_counts
        },
        location_names: if has_locations(r.resource_type) {
            st.location_names + spec_location_names(r)
        } else {
            st.location_names
        },
        ..st
    }
}

/// One resource's effect on the build, or the error it raises.
pub open spec fn spec_step(
    st: RootSignatureBuild,
    r: RafxShaderResourceGles,
    immutable: Seq<Seq<RafxSamplerGles2>>,
    refl: UniformReflectionData,
) -> RafxResult<RootSignatureBuild> {
    match spec_data_kind(r.resource_type) {
        None => Err(RafxError::ResourceTypeNotSupported(r.resource_type)),
        Some(kind) => {
            let offset = kind_count(st, kind, r.set_index as int);
            let first_location_index = if has_locations(r.resource_type) {
                Some(st.location_names.len() as u32)
            } else {
                None
            };
            let st1 = spec_reserve(st, kind, r);
            match r.immutable_sampler_index {
                Some(ii) => if r.spec_element_count_normalized() as int != immutable[ii as int].len() {
                    Err(
                        RafxError::ImmutableSamplerCountMismatch(
                            r.spec_element_count_normalized(),
                            immutable[ii as int].len() as u32,
                        ),
                    )
                } else if st1.sampler_names.contains_key(r.gles_name@) {
                    Err(RafxError::DuplicateSamplerName)
                } else {
                    Ok(
                        RootSignatureBuild {
                            immutable_samplers: st1.immutable_samplers.push(
                                immutable[ii as int][0],
                            ),
                            sampler_names: st1.sampler_names.insert(
                                r.gles_name@,
                                RafxSamplerIndexGles3::Immutable(
                                    st1.immutable_samplers.len() as u32,
                                ),
                            ),
                            ..st1
                        },
                    )
                },
                None => {
                    let di = RafxDescriptorIndex(st1.descriptors.len() as u32);
                    let is_uniform_buffer = r.resource_type == RafxResourceType(
                        RafxResourceType::UNIFORM_BUFFER,
                    );
                    let d = SpecDescriptor {
                        name: r.name,
                        resource_type: r.resource_type,
                        set_index: r.set_index,
                        binding: r.binding,
                        element_count: r.spec_element_count_normalized(),
                        uniform_block_binding: if is_uniform_buffer {
                            Some(st1.uniform_block_descriptors.len() as u32)
                        } else {
                            None
                        },
                        uniform_index: if is_uniform_buffer {
                            spec_uniform_lookup(refl, encode_utf8(r.gles_name@))
                        } else {
                            None
                        },
                        descriptor_data_offset_in_set: offset as u32,
                        first_location_index,
                        sampler_name: if is_texture(r.resource_type) {
                            match r.gles_sampler_name {
                                Some(s) => Some(s@),
                                None => None,
                            }
                        } else {
                            None
                        },
                    };
                    let set = r.set_index as int;
                    let st2 = RootSignatureBuild {
                        descriptors: st1.descriptors.push(d),
                        layout_descriptors: st1.layout_descriptors.update(
                            set,
                            st1.layout_descriptors[set].push(di),
                        ),
                        layout_bindings: st1.layout_bindings.update(
                            set,
                            st1.layout_bindings[set].insert(r.binding, di),
                        ),
                        names: match r.name {
                            Some(n) => st1.names.insert(n@, di),
                            None => st1.names,
                        },
                        uniform_block_descriptors: if is_uniform_buffer {
                            st1.uniform_block_descriptors.push(di)
                        } else {
                            st1.uniform_block_descriptors
                        },
                        ..st1
                    };
                    if r.resource_type.spec_intersects(RafxResourceType::SAMPLER) {
                        if st2.sampler_names.contains_key(r.gles_name@) {
                            Err(RafxError::DuplicateSamplerName)
                        } else {
                            Ok(
                                RootSignatureBuild {
                                    sampler_names: st2.sampler_names.insert(
                                        r.gles_name@,
                                        RafxSamplerIndexGles3::Mutable(di),
                                    ),
                                    ..st2
                                },
                            )
                        }
                    } else {
                        Ok(st2)
                    }
                },
            }
        },
    }
}

/// The build over a list of resources, stopping at the first error.
pub open spec fn spec_build(
    resources: Seq<RafxShaderResourceGles>,
    immutable: Seq<Seq<RafxSamplerGles2>>,
    refl: UniformReflectionData,
) -> RafxResult<RootSignatureBuild>
    decreases resources.len(),
{
    if resources.len() == 0 {
        Ok(spec_build_start())
    } else {
        match spec_build(resources.drop_last(), immutable, refl) {
            Err(e) => Err(e),
            Ok(st) => spec_step(st, resources.last(), immutable, refl),
        }
    }
}


/// The sum of the resources' element counts.
pub open spec fn spec_total_elements(resources: Seq<RafxShaderResourceGles>) -> int
    decreases resources.len(),
{
    if resources.len() == 0 {
        0
    } else {
        spec_total_elements(resources.drop_last()) + resources.last().spec_element_count_normalized()
    }
}

/// What laying out asserts or indexes without a check: set indices below the layout count,
/// immutable sampler lists that exist, are bound to samplers and are
/// no longer than one sampler when they match the element count, and texture samplers that
/// name some sampler resource.
pub open spec fn resources_valid(
    resources: Seq<RafxShaderResourceGles>,
    immutable: Seq<Seq<RafxSamplerGles2>>,
) -> bool {
    &&& forall|i: int|
        0 <= i < resources.len() ==> {
            let r = #[trigger] resources[i];
            &&& r.set_index < 4
            &&& r.immutable_sampler_index matches Some(ii) ==> {
                &&& ii < immutable.len()
                &&& r.resource_type.spec_intersects(RafxResourceType::SAMPLER)
                &&& !(immutable[ii as int].len() > 1 && immutable[ii as int].len()
                    == r.spec_element_count_normalized())
            }
        }
    &&& forall|i: int|
        0 <= i < resources.len() && is_texture(resources[i].resource_type)
            && resources[i].immutable_sampler_index is None
            && resources[i].gles_sampler_name is Some ==> exists|j: int|
            0 <= j < resources.len() && resources[j].resource_type.spec_intersects(
                RafxResourceType::SAMPLER,
            ) && resources[j].gles_name@ == (#[trigger] resources[i].gles_sampler_name)->0@
}

/// The sampler a texture descriptor is applied with, once all samplers are known.
pub open spec fn spec_resolved_sampler(
    d: SpecDescriptor,
    sampler_names: Map<Seq<char>, RafxSamplerIndexGles3>,
) -> Option<RafxSamplerIndexGles3> {
    match d.sampler_name {
        Some(s) => Some(sampler_names[s]),
        None => None,
    }
}

/// The sum of the texture state counts of the sets below `set`.
pub open spec fn spec_texture_unit_offset(counts: Seq<int>, set: int) -> int
    decreases set,
{
    if set <= 0 {
        0
    } else {
        spec_texture_unit_offset(counts, set - 1) + counts[set - 1]
    }
}

pub open spec fn descriptor_matches(
    d: DescriptorInfo,
    sd: SpecDescriptor,
    k: int,
    sampler: Option<RafxSamplerIndexGles3>,
) -> bool {
    &&& d.name == sd.name
    &&& d.resource_type == sd.resource_type
    &&& d.set_index == sd.set_index
    &&& d.binding == sd.binding
    &&& d.element_count == sd.element_count
    &&& d.descriptor_index.0 == k
    &&& d.uniform_block_binding == sd.uniform_block_binding
    &&& d.uniform_index == sd.uniform_index
    &&& d.descriptor_data_offset_in_set == Some(sd.descriptor_data_offset_in_set)
    &&& d.first_location_index == sd.first_location_index
    &&& d.sampler_descriptor_index == sampler
}

impl RafxRootSignatureGles3 {
    /// The root signature holds what the build over its resources made.
    pub open spec fn built_from(&self, st: RootSignatureBuild) -> bool {
        &&& self.descriptors@.len() == st.descriptors.len()
        &&& forall|k: int|
            0 <= k < st.descriptors.len() ==> descriptor_matches(
                #[trigger] self.descriptors@[k],
                st.descriptors[k],
                k,
                spec_resolved_sampler(st.descriptors[k], st.sampler_names),
            )
        &&& self.layouts@.len() == 4
        &&& forall|set: int|
            0 <= set < 4 ==> {
                let l = #[trigger] self.layouts@[set];
                &&& l.descriptors@ == st.layout_descriptors[set]
                &&& binding_map_contents(l.binding_to_descriptor_index) == st.layout_bindings[set]
                &&& l.texture_descriptor_state_count == st.texture_counts[set]
                &&& l.sampler_descriptor_state_count == st.sampler_counts[set]
                &&& l.buffer_descriptor_state_count == st.buffer_counts[set]
                &&& l.texture_unit_offset == spec_texture_unit_offset(st.texture_counts, set)
            }
        &&& name_map_contents(self.name_to_descriptor_index) == st.names
        &&& self.immutable_samplers@ == st.immutable_samplers
        &&& self.uniform_block_descriptors@ == st.uniform_block_descriptors
        &&& self.location_names@ == st.location_names
    }
}

/// A root signature build in progress.
struct RootSignatureBuilder {
    descriptors: Vec<DescriptorInfo>,
    sampler_names_of_descriptors: Vec<Option<String>>,
    layout_descriptors: Vec<Vec<RafxDescriptorIndex>>,
    layout_bindings: Vec<BindingMap>,
    names: NameMap,
    texture_counts: Vec<u32>,
    sampler_counts: Vec<u32>,
    buffer_counts: Vec<u32>,
    location_names: Vec<LocationName>,
    immutable_samplers: Vec<RafxSamplerGles2>,
    uniform_block_descriptors: Vec<RafxDescriptorIndex>,
    sampler_map: SamplerNameMap,
}

impl RootSignatureBuilder {
    spec fn holds(&self, st: RootSignatureBuild) -> bool {
        &&& self.descriptors@.len() == st.descriptors.len()
        &&& self.sampler_names_of_descriptors@.len() == st.descriptors.len()
        &&& forall|k: int|
            0 <= k < st.descriptors.len() ==> descriptor_matches(
                #[trigger] self.descriptors@[k],
                st.descriptors[k],
                k,
                None,
            )
        &&& forall|k: int|
            0 <= k < st.descriptors.len() ==> match (
                #[trigger] self.sampler_names_of_descriptors@[k],
                st.descriptors[k].sampler_name,
            ) {
                (Some(a), Some(b)) => a@ == b,
                (None, None) => true,
                _ => false,
            }
        &&& self.layout_descriptors@.len() == 4
        &&& self.layout_bindings@.len() == 4
        &&& st.layout_descriptors.len() == 4
        &&& st.layout_bindings.len() == 4
        &&& forall|set: int|
            0 <= set < 4 ==> #[trigger] self.layout_descriptors@[set]@ == st.layout_descriptors[set]
        &&& forall|set: int|
            0 <= set < 4 ==> binding_map_contents(#[trigger] self.layout_bindings@[set])
                == st.layout_bindings[set]
        &&& name_map_contents(self.names) == st.names
        &&& self.texture_counts@.len() == 4
        &&& self.sampler_counts@.len() == 4
        &&& self.buffer_counts@.len() == 4
        &&& st.texture_counts.len() == 4
        &&& st.sampler_counts.len() == 4
        &&& st.buffer_counts.len() == 4
        &&& forall|set: int| 0 <= set < 4 ==> #[trigger] self.texture_counts@[set] == st.texture_counts[set]
        &&& forall|set: int| 0 <= set < 4 ==> #[trigger] self.sampler_counts@[set] == st.sampler_counts[set]
        &&& forall|set: int| 0 <= set < 4 ==> #[trigger] self.buffer_counts@[set] == st.buffer_counts[set]
        &&& self.location_names@ == st.location_names
        &&& self.immutable_samplers@ == st.immutable_samplers
        &&& self.uniform_block_descriptors@ == st.uniform_block_descriptors
        &&& sampler_name_map_contents(self.sampler_map) == st.sampler_names
    }
}

/// Bounds that keep a build's counters within `u32`: every count is at most the elements
/// processed so far (`n`), the other lists at most the resources processed (`i`).
pub open spec fn build_bounded(st: RootSignatureBuild, n: int, i: int) -> bool {
    &&& st.texture_counts[0] + st.texture_counts[1] + st.texture_counts[2] + st.texture_counts[3] + st.sampler_counts[0] + st.sampler_counts[1] + st.sampler_counts[2] + st.sampler_counts[3] + st.buffer_counts[0] + st.buffer_counts[1] + st.buffer_counts[2] + st.buffer_counts[3] <= n
    &&& forall|set: int| 0 <= set < 4 ==> #[trigger] st.texture_counts[set] >= 0 && st.sampler_counts[set] >= 0 && st.buffer_counts[set] >= 0
    &&& st.location_names.len() <= n
    &&& st.descriptors.len() <= i
    &&& st.immutable_samplers.len() <= i
    &&& st.uniform_block_descriptors.len() <= i
}

pub(crate) fn clone_string(s: &String) -> (r: String)
    ensures
        r == *s,
{
    s.clone()
}

pub(crate) fn clone_opt_string(s: &Option<String>) -> (r: Option<String>)
    ensures
        r == *s,
{
    match s {
        Some(x) => Some(x.clone()),
        None => None,
    }
}


fn data_kind(rt: RafxResourceType) -> (r: Option<DescriptorDataKind>)
    ensures
        r == spec_data_kind(rt),
{
    if rt.intersects(RafxResourceType::TEXTURE | RafxResourceType::TEXTURE_READ_WRITE) {
        Some(DescriptorDataKind::Texture)
    } else if rt.intersects(RafxResourceType::SAMPLER) {
        Some(DescriptorDataKind::Sampler)
    } else if rt.intersects(RafxResourceType::UNIFORM_BUFFER) {
        Some(DescriptorDataKind::Buffer)
    } else {
        None
    }
}


/// Appends the location names of a resource's elements.
fn push_location_names(location_names: &mut Vec<LocationName>, r: &RafxShaderResourceGles)
    ensures
        final(location_names)@ == old(location_names)@ + spec_location_names(*r),
{
    let ghost before = location_names@;
    let count = r.element_count_normalized();
    let mut e: u32 = 0;
    while e < count
        invariant
            count == r.spec_element_count_normalized(),
            e <= r.spec_element_count_normalized(),
            location_names@ == before + spec_location_names(*r).take(e as int),
        decreases count - e,
    {
        let element = if count == 1 {
            None
        } else {
            Some(e)
        };
        location_names.push(LocationName { base: clone_string(&r.gles_name), element });
        assert(spec_location_names(*r).take(e + 1) =~= spec_location_names(*r).take(e as int).push(
            spec_location_names(*r)[e as int],
        ));
        assert(location_names@ =~= before + spec_location_names(*r).take(e + 1));
        e = e + 1;
    }
    assert(spec_location_names(*r).take(r.spec_element_count_normalized() as int) =~= spec_location_names(*r));
}

impl RootSignatureBuilder {
    fn new() -> (r: RootSignatureBuilder)
        ensures
            r.holds(spec_build_start()),
    {
        let mut layout_descriptors: Vec<Vec<RafxDescriptorIndex>> = Vec::new();
        let mut layout_bindings: Vec<BindingMap> = Vec::new();
        let mut i: usize = 0;
        while i < 4
            invariant
                i <= 4,
                layout_descriptors@.len() == i,
                layout_bindings@.len() == i,
                forall|set: int| 0 <= set < i ==> (#[trigger] layout_descriptors@[set])@ == Seq::<RafxDescriptorIndex>::empty(),
                forall|set: int| 0 <= set < i ==> binding_map_contents(#[trigger] layout_bindings@[set]) == Map::<u32, RafxDescriptorIndex>::empty(),
            decreases 4 - i,
        {
            layout_descriptors.push(Vec::new());
            let m = binding_map_new();
            assert(binding_map_contents(m) =~= Map::<u32, RafxDescriptorIndex>::empty());
            layout_bindings.push(m);
            i = i + 1;
        }
        let names = name_map_new();
        assert(name_map_contents(names) =~= Map::<Seq<char>, RafxDescriptorIndex>::empty());
        let sampler_map = sampler_name_map_new();
        assert(sampler_name_map_contents(sampler_map) =~= Map::<Seq<char>, RafxSamplerIndexGles3>::empty());
        let b = RootSignatureBuilder {
            descriptors: Vec::new(),
            sampler_names_of_descriptors: Vec::new(),
            layout_descriptors,
            layout_bindings,
            names,
            texture_counts: vec![0, 0, 0, 0],
            sampler_counts: vec![0, 0, 0, 0],
            buffer_counts: vec![0, 0, 0, 0],
            location_names: Vec::new(),
            immutable_samplers: Vec::new(),
            uniform_block_descriptors: Vec::new(),
            sampler_map,
        };
        assert(b.holds(spec_build_start()));
        b
    }

    /// Reserves the resource's data slots and location names.
    fn reserve(
        &mut self,
        kind: DescriptorDataKind,
        r: &RafxShaderResourceGles,
        Ghost(st): Ghost<RootSignatureBuild>,
        Ghost(n): Ghost<int>,
        Ghost(i): Ghost<int>,
    ) -> (offset: u32)
        requires
            old(self).holds(st),
            build_bounded(st, n, i),
            n + r.spec_element_count_normalized() <= u32::MAX,
            r.set_index < 4,
        ensures
            final(self).holds(spec_reserve(st, kind, *r)),
            offset == kind_count(st, kind, r.set_index as int),
            build_bounded(spec_reserve(st, kind, *r), n + r.spec_element_count_normalized(), i),
    {
        let set = r.set_index as usize;
        let count = r.element_count_normalized();
        let offset;
        match kind {
            DescriptorDataKind::Texture => {
                offset = self.texture_counts[set];
                self.texture_counts.set(set, offset + count);
            },
            DescriptorDataKind::Sampler => {
                offset = self.sampler_counts[set];
                self.sampler_counts.set(set, offset + count);
            },
            DescriptorDataKind::Buffer => {
                offset = self.buffer_counts[set];
                self.buffer_counts.set(set, offset + count);
            },
        }
        if r.resource_type.intersects(
            RafxResourceType::TEXTURE | RafxResourceType::TEXEL_BUFFER_READ_WRITE
                | RafxResourceType::UNIFORM_BUFFER,
        ) {
            push_location_names(&mut self.location_names, r);
        }
        let ghost st1 = spec_reserve(st, kind, *r);
        assert(st1.texture_counts.len() == 4);
        assert forall|t: int| 0 <= t < 4 implies #[trigger] self.texture_counts@[t] == st1.texture_counts[t] by {}
        assert forall|t: int| 0 <= t < 4 implies #[trigger] self.sampler_counts@[t] == st1.sampler_counts[t] by {}
        assert forall|t: int| 0 <= t < 4 implies #[trigger] self.buffer_counts@[t] == st1.buffer_counts[t] by {}
        assert(self.location_names@ == st1.location_names);
        assert(self.holds(st1));
        offset
    }
}


/// The immutable sampler lists as sequences.
pub open spec fn sampler_lists(immutable: Seq<Vec<RafxSamplerGles2>>) -> Seq<Seq<RafxSamplerGles2>> {
    immutable.map_values(|v: Vec<RafxSamplerGles2>| v@)
}

/// The uniform of a uniform buffer, looked up by its GL name.
pub(crate) fn lookup_uniform(refl: &UniformReflectionData, name: &String) -> (r: Option<UniformIndex>)
    requires
        refl.wf(),
    ensures
        r == spec_uniform_lookup(*refl, encode_utf8(name@)),
{
    let s = name.as_str();
    let r = refl.uniform_index(s);
    proof {
        let bytes = encode_utf8(name@);
        assert(s.spec_bytes() == bytes);
        match r {
            Some(idx) => {
                let g = choose|g: int|
                    0 <= g < refl.spec_uniforms().len() && refl.spec_uniforms()[g].name@ == bytes;
                if g != idx.0 {
                    if g < idx.0 {
                        assert(refl.spec_uniforms()[g].name@ != refl.spec_uniforms()[idx.0 as int].name@);
                    } else {
                        assert(refl.spec_uniforms()[idx.0 as int].name@ != refl.spec_uniforms()[g].name@);
                    }
                }
            },
            None => {},
        }
    }
    r
}

impl RootSignatureBuilder {
    /// Processes one resource.
    fn step(
        &mut self,
        r: &RafxShaderResourceGles,
        immutable: &Vec<Vec<RafxSamplerGles2>>,
        refl: &UniformReflectionData,
        Ghost(st): Ghost<RootSignatureBuild>,
        Ghost(n): Ghost<int>,
        Ghost(i): Ghost<int>,
    ) -> (res: RafxResult<()>)
        requires
            old(self).holds(st),
            build_bounded(st, n, i),
            n + r.spec_element_count_normalized() <= u32::MAX,
            i + 1 <= u32::MAX,
            r.set_index < 4,
            r.immutable_sampler_index matches Some(ii) ==> {
                &&& ii < immutable.len()
                &&& !(immutable@[ii as int]@.len() > 1 && immutable@[ii as int]@.len()
                    == r.spec_element_count_normalized())
            },
            refl.wf(),
        ensures
            match spec_step(st, *r, sampler_lists(immutable@), *refl) {
                Ok(st2) => res is Ok && final(self).holds(st2) && build_bounded(
                    st2,
                    n + r.spec_element_count_normalized(),
                    i + 1,
                ),
                Err(e) => res == Err::<(), RafxError>(e),
            },
    {
        let kind = match data_kind(r.resource_type) {
            Some(k) => k,
            None => {
                return Err(RafxError::ResourceTypeNotSupported(r.resource_type));
            },
        };
        let first_location_index = if r.resource_type.intersects(
            RafxResourceType::TEXTURE | RafxResourceType::TEXEL_BUFFER_READ_WRITE
                | RafxResourceType::UNIFORM_BUFFER,
        ) {
            Some(self.location_names.len() as u32)
        } else {
            None
        };
        let offset = self.reserve(kind, r, Ghost(st), Ghost(n), Ghost(i));
        let ghost st1 = spec_reserve(st, kind, *r);
        let set = r.set_index as usize;
        match r.immutable_sampler_index {
            Some(ii) => {
                let samplers = &immutable[ii];
                assert(sampler_lists(immutable@)[ii as int] == samplers@);
                let count = r.element_count_normalized();
                if count as usize != samplers.len() {
                    return Err(
                        RafxError::ImmutableSamplerCountMismatch(
                            count,
                            samplers.len() as u32,
                        ),
                    );
                }
                let sampler = samplers[0];
                let idx = self.immutable_samplers.len() as u32;
                self.immutable_samplers.push(sampler);
                let old_entry = sampler_name_map_insert(
                    &mut self.sampler_map,
                    clone_string(&r.gles_name),
                    RafxSamplerIndexGles3::Immutable(idx),
                );
                if old_entry.is_some() {
                    return Err(RafxError::DuplicateSamplerName);
                }
                Ok(())
            },
            None => {
                let di = RafxDescriptorIndex(self.descriptors.len() as u32);
                let is_uniform_buffer = r.resource_type == RafxResourceType(
                    RafxResourceType::UNIFORM_BUFFER,
                );
                let uniform_block_binding = if is_uniform_buffer {
                    let b = self.uniform_block_descriptors.len() as u32;
                    self.uniform_block_descriptors.push(di);
                    Some(b)
                } else {
                    None
                };
                let uniform_index = if is_uniform_buffer {
                    lookup_uniform(refl, &r.gles_name)
                } else {
                    None
                };
                self.descriptors.push(
                    DescriptorInfo {
                        name: clone_opt_string(&r.name),
                        resource_type: r.resource_type,
                        set_index: r.set_index,
                        binding: r.binding,
                        element_count: r.element_count_normalized(),
                        descriptor_index: di,
                        uniform_block_binding,
                        uniform_index,
                        descriptor_data_offset_in_set: Some(offset),
                        sampler_descriptor_index: None,
                        first_location_index,
                    },
                );
                let sampler_name = if r.resource_type.intersects(
                    RafxResourceType::TEXTURE | RafxResourceType::TEXTURE_READ_WRITE,
                ) {
                    clone_opt_string(&r.gles_sampler_name)
                } else {
                    None
                };
                self.sampler_names_of_descriptors.push(sampler_name);
                match &r.name {
                    Some(name) => {
                        name_map_insert(&mut self.names, clone_string(name), di);
                    },
                    None => {},
                }
                self.layout_descriptors[set].push(di);
                binding_map_insert(&mut self.layout_bindings[set], r.binding, di);
                if r.resource_type.intersects(RafxResourceType::SAMPLER) {
                    let old_entry = sampler_name_map_insert(
                        &mut self.sampler_map,
                        clone_string(&r.gles_name),
                        RafxSamplerIndexGles3::Mutable(di),
                    );
                    if old_entry.is_some() {
                        return Err(RafxError::DuplicateSamplerName);
                    }
                }
                Ok(())
            },
        }
    }
}


/// A texture resource whose sampler goes by this GL name.
pub open spec fn texture_sampler_of(r: RafxShaderResourceGles, s: Seq<char>) -> bool {
    &&& r.immutable_sampler_index is None
    &&& is_texture(r.resource_type)
    &&& r.gles_sampler_name matches Some(n) && n@ == s
}

/// One step keeps every sampler name and every earlier descriptor, adds the resource's own
/// name when it is a sampler, and gives a new descriptor a sampler name only from a texture.
proof fn lemma_step_samplers(
    st: RootSignatureBuild,
    r: RafxShaderResourceGles,
    immutable: Seq<Seq<RafxSamplerGles2>>,
    refl: UniformReflectionData,
)
    requires
        spec_step(st, r, immutable, refl) is Ok,
    ensures
        ({
            let st2 = spec_step(st, r, immutable, refl)->Ok_0;
            &&& forall|s: Seq<char>|
                st.sampler_names.contains_key(s) ==> #[trigger] st2.sampler_names.contains_key(s)
            &&& r.resource_type.spec_intersects(RafxResourceType::SAMPLER)
                ==> st2.sampler_names.contains_key(r.gles_name@)
            &&& st.descriptors.len() <= st2.descriptors.len()
            &&& forall|k: int|
                0 <= k < st.descriptors.len() ==> #[trigger] st2.descriptors[k] == st.descriptors[k]
            &&& forall|k: int|
                st.descriptors.len() <= k < st2.descriptors.len() && (
                #[trigger] st2.descriptors[k]).sampler_name is Some ==> texture_sampler_of(
                    r,
                    st2.descriptors[k].sampler_name->0,
                )
        }),
{
}

/// After a build that succeeds, every sampler resource's name is known, and every texture
/// descriptor's sampler name is that of some texture resource.
proof fn lemma_build_samplers(
    resources: Seq<RafxShaderResourceGles>,
    immutable: Seq<Seq<RafxSamplerGles2>>,
    refl: UniformReflectionData,
)
    requires
        spec_build(resources, immutable, refl) is Ok,
    ensures
        ({
            let st = spec_build(resources, immutable, refl)->Ok_0;
            &&& forall|j: int|
                0 <= j < resources.len() && (#[trigger] resources[j]).resource_type.spec_intersects(
                    RafxResourceType::SAMPLER,
                ) ==> st.sampler_names.contains_key(resources[j].gles_name@)
            &&& forall|k: int|
                0 <= k < st.descriptors.len() && (#[trigger] st.descriptors[k]).sampler_name is Some
                    ==> exists|i: int|
                    0 <= i < resources.len() && #[trigger] texture_sampler_of(
                        resources[i],
                        st.descriptors[k].sampler_name->0,
                    )
        }),
    decreases resources.len(),
{
    if resources.len() > 0 {
        let prefix = resources.drop_last();
        lemma_build_samplers(prefix, immutable, refl);
        let st0 = spec_build(prefix, immutable, refl)->Ok_0;
        let r = resources.last();
        lemma_step_samplers(st0, r, immutable, refl);
        let st = spec_build(resources, immutable, refl)->Ok_0;
        assert forall|j: int|
            0 <= j < resources.len() && (#[trigger] resources[j]).resource_type.spec_intersects(
                RafxResourceType::SAMPLER,
            ) implies st.sampler_names.contains_key(resources[j].gles_name@) by {
            if j < prefix.len() {
                assert(prefix[j] == resources[j]);
            }
        }
        assert forall|k: int|
            0 <= k < st.descriptors.len() && (#[trigger] st.descriptors[k]).sampler_name is Some
                implies exists|i: int|
                0 <= i < resources.len() && #[trigger] texture_sampler_of(
                    resources[i],
                    st.descriptors[k].sampler_name->0,
                ) by {
            if k < st0.descriptors.len() {
                assert(st.descriptors[k] == st0.descriptors[k]);
                let i = choose|i: int|
                    0 <= i < prefix.len() && #[trigger] texture_sampler_of(
                        prefix[i],
                        st0.descriptors[k].sampler_name->0,
                    );
                assert(prefix[i] == resources[i]);
            } else {
                assert(texture_sampler_of(
                    resources[resources.len() - 1],
                    st.descriptors[k].sampler_name->0,
                ));
            }
        }
    }
}

/// A build that fails on a prefix fails the same way on the whole list.
proof fn lemma_build_err_prefix(
    resources: Seq<RafxShaderResourceGles>,
    p: int,
    immutable: Seq<Seq<RafxSamplerGles2>>,
    refl: UniformReflectionData,
)
    requires
        0 <= p <= resources.len(),
        spec_build(resources.take(p), immutable, refl) is Err,
    ensures
        spec_build(resources, immutable, refl) == spec_build(resources.take(p), immutable, refl),
    decreases resources.len(),
{
    if p == resources.len() {
        assert(resources.take(p) =~= resources);
    } else {
        let prefix = resources.drop_last();
        assert(prefix.take(p) =~= resources.take(p));
        lemma_build_err_prefix(prefix, p, immutable, refl);
    }
}

/// A prefix has no more elements than the whole list.
proof fn lemma_total_elements_prefix(resources: Seq<RafxShaderResourceGles>, p: int)
    requires
        0 <= p <= resources.len(),
    ensures
        spec_total_elements(resources.take(p)) <= spec_total_elements(resources),
    decreases resources.len(),
{
    if p == resources.len() {
        assert(resources.take(p) =~= resources);
    } else {
        let prefix = resources.drop_last();
        assert(prefix.take(p) =~= resources.take(p));
        lemma_total_elements_prefix(prefix, p);
    }
}


impl RafxRootSignatureGles3 {
    /// Lays out the descriptors of a pipeline's resources: their slots in the per-set state
    /// arrays, their uniform locations, the immutable samplers, and the sampler each texture is
    /// applied with. Fails on the first resource that cannot be laid out.
    pub fn new(
        pipeline_type: RafxPipelineType,
        resources: &Vec<RafxShaderResourceGles>,
        immutable_samplers: &Vec<Vec<RafxSamplerGles2>>,
        uniform_reflection: UniformReflectionData,
        root_signature_id: u32,
    ) -> (r: RafxResult<RafxRootSignatureGles3>)
        requires
            resources_valid(resources@, sampler_lists(immutable_samplers@)),
            spec_total_elements(resources@) <= u32::MAX,
            resources@.len() < u32::MAX,
            uniform_reflection.wf(),
        ensures
            match spec_build(resources@, sampler_lists(immutable_samplers@), uniform_reflection) {
                Ok(st) => r matches Ok(rs) && {
                    &&& rs.built_from(st)
                    &&& rs.wf()
                    &&& rs.pipeline_type == pipeline_type
                    &&& rs.root_signature_id == root_signature_id
                    &&& rs.uniform_reflection == uniform_reflection
                },
                Err(e) => r matches Err(e2) && e2 == e,
            },
    {
        let ghost imm = sampler_lists(immutable_samplers@);
        let mut b = RootSignatureBuilder::new();
        let ghost mut st = spec_build_start();
        let mut i: usize = 0;
        assert(resources@.take(0) =~= Seq::<RafxShaderResourceGles>::empty());
        while i < resources.len()
            invariant
                i <= resources@.len(),
                resources@.len() < u32::MAX,
                spec_total_elements(resources@) <= u32::MAX,
                resources_valid(resources@, imm),
                imm == sampler_lists(immutable_samplers@),
                uniform_reflection.wf(),
                spec_build(resources@.take(i as int), imm, uniform_reflection) == Ok::<
                    RootSignatureBuild,
                    RafxError,
                >(st),
                b.holds(st),
                build_bounded(st, spec_total_elements(resources@.take(i as int)), i as int),
            decreases resources@.len() - i,
        {
            let r = &resources[i];
            let ghost n = spec_total_elements(resources@.take(i as int));
            proof {
                lemma_total_elements_prefix(resources@, i + 1);
                assert(resources@.take(i + 1).drop_last() =~= resources@.take(i as int));
                assert(resources@.take(i + 1).last() == resources@[i as int]);
                assert(resources@[i as int] == *r);
            }
            let res = b.step(
                r,
                immutable_samplers,
                &uniform_reflection,
                Ghost(st),
                Ghost(n),
                Ghost(i as int),
            );
            match res {
                Err(e) => {
                    proof {
                        lemma_build_err_prefix(resources@, i + 1, imm, uniform_reflection);
                    }
                    return Err(e);
                },
                Ok(()) => {},
            }
            proof {
                st = spec_step(st, *r, imm, uniform_reflection)->Ok_0;
            }
            i = i + 1;
        }
        assert(resources@.take(i as int) =~= resources@);
        proof {
            lemma_build_samplers(resources@, imm, uniform_reflection);
            assert forall|k: int|
                0 <= k < st.descriptors.len() && (#[trigger] st.descriptors[k]).sampler_name is Some
                    implies st.sampler_names.contains_key(st.descriptors[k].sampler_name->0) by {
                let s = st.descriptors[k].sampler_name->0;
                let t = choose|t: int|
                    0 <= t < resources@.len() && #[trigger] texture_sampler_of(resources@[t], s);
                assert(resources@[t].gles_sampler_name is Some);
                let j = choose|j: int|
                    0 <= j < resources@.len() && resources@[j].resource_type.spec_intersects(
                        RafxResourceType::SAMPLER,
                    ) && resources@[j].gles_name@ == (
                    #[trigger] resources@[t].gles_sampler_name)->0@;
                assert(resources@[j].resource_type.spec_intersects(RafxResourceType::SAMPLER));
            }
        }
        let RootSignatureBuilder {
            descriptors: built,
            sampler_names_of_descriptors,
            layout_descriptors,
            layout_bindings,
            names,
            texture_counts,
            sampler_counts,
            buffer_counts,
            location_names,
            immutable_samplers: samplers,
            uniform_block_descriptors,
            sampler_map,
        } = b;
        let descriptors = resolve_samplers(
            &built,
            &sampler_names_of_descriptors,
            &sampler_map,
            Ghost(st),
        );
        let layouts = make_layouts(
            layout_descriptors,
            layout_bindings,
            &texture_counts,
            &sampler_counts,
            &buffer_counts,
            Ghost(st),
            Ghost(spec_total_elements(resources@)),
        );
        let rs = RafxRootSignatureGles3 {
            pipeline_type,
            layouts,
            descriptors,
            name_to_descriptor_index: names,
            immutable_samplers: samplers,
            uniform_block_descriptors,
            root_signature_id,
            location_names,
            uniform_reflection,
        };
        proof {
            rs.lemma_built_wf(resources@, imm, uniform_reflection);
        }
        Ok(rs)
    }
}

/// The final descriptors: those the build made, each texture with the sampler its sampler name
/// resolves to.
fn resolve_samplers(
    built: &Vec<DescriptorInfo>,
    sampler_names_of_descriptors: &Vec<Option<String>>,
    sampler_map: &SamplerNameMap,
    Ghost(st): Ghost<RootSignatureBuild>,
) -> (r: Vec<DescriptorInfo>)
    requires
        built@.len() == st.descriptors.len(),
        sampler_names_of_descriptors@.len() == st.descriptors.len(),
        forall|k: int|
            0 <= k < st.descriptors.len() ==> descriptor_matches(
                #[trigger] built@[k],
                st.descriptors[k],
                k,
                None,
            ),
        forall|k: int|
            0 <= k < st.descriptors.len() ==> match (
                #[trigger] sampler_names_of_descriptors@[k],
                st.descriptors[k].sampler_name,
            ) {
                (Some(a), Some(b)) => a@ == b,
                (None, None) => true,
                _ => false,
            },
        sampler_name_map_contents(*sampler_map) == st.sampler_names,
        forall|k: int|
            0 <= k < st.descriptors.len() && (#[trigger] st.descriptors[k]).sampler_name is Some
                ==> st.sampler_names.contains_key(st.descriptors[k].sampler_name->0),
    ensures
        r@.len() == st.descriptors.len(),
        forall|k: int|
            0 <= k < st.descriptors.len() ==> descriptor_matches(
                #[trigger] r@[k],
                st.descriptors[k],
                k,
                spec_resolved_sampler(st.descriptors[k], st.sampler_names),
            ),
{
    let mut r: Vec<DescriptorInfo> = Vec::new();
    let mut k: usize = 0;
    while k < built.len()
        invariant
            k <= built@.len(),
            built@.len() == st.descriptors.len(),
            sampler_names_of_descriptors@.len() == st.descriptors.len(),
            forall|k: int|
                0 <= k < st.descriptors.len() ==> descriptor_matches(
                    #[trigger] built@[k],
                    st.descriptors[k],
                    k,
                    None,
                ),
            forall|k: int|
                0 <= k < st.descriptors.len() ==> match (
                    #[trigger] sampler_names_of_descriptors@[k],
                    st.descriptors[k].sampler_name,
                ) {
                    (Some(a), Some(b)) => a@ == b,
                    (None, None) => true,
                    _ => false,
                },
            sampler_name_map_contents(*sampler_map) == st.sampler_names,
            forall|k: int|
                0 <= k < st.descriptors.len() && (#[trigger] st.descriptors[k]).sampler_name is Some
                    ==> st.sampler_names.contains_key(st.descriptors[k].sampler_name->0),
            r@.len() == k,
            forall|j: int|
                0 <= j < k ==> descriptor_matches(
                    #[trigger] r@[j],
                    st.descriptors[j],
                    j,
                    spec_resolved_sampler(st.descriptors[j], st.sampler_names),
                ),
        decreases built@.len() - k,
    {
        let d = &built[k];
        let sampler = match &sampler_names_of_descriptors[k] {
            Some(name) => sampler_name_map_get(sampler_map, name.as_str()),
            None => None,
        };
        assert(descriptor_matches(*d, st.descriptors[k as int], k as int, None));
        assert(match (sampler_names_of_descriptors@[k as int], st.descriptors[k as int].sampler_name) {
            (Some(a), Some(b)) => a@ == b,
            (None, None) => true,
            _ => false,
        });
        r.push(
            DescriptorInfo {
                name: clone_opt_string(&d.name),
                resource_type: d.resource_type,
                set_index: d.set_index,
                binding: d.binding,
                element_count: d.element_count,
                descriptor_index: d.descriptor_index,
                uniform_block_binding: d.uniform_block_binding,
                uniform_index: d.uniform_index,
                descriptor_data_offset_in_set: d.descriptor_data_offset_in_set,
                sampler_descriptor_index: sampler,
                first_location_index: d.first_location_index,
            },
        );
        k = k + 1;
    }
    r
}

/// The four set layouts, each texture set offset by the texture states of the sets before it.
fn make_layouts(
    layout_descriptors: Vec<Vec<RafxDescriptorIndex>>,
    layout_bindings: Vec<BindingMap>,
    texture_counts: &Vec<u32>,
    sampler_counts: &Vec<u32>,
    buffer_counts: &Vec<u32>,
    Ghost(st): Ghost<RootSignatureBuild>,
    Ghost(n): Ghost<int>,
) -> (r: Vec<DescriptorSetLayoutInfo>)
    requires
        layout_descriptors@.len() == 4,
        layout_bindings@.len() == 4,
        st.layout_descriptors.len() == 4,
        st.layout_bindings.len() == 4,
        forall|set: int|
            0 <= set < 4 ==> #[trigger] layout_descriptors@[set]@ == st.layout_descriptors[set],
        forall|set: int|
            0 <= set < 4 ==> binding_map_contents(#[trigger] layout_bindings@[set])
                == st.layout_bindings[set],
        texture_counts@.len() == 4,
        sampler_counts@.len() == 4,
        buffer_counts@.len() == 4,
        st.texture_counts.len() == 4,
        st.sampler_counts.len() == 4,
        st.buffer_counts.len() == 4,
        forall|set: int| 0 <= set < 4 ==> #[trigger] texture_counts@[set] == st.texture_counts[set],
        forall|set: int| 0 <= set < 4 ==> #[trigger] sampler_counts@[set] == st.sampler_counts[set],
        forall|set: int| 0 <= set < 4 ==> #[trigger] buffer_counts@[set] == st.buffer_counts[set],
        st.texture_counts[0] + st.texture_counts[1] + st.texture_counts[2] + st.texture_counts[3]
            <= n <= u32::MAX,
        forall|set: int| 0 <= set < 4 ==> #[trigger] st.texture_counts[set] >= 0,
    ensures
        r@.len() == 4,
        forall|set: int|
            0 <= set < 4 ==> {
                let l = #[trigger] r@[set];
                &&& l.descriptors@ == st.layout_descriptors[set]
                &&& binding_map_contents(l.binding_to_descriptor_index) == st.layout_bindings[set]
                &&& l.texture_descriptor_state_count == st.texture_counts[set]
                &&& l.sampler_descriptor_state_count == st.sampler_counts[set]
                &&& l.buffer_descriptor_state_count == st.buffer_counts[set]
                &&& l.texture_unit_offset == spec_texture_unit_offset(st.texture_counts, set)
            },
{
    let mut layout_descriptors = layout_descriptors;
    let mut layout_bindings = layout_bindings;
    let mut r: Vec<DescriptorSetLayoutInfo> = Vec::new();
    let mut total_texture_units: u32 = 0;
    let mut set: usize = 0;
    proof {
        reveal_with_fuel(spec_texture_unit_offset, 5);
    }
    while set < 4
        invariant
            set <= 4,
            layout_descriptors@.len() == 4 - set,
            layout_bindings@.len() == 4 - set,
            st.layout_descriptors.len() == 4,
            st.layout_bindings.len() == 4,
            forall|t: int|
                0 <= t < 4 - set ==> #[trigger] layout_descriptors@[t]@ == st.layout_descriptors[set
                    + t],
            forall|t: int|
                0 <= t < 4 - set ==> binding_map_contents(#[trigger] layout_bindings@[t])
                    == st.layout_bindings[set + t],
            texture_counts@.len() == 4,
            sampler_counts@.len() == 4,
            buffer_counts@.len() == 4,
            st.texture_counts.len() == 4,
            st.sampler_counts.len() == 4,
            st.buffer_counts.len() == 4,
            forall|s: int| 0 <= s < 4 ==> #[trigger] texture_counts@[s] == st.texture_counts[s],
            forall|s: int| 0 <= s < 4 ==> #[trigger] sampler_counts@[s] == st.sampler_counts[s],
            forall|s: int| 0 <= s < 4 ==> #[trigger] buffer_counts@[s] == st.buffer_counts[s],
            st.texture_counts[0] + st.texture_counts[1] + st.texture_counts[2]
                + st.texture_counts[3] <= n <= u32::MAX,
            forall|s: int| 0 <= s < 4 ==> #[trigger] st.texture_counts[s] >= 0,
            total_texture_units == spec_texture_unit_offset(st.texture_counts, set as int),
            r@.len() == set,
            forall|s: int|
                0 <= s < set ==> {
                    let l = #[trigger] r@[s];
                    &&& l.descriptors@ == st.layout_descriptors[s]
                    &&& binding_map_contents(l.binding_to_descriptor_index)
                        == st.layout_bindings[s]
                    &&& l.texture_descriptor_state_count == st.texture_counts[s]
                    &&& l.sampler_descriptor_state_count == st.sampler_counts[s]
                    &&& l.buffer_descriptor_state_count == st.buffer_counts[s]
                    &&& l.texture_unit_offset == spec_texture_unit_offset(st.texture_counts, s)
                },
        decreases 4 - set,
    {
        proof {
            reveal_with_fuel(spec_texture_unit_offset, 5);
        }
        let descriptors = layout_descriptors.remove(0);
        let binding_to_descriptor_index = layout_bindings.remove(0);
        let texture_descriptor_state_count = texture_counts[set];
        r.push(
            DescriptorSetLayoutInfo {
                descriptors,
                binding_to_descriptor_index,
                texture_descriptor_state_count,
                sampler_descriptor_state_count: sampler_counts[set],
                buffer_descriptor_state_count: buffer_counts[set],
                texture_unit_offset: total_texture_units,
            },
        );
        assert(spec_texture_unit_offset(st.texture_counts, set + 1) == total_texture_units
            + st.texture_counts[set as int]);
        total_texture_units = total_texture_units + texture_descriptor_state_count;
        set = set + 1;
    }
    r
}


/// The lookups of a build point at descriptors of the build, in the right set.
pub open spec fn build_lookups_valid(st: RootSignatureBuild) -> bool {
    &&& st.layout_descriptors.len() == 4
    &&& st.layout_bindings.len() == 4
    &&& forall|k: int| 0 <= k < st.descriptors.len() ==> (#[trigger] st.descriptors[k]).set_index < 4
    &&& forall|n: Seq<char>|
        #[trigger] st.names.contains_key(n) ==> st.names[n].0 < st.descriptors.len()
    &&& forall|set: int, b: u32|
        0 <= set < 4 && #[trigger] st.layout_bindings[set].contains_key(b) ==> {
            let d = st.layout_bindings[set][b].0 as int;
            &&& d < st.descriptors.len()
            &&& st.descriptors[d].set_index == set
        }
    &&& forall|set: int, j: int|
        0 <= set < 4 && 0 <= j < st.layout_descriptors[set].len() ==> {
            let d = (#[trigger] st.layout_descriptors[set][j]).0 as int;
            &&& d < st.descriptors.len()
            &&& st.descriptors[d].set_index == set
        }
}

proof fn lemma_build_lookups_valid(
    resources: Seq<RafxShaderResourceGles>,
    immutable: Seq<Seq<RafxSamplerGles2>>,
    refl: UniformReflectionData,
)
    requires
        spec_build(resources, immutable, refl) is Ok,
        forall|i: int| 0 <= i < resources.len() ==> (#[trigger] resources[i]).set_index < 4,
        resources.len() < u32::MAX,
    ensures
        build_lookups_valid(spec_build(resources, immutable, refl)->Ok_0),
    decreases resources.len(),
{
    if resources.len() == 0 {
        let st = spec_build_start();
        assert(st.layout_descriptors.len() == 4);
    } else {
        let prefix = resources.drop_last();
        assert forall|i: int| 0 <= i < prefix.len() implies (#[trigger] prefix[i]).set_index < 4 by {
            assert(prefix[i] == resources[i]);
        }
        lemma_build_lookups_valid(prefix, immutable, refl);
        let st0 = spec_build(prefix, immutable, refl)->Ok_0;
        let r = resources.last();
        assert(r == resources[resources.len() - 1]);
        lemma_step_samplers(st0, r, immutable, refl);
        let st = spec_build(resources, immutable, refl)->Ok_0;
        let kind = spec_data_kind(r.resource_type)->Some_0;
        let st1 = spec_reserve(st0, kind, r);
        lemma_build_len(prefix, immutable, refl);
        assert(st1.descriptors.len() < u32::MAX);
        if r.immutable_sampler_index is None {
            let di = RafxDescriptorIndex(st1.descriptors.len() as u32);
            let set = r.set_index as int;
            assert(st.descriptors.len() == st0.descriptors.len() + 1);
            assert(st.descriptors[st0.descriptors.len() as int].set_index == r.set_index);
            assert(st.layout_descriptors == st1.layout_descriptors.update(
                set,
                st1.layout_descriptors[set].push(di),
            ));
            assert(st.layout_bindings == st1.layout_bindings.update(
                set,
                st1.layout_bindings[set].insert(r.binding, di),
            ));
            assert forall|s2: int, j: int|
                0 <= s2 < 4 && 0 <= j < st.layout_descriptors[s2].len() implies {
                let d = (#[trigger] st.layout_descriptors[s2][j]).0 as int;
                &&& d < st.descriptors.len()
                &&& st.descriptors[d].set_index == s2
            } by {
                if s2 == set && j == st0.layout_descriptors[s2].len() {
                    assert(st.layout_descriptors[s2][j] == di);
                } else {
                    assert(st.layout_descriptors[s2][j] == st0.layout_descriptors[s2][j]);
                    let d = st0.layout_descriptors[s2][j].0 as int;
                    assert(st.descriptors[d] == st0.descriptors[d]);
                }
            }
            assert forall|s2: int, b: u32|
                0 <= s2 < 4 && #[trigger] st.layout_bindings[s2].contains_key(b) implies {
                let d = st.layout_bindings[s2][b].0 as int;
                &&& d < st.descriptors.len()
                &&& st.descriptors[d].set_index == s2
            } by {
                if s2 == set && b == r.binding {
                    assert(st.layout_bindings[s2][b] == di);
                } else {
                    assert(st0.layout_bindings[s2].contains_key(b));
                    assert(st.layout_bindings[s2][b] == st0.layout_bindings[s2][b]);
                    let d = st0.layout_bindings[s2][b].0 as int;
                    assert(st.descriptors[d] == st0.descriptors[d]);
                }
            }
            assert forall|k: int| 0 <= k < st.descriptors.len() implies (
            #[trigger] st.descriptors[k]).set_index < 4 by {
                if k < st0.descriptors.len() {
                    assert(st.descriptors[k] == st0.descriptors[k]);
                }
            }
        } else {
            assert(st.descriptors == st0.descriptors);
            assert(st.layout_descriptors == st0.layout_descriptors);
            assert(st.layout_bindings == st0.layout_bindings);
        }
    }
}

impl RafxRootSignatureGles3 {
    /// Every lookup of the root signature points at one of its descriptors, in the set it
    /// belongs to, and each descriptor knows its own index.
    pub open spec fn wf(&self) -> bool {
        &&& self.layouts@.len() == MAX_DESCRIPTOR_SET_LAYOUTS
        &&& self.descriptors@.len() <= u32::MAX
        &&& forall|k: int|
            0 <= k < self.descriptors@.len() ==> {
                &&& (#[trigger] self.descriptors@[k]).descriptor_index.0 == k
                &&& self.descriptors@[k].set_index < MAX_DESCRIPTOR_SET_LAYOUTS
                &&& self.descriptors@[k].descriptor_data_offset_in_set is Some
            }
        &&& forall|n: Seq<char>|
            #[trigger] name_map_contents(self.name_to_descriptor_index).contains_key(n)
                ==> name_map_contents(self.name_to_descriptor_index)[n].0 < self.descriptors@.len()
        &&& forall|set: int, b: u32|
            0 <= set < MAX_DESCRIPTOR_SET_LAYOUTS && #[trigger] binding_map_contents(
                self.layouts@[set].binding_to_descriptor_index,
            ).contains_key(b) ==> {
                let d = binding_map_contents(self.layouts@[set].binding_to_descriptor_index)[b].0 as int;
                &&& d < self.descriptors@.len()
                &&& self.descriptors@[d].set_index == set
            }
        &&& forall|set: int, j: int|
            0 <= set < MAX_DESCRIPTOR_SET_LAYOUTS && 0 <= j < self.layouts@[set].descriptors@.len()
                ==> {
                let d = (#[trigger] self.layouts@[set].descriptors@[j]).0 as int;
                &&& d < self.descriptors@.len()
                &&& self.descriptors@[d].set_index == set
            }
    }

    /// What the build over the resources makes is well formed.
    pub proof fn lemma_built_wf(
        &self,
        resources: Seq<RafxShaderResourceGles>,
        immutable: Seq<Seq<RafxSamplerGles2>>,
        refl: UniformReflectionData,
    )
        requires
            resources_valid(resources, immutable),
            resources.len() < u32::MAX,
            spec_build(resources, immutable, refl) is Ok,
            self.built_from(spec_build(resources, immutable, refl)->Ok_0),
        ensures
            self.wf(),
    {
        let st = spec_build(resources, immutable, refl)->Ok_0;
        assert forall|i: int| 0 <= i < resources.len() implies (#[trigger] resources[i]).set_index
            < 4 by {}
        lemma_build_lookups_valid(resources, immutable, refl);
        lemma_build_len(resources, immutable, refl);
        assert forall|set: int, j: int|
            0 <= set < MAX_DESCRIPTOR_SET_LAYOUTS && 0 <= j < self.layouts@[set].descriptors@.len()
                implies {
                let d = (#[trigger] self.layouts@[set].descriptors@[j]).0 as int;
                &&& d < self.descriptors@.len()
                &&& self.descriptors@[d].set_index == set
            } by {
            assert(self.layouts@[set].descriptors@ == st.layout_descriptors[set]);
            let d = st.layout_descriptors[set][j].0 as int;
            assert(descriptor_matches(
                self.descriptors@[d],
                st.descriptors[d],
                d,
                spec_resolved_sampler(st.descriptors[d], st.sampler_names),
            ));
        }
        assert forall|set: int, b: u32|
            0 <= set < MAX_DESCRIPTOR_SET_LAYOUTS && #[trigger] binding_map_contents(
                self.layouts@[set].binding_to_descriptor_index,
            ).contains_key(b) implies {
                let d = binding_map_contents(self.layouts@[set].binding_to_descriptor_index)[b].0 as int;
                &&& d < self.descriptors@.len()
                &&& self.descriptors@[d].set_index == set
            } by {
            assert(binding_map_contents(self.layouts@[set].binding_to_descriptor_index)
                == st.layout_bindings[set]);
            let d = st.layout_bindings[set][b].0 as int;
            assert(descriptor_matches(
                self.descriptors@[d],
                st.descriptors[d],
                d,
                spec_resolved_sampler(st.descriptors[d], st.sampler_names),
            ));
        }
        assert forall|k: int| 0 <= k < self.descriptors@.len() implies {
            &&& (#[trigger] self.descriptors@[k]).descriptor_index.0 == k
            &&& self.descriptors@[k].set_index < MAX_DESCRIPTOR_SET_LAYOUTS
            &&& self.descriptors@[k].descriptor_data_offset_in_set is Some
        } by {
            assert(descriptor_matches(
                self.descriptors@[k],
                st.descriptors[k],
                k,
                spec_resolved_sampler(st.descriptors[k], st.sampler_names),
            ));
        }
    }
}

/// A build makes at most one descriptor per resource.
proof fn lemma_build_len(
    resources: Seq<RafxShaderResourceGles>,
    immutable: Seq<Seq<RafxSamplerGles2>>,
    refl: UniformReflectionData,
)
    requires
        spec_build(resources, immutable, refl) is Ok,
    ensures
        spec_build(resources, immutable, refl)->Ok_0.descriptors.len() <= resources.len(),
    decreases resources.len(),
{
    if resources.len() > 0 {
        let prefix = resources.drop_last();
        lemma_build_len(prefix, immutable, refl);
    }
}


impl RafxRootSignatureGles3 {
    pub fn pipeline_type(&self) -> (r: RafxPipelineType)
        ensures
            r == self.pipeline_type,
    {
        self.pipeline_type
    }

    /// The descriptor with this name.
    pub fn find_descriptor_by_name(&self, name: &str) -> (r: Option<RafxDescriptorIndex>)
        ensures
            r == (if name_map_contents(self.name_to_descriptor_index).contains_key(name@) {
                Some(name_map_contents(self.name_to_descriptor_index)[name@])
            } else {
                None
            }),
    {
        name_map_get(&self.name_to_descriptor_index, name)
    }

    /// The descriptor at this binding of this set; none for a set index past the layouts.
    pub fn find_descriptor_by_binding(&self, set_index: u32, binding: u32) -> (r: Option<
        RafxDescriptorIndex,
    >)
        ensures
            r == (if set_index < self.layouts@.len() && binding_map_contents(
                self.layouts@[set_index as int].binding_to_descriptor_index,
            ).contains_key(binding) {
                Some(
                    binding_map_contents(
                        self.layouts@[set_index as int].binding_to_descriptor_index,
                    )[binding],
                )
            } else {
                None
            }),
    {
        if (set_index as usize) < self.layouts.len() {
            binding_map_get(&self.layouts[set_index as usize].binding_to_descriptor_index, binding)
        } else {
            None
        }
    }

    /// The descriptor at this index, if there is one.
    pub fn descriptor(&self, descriptor_index: RafxDescriptorIndex) -> (r: Option<&DescriptorInfo>)
        ensures
            r == (if descriptor_index.0 < self.descriptors@.len() {
                Some(&self.descriptors@[descriptor_index.0 as int])
            } else {
                None
            }),
    {
        if (descriptor_index.0 as usize) < self.descriptors.len() {
            Some(&self.descriptors[descriptor_index.0 as usize])
        } else {
            None
        }
    }

    /// The uniform block binding of a descriptor.
    pub fn uniform_block_binding(&self, descriptor_index: RafxDescriptorIndex) -> (r: Option<u32>)
        requires
            descriptor_index.0 < self.descriptors@.len(),
        ensures
            r == self.descriptors@[descriptor_index.0 as int].uniform_block_binding,
    {
        self.descriptors[descriptor_index.0 as usize].uniform_block_binding
    }
}


/// The checks of `resources_valid` on one resource.
pub open spec fn resource_valid(
    r: RafxShaderResourceGles,
    immutable: Seq<Seq<RafxSamplerGles2>>,
) -> bool {
    &&& r.set_index < 4
    &&& r.immutable_sampler_index matches Some(ii) ==> {
        &&& ii < immutable.len()
        &&& r.resource_type.spec_intersects(RafxResourceType::SAMPLER)
        &&& !(immutable[ii as int].len() > 1 && immutable[ii as int].len() == r.spec_element_count_normalized())
    }
}

/// Whether the resources and immutable samplers can be laid out by `new`: what it asserts or
/// indexes without a check.
pub fn resources_valid_for(
    resources: &Vec<RafxShaderResourceGles>,
    immutable_samplers: &Vec<Vec<RafxSamplerGles2>>,
) -> (r: bool)
    ensures
        r == resources_valid(resources@, sampler_lists(immutable_samplers@)),
{
    let ghost imm = sampler_lists(immutable_samplers@);
    let mut i: usize = 0;
    while i < resources.len()
        invariant
            i <= resources@.len(),
            imm == sampler_lists(immutable_samplers@),
            forall|j: int| 0 <= j < i ==> resource_valid(#[trigger] resources@[j], imm),
        decreases resources@.len() - i,
    {
        let r = &resources[i];
        let ok = r.set_index < 4 && match r.immutable_sampler_index {
            Some(ii) => ii < immutable_samplers.len() && r.resource_type.intersects(
                RafxResourceType::SAMPLER,
            ) && !(immutable_samplers[ii].len() > 1 && immutable_samplers[ii].len()
                == r.element_count_normalized() as usize),
            None => true,
        };
        if !ok {
            assert(!resource_valid(resources@[i as int], imm));
            return false;
        }
        i = i + 1;
    }
    let mut sampler_names = name_map_new();
    let mut k: usize = 0;
    while k < resources.len()
        invariant
            k <= resources@.len(),
            forall|n: Seq<char>|
                #![trigger name_map_contents(sampler_names).contains_key(n)]
                name_map_contents(sampler_names).contains_key(n) <==> exists|j: int|
                    0 <= j < k && resources@[j].resource_type.spec_intersects(
                        RafxResourceType::SAMPLER,
                    ) && (#[trigger] resources@[j]).gles_name@ == n,
        decreases resources@.len() - k,
    {
        let r = &resources[k];
        if r.resource_type.intersects(RafxResourceType::SAMPLER) {
            let ghost before = sampler_names;
            name_map_insert(&mut sampler_names, r.gles_name.clone(), RafxDescriptorIndex(0));
            assert forall|n: Seq<char>|
                name_map_contents(sampler_names).contains_key(n) implies exists|j: int|
                    0 <= j < k + 1 && resources@[j].resource_type.spec_intersects(
                        RafxResourceType::SAMPLER,
                    ) && (#[trigger] resources@[j]).gles_name@ == n by {
                if n != resources@[k as int].gles_name@ {
                    assert(name_map_contents(before).contains_key(n));
                }
            }
        }
        k = k + 1;
    }
    let mut t: usize = 0;
    while t < resources.len()
        invariant
            t <= resources@.len(),
            forall|n: Seq<char>|
                #![trigger name_map_contents(sampler_names).contains_key(n)]
                name_map_contents(sampler_names).contains_key(n) <==> exists|j: int|
                    0 <= j < resources@.len() && resources@[j].resource_type.spec_intersects(
                        RafxResourceType::SAMPLER,
                    ) && (#[trigger] resources@[j]).gles_name@ == n,
            forall|j: int|
                0 <= j < t && is_texture(resources@[j].resource_type)
                    && resources@[j].immutable_sampler_index is None
                    && resources@[j].gles_sampler_name is Some ==> exists|m: int|
                    0 <= m < resources@.len() && resources@[m].resource_type.spec_intersects(
                        RafxResourceType::SAMPLER,
                    ) && resources@[m].gles_name@ == (#[trigger] resources@[j].gles_sampler_name)->0@,
        decreases resources@.len() - t,
    {
        let r = &resources[t];
        if r.resource_type.intersects(RafxResourceType::TEXTURE | RafxResourceType::TEXTURE_READ_WRITE)
            && r.immutable_sampler_index.is_none() {
            match &r.gles_sampler_name {
                Some(name) => {
                    if name_map_get(&sampler_names, name.as_str()).is_none() {
                        assert(!name_map_contents(sampler_names).contains_key(name@));
                        return false;
                    }
                    assert(name_map_contents(sampler_names).contains_key(name@));
                },
                None => {},
            }
        }
        t = t + 1;
    }
    true
}

/// Texture descriptors of a build occupy disjoint runs of their set's texture states, below the
/// set's texture state count.
pub open spec fn texture_ranges_disjoint(st: RootSignatureBuild) -> bool {
    &&& st.texture_counts.len() == 4
    &&& forall|set: int| 0 <= set < 4 ==> #[trigger] st.texture_counts[set] >= 0
    &&& forall|k: int|
        0 <= k < st.descriptors.len() && spec_data_kind((#[trigger] st.descriptors[k]).resource_type)
            == Some(DescriptorDataKind::Texture) ==> {
            let d = st.descriptors[k];
            &&& d.set_index < 4
            &&& d.descriptor_data_offset_in_set + d.element_count <= st.texture_counts[d.set_index as int]
        }
    &&& forall|k1: int, k2: int|
        0 <= k1 < k2 < st.descriptors.len() && spec_data_kind(
            (#[trigger] st.descriptors[k1]).resource_type,
        ) == Some(DescriptorDataKind::Texture) && spec_data_kind(
            (#[trigger] st.descriptors[k2]).resource_type,
        ) == Some(DescriptorDataKind::Texture) && st.descriptors[k1].set_index
            == st.descriptors[k2].set_index ==> st.descriptors[k1].descriptor_data_offset_in_set
            + st.descriptors[k1].element_count <= st.descriptors[k2].descriptor_data_offset_in_set
}

proof fn lemma_build_texture_ranges(
    resources: Seq<RafxShaderResourceGles>,
    immutable: Seq<Seq<RafxSamplerGles2>>,
    refl: UniformReflectionData,
)
    requires
        spec_build(resources, immutable, refl) is Ok,
        forall|i: int| 0 <= i < resources.len() ==> (#[trigger] resources[i]).set_index < 4,
        resources.len() < u32::MAX,
        spec_total_elements(resources) <= u32::MAX,
    ensures
        texture_ranges_disjoint(spec_build(resources, immutable, refl)->Ok_0),
        forall|set: int|
            0 <= set < 4 ==> #[trigger] spec_build(resources, immutable, refl)->Ok_0.texture_counts[set]
                <= spec_total_elements(resources),
    decreases resources.len(),
{
    if resources.len() == 0 {
        let st = spec_build_start();
        assert(st.texture_counts =~= seq![0int, 0int, 0int, 0int]);
    } else {
        let prefix = resources.drop_last();
        assert forall|i: int| 0 <= i < prefix.len() implies (#[trigger] prefix[i]).set_index < 4 by {
            assert(prefix[i] == resources[i]);
        }
        lemma_build_texture_ranges(prefix, immutable, refl);
        lemma_build_len(prefix, immutable, refl);
        let st0 = spec_build(prefix, immutable, refl)->Ok_0;
        assert(spec_total_elements(resources) == spec_total_elements(prefix) + resources.last().spec_element_count_normalized());
        let r = resources.last();
        assert(r == resources[resources.len() - 1]);
        lemma_step_samplers(st0, r, immutable, refl);
        let st = spec_build(resources, immutable, refl)->Ok_0;
        let kind = spec_data_kind(r.resource_type)->Some_0;
        let st1 = spec_reserve(st0, kind, r);
        let set = r.set_index as int;
        assert(st.texture_counts == st1.texture_counts);
        assert forall|s2: int| 0 <= s2 < 4 implies st0.texture_counts[s2] <= #[trigger] st.texture_counts[s2] by {}
        if r.immutable_sampler_index is None {
            let nk = st0.descriptors.len() as int;
            assert(st.descriptors.len() == nk + 1);
            let d = st.descriptors[nk];
            assert(d.set_index == r.set_index);
            assert(d.element_count == r.spec_element_count_normalized());
            assert(d.resource_type == r.resource_type);
            if kind == DescriptorDataKind::Texture {
                assert(d.descriptor_data_offset_in_set == st0.texture_counts[set]);
                assert(st.texture_counts[set] == st0.texture_counts[set] + r.spec_element_count_normalized());
            }
            assert forall|k: int|
                0 <= k < st.descriptors.len() && spec_data_kind(
                    (#[trigger] st.descriptors[k]).resource_type,
                ) == Some(DescriptorDataKind::Texture) implies {
                let dk = st.descriptors[k];
                &&& dk.set_index < 4
                &&& dk.descriptor_data_offset_in_set + dk.element_count <= st.texture_counts[dk.set_index as int]
            } by {
                if k < nk {
                    assert(st.descriptors[k] == st0.descriptors[k]);
                }
            }
            assert forall|k1: int, k2: int|
                0 <= k1 < k2 < st.descriptors.len() && spec_data_kind(
                    (#[trigger] st.descriptors[k1]).resource_type,
                ) == Some(DescriptorDataKind::Texture) && spec_data_kind(
                    (#[trigger] st.descriptors[k2]).resource_type,
                ) == Some(DescriptorDataKind::Texture) && st.descriptors[k1].set_index
                    == st.descriptors[k2].set_index implies st.descriptors[k1].descriptor_data_offset_in_set
                + st.descriptors[k1].element_count <= st.descriptors[k2].descriptor_data_offset_in_set by {
                assert(st.descriptors[k1] == st0.descriptors[k1]);
                if k2 < nk {
                    assert(st.descriptors[k2] == st0.descriptors[k2]);
                } else {
                    assert(k2 == nk);
                }
            }
        } else {
            assert(st.descriptors == st0.descriptors);
        }
    }
}

/// The texture unit of element `i` of texture descriptor `k`.
pub open spec fn descriptor_texture_unit(rs: RafxRootSignatureGles3, k: int, i: int) -> int {
    let d = rs.descriptors@[k];
    rs.layouts@[d.set_index as int].texture_unit_offset + d.descriptor_data_offset_in_set->Some_0 + i
}

proof fn lemma_texture_unit_offset_grows(counts: Seq<int>, a: int, b: int)
    requires
        0 <= a < b <= 4,
        counts.len() == 4,
        forall|set: int| 0 <= set < 4 ==> #[trigger] counts[set] >= 0,
    ensures
        spec_texture_unit_offset(counts, a) + counts[a] <= spec_texture_unit_offset(counts, b),
    decreases b - a,
{
    if b > a + 1 {
        lemma_texture_unit_offset_grows(counts, a, b - 1);
    }
}

/// Every element of every texture descriptor, across all sets of a root signature, gets a
/// texture unit of its own: each set's textures start past the texture states of the sets
/// before it.
pub proof fn lemma_texture_units_unique(
    rs: RafxRootSignatureGles3,
    resources: Seq<RafxShaderResourceGles>,
    immutable: Seq<Seq<RafxSamplerGles2>>,
    refl: UniformReflectionData,
    k1: int,
    i1: int,
    k2: int,
    i2: int,
)
    requires
        resources_valid(resources, immutable),
        resources.len() < u32::MAX,
        spec_total_elements(resources) <= u32::MAX,
        spec_build(resources, immutable, refl) is Ok,
        rs.built_from(spec_build(resources, immutable, refl)->Ok_0),
        0 <= k1 < rs.descriptors@.len(),
        0 <= k2 < rs.descriptors@.len(),
        spec_data_kind(rs.descriptors@[k1].resource_type) == Some(DescriptorDataKind::Texture),
        spec_data_kind(rs.descriptors@[k2].resource_type) == Some(DescriptorDataKind::Texture),
        0 <= i1 < rs.descriptors@[k1].element_count,
        0 <= i2 < rs.descriptors@[k2].element_count,
        k1 != k2 || i1 != i2,
    ensures
        descriptor_texture_unit(rs, k1, i1) != descriptor_texture_unit(rs, k2, i2),
{
    let st = spec_build(resources, immutable, refl)->Ok_0;
    assert forall|i: int| 0 <= i < resources.len() implies (#[trigger] resources[i]).set_index
        < 4 by {}
    lemma_build_texture_ranges(resources, immutable, refl);
    let sd1 = st.descriptors[k1];
    let sd2 = st.descriptors[k2];
    assert(descriptor_matches(
        rs.descriptors@[k1],
        sd1,
        k1,
        spec_resolved_sampler(sd1, st.sampler_names),
    ));
    assert(descriptor_matches(
        rs.descriptors@[k2],
        sd2,
        k2,
        spec_resolved_sampler(sd2, st.sampler_names),
    ));
    let s1 = sd1.set_index as int;
    let s2 = sd2.set_index as int;
    assert(rs.layouts@[s1].texture_unit_offset == spec_texture_unit_offset(st.texture_counts, s1));
    assert(rs.layouts@[s2].texture_unit_offset == spec_texture_unit_offset(st.texture_counts, s2));
    if s1 < s2 {
        lemma_texture_unit_offset_grows(st.texture_counts, s1, s2);
    } else if s2 < s1 {
        lemma_texture_unit_offset_grows(st.texture_counts, s2, s1);
    } else if k1 < k2 {
        assert(sd1.descriptor_data_offset_in_set + sd1.element_count <= sd2.descriptor_data_offset_in_set);
    } else if k2 < k1 {
        assert(sd2.descriptor_data_offset_in_set + sd2.element_count <= sd1.descriptor_data_offset_in_set);
    }
}

/// What the lookups of a build map to: each name to a descriptor of that name, and each binding
/// of a set to a descriptor at that set and binding.
pub open spec fn build_lookups_match(st: RootSignatureBuild) -> bool {
    &&& st.layout_bindings.len() == 4
    &&& forall|n: Seq<char>|
        #[trigger] st.names.contains_key(n) ==> {
            let d = st.names[n].0 as int;
            &&& d < st.descriptors.len()
            &&& st.descriptors[d].name matches Some(s) && s@ == n
        }
    &&& forall|set: int, b: u32|
        0 <= set < 4 && #[trigger] st.layout_bindings[set].contains_key(b) ==> {
            let d = st.layout_bindings[set][b].0 as int;
            &&& d < st.descriptors.len()
            &&& st.descriptors[d].set_index == set
            &&& st.descriptors[d].binding == b
        }
}

proof fn lemma_build_lookups(
    resources: Seq<RafxShaderResourceGles>,
    immutable: Seq<Seq<RafxSamplerGles2>>,
    refl: UniformReflectionData,
)
    requires
        spec_build(resources, immutable, refl) is Ok,
        forall|i: int| 0 <= i < resources.len() ==> (#[trigger] resources[i]).set_index < 4,
        resources.len() < u32::MAX,
    ensures
        build_lookups_match(spec_build(resources, immutable, refl)->Ok_0),
    decreases resources.len(),
{
    if resources.len() == 0 {
        let st = spec_build_start();
        assert(st.layout_bindings.len() == 4);
    } else {
        let prefix = resources.drop_last();
        assert forall|i: int| 0 <= i < prefix.len() implies (#[trigger] prefix[i]).set_index < 4 by {
            assert(prefix[i] == resources[i]);
        }
        lemma_build_lookups(prefix, immutable, refl);
        lemma_build_len(prefix, immutable, refl);
        let st0 = spec_build(prefix, immutable, refl)->Ok_0;
        let r = resources.last();
        assert(r == resources[resources.len() - 1]);
        lemma_step_samplers(st0, r, immutable, refl);
        let st = spec_build(resources, immutable, refl)->Ok_0;
        let kind = spec_data_kind(r.resource_type)->Some_0;
        let st1 = spec_reserve(st0, kind, r);
        assert(st1.names == st0.names && st1.layout_bindings == st0.layout_bindings);
        if r.immutable_sampler_index is None {
            let nk = st0.descriptors.len() as int;
            let di = RafxDescriptorIndex(nk as u32);
            let set = r.set_index as int;
            assert(st.descriptors.len() == nk + 1);
            assert(st.descriptors[nk].name == r.name);
            assert(st.descriptors[nk].set_index == r.set_index);
            assert(st.descriptors[nk].binding == r.binding);
            assert(st.layout_bindings == st0.layout_bindings.update(
                set,
                st0.layout_bindings[set].insert(r.binding, di),
            ));
            assert forall|n: Seq<char>| #[trigger] st.names.contains_key(n) implies {
                let d = st.names[n].0 as int;
                &&& d < st.descriptors.len()
                &&& st.descriptors[d].name matches Some(s) && s@ == n
            } by {
                match r.name {
                    Some(rn) => {
                        if n != rn@ {
                            assert(st0.names.contains_key(n));
                            assert(st.descriptors[st0.names[n].0 as int] == st0.descriptors[st0.names[n].0 as int]);
                        }
                    },
                    None => {
                        assert(st0.names.contains_key(n));
                        assert(st.descriptors[st0.names[n].0 as int] == st0.descriptors[st0.names[n].0 as int]);
                    },
                }
            }
            assert forall|s2: int, b: u32|
                0 <= s2 < 4 && #[trigger] st.layout_bindings[s2].contains_key(b) implies {
                let d = st.layout_bindings[s2][b].0 as int;
                &&& d < st.descriptors.len()
                &&& st.descriptors[d].set_index == s2
                &&& st.descriptors[d].binding == b
            } by {
                if !(s2 == set && b == r.binding) {
                    assert(st0.layout_bindings[s2].contains_key(b));
                    assert(st.layout_bindings[s2][b] == st0.layout_bindings[s2][b]);
                    assert(st.descriptors[st0.layout_bindings[s2][b].0 as int]
                        == st0.descriptors[st0.layout_bindings[s2][b].0 as int]);
                }
            }
        } else {
            assert(st.names == st0.names);
            assert(st.layout_bindings == st0.layout_bindings);
            assert(st.descriptors == st0.descriptors);
        }
    }
}

/// The lookups of a root signature find what they are asked for: a name finds a descriptor with
/// that name, and a binding of a set finds a descriptor at that set and binding.
pub proof fn lemma_lookups_find_matching_descriptors(
    rs: RafxRootSignatureGles3,
    resources: Seq<RafxShaderResourceGles>,
    immutable: Seq<Seq<RafxSamplerGles2>>,
    refl: UniformReflectionData,
    name: Seq<char>,
    set: int,
    binding: u32,
)
    requires
        resources_valid(resources, immutable),
        resources.len() < u32::MAX,
        spec_build(resources, immutable, refl) is Ok,
        rs.built_from(spec_build(resources, immutable, refl)->Ok_0),
    ensures
        name_map_contents(rs.name_to_descriptor_index).contains_key(name) ==> {
            let d = name_map_contents(rs.name_to_descriptor_index)[name].0 as int;
            &&& d < rs.descriptors@.len()
            &&& rs.descriptors@[d].name matches Some(s) && s@ == name
        },
        0 <= set < 4 && binding_map_contents(rs.layouts@[set].binding_to_descriptor_index).contains_key(
            binding,
        ) ==> {
            let d = binding_map_contents(rs.layouts@[set].binding_to_descriptor_index)[binding].0 as int;
            &&& d < rs.descriptors@.len()
            &&& rs.descriptors@[d].set_index == set
            &&& rs.descriptors@[d].binding == binding
        },
{
    assert forall|i: int| 0 <= i < resources.len() implies (#[trigger] resources[i]).set_index
        < 4 by {}
    lemma_build_lookups(resources, immutable, refl);
    let st = spec_build(resources, immutable, refl)->Ok_0;
    if name_map_contents(rs.name_to_descriptor_index).contains_key(name) {
        let d = st.names[name].0 as int;
        assert(st.names.contains_key(name));
        assert(descriptor_matches(rs.descriptors@[d], st.descriptors[d], d, spec_resolved_sampler(st.descriptors[d], st.sampler_names)));
    }
    if 0 <= set < 4 && binding_map_contents(rs.layouts@[set].binding_to_descriptor_index).contains_key(binding) {
        let l = rs.layouts@[set];
        assert(binding_map_contents(l.binding_to_descriptor_index) == st.layout_bindings[set]);
        assert(st.layout_bindings[set].contains_key(binding));
        let d = st.layout_bindings[set][binding].0 as int;
        assert(descriptor_matches(rs.descriptors@[d], st.descriptors[d], d, spec_resolved_sampler(st.descriptors[d], st.sampler_names)));
    }
}

} // verus!
