//! Root signatures of the GL ES 2.0 backend: each descriptor gets its slot in the image
//! (texture and sampler) or buffer states of its set, and uniform buffers their reflected
//! uniform. This backend takes no immutable samplers.
use crate::fnv_maps::{
    binding_map_contents, binding_map_get, binding_map_insert, binding_map_new, name_map_contents,
    name_map_get, name_map_insert, name_map_new, BindingMap, NameMap,
};
use crate::reflection::{UniformIndex, UniformReflectionData};
use crate::root_signature::{
    clone_opt_string, clone_string, lookup_uniform, spec_uniform_lookup, RafxShaderResourceGles,
};
use crate::types::{
    RafxDescriptorIndex, RafxError, RafxPipelineType, RafxResourceType, RafxResult,
    MAX_DESCRIPTOR_SET_LAYOUTS,
};
use vstd::prelude::*;
use vstd::utf8::encode_utf8;

verus! {

#[derive(Debug)]
pub struct DescriptorInfo {
    pub name: Option<String>,
    pub resource_type: RafxResourceType,
    /// Also the set layout.
    pub set_index: u32,
    /// Binding within the set.
    pub binding: u32,
    /// Used for arrays of textures, samplers, etc.
    pub element_count: u32,
    /// Index into the root signature's descriptor list (not the binding).
    pub descriptor_index: RafxDescriptorIndex,
    /// The reflected uniform of a uniform buffer, if some program uses it.
    pub uniform_index: Option<UniformIndex>,
    /// Where this descriptor's states start in its set's image or buffer states.
    pub descriptor_data_offset_in_set: Option<u32>,
    /// The name GL knows the resource by.
    pub gl_name: String,
}

pub struct DescriptorSetLayoutInfo {
    pub descriptors: Vec<RafxDescriptorIndex>,
    pub binding_to_descriptor_index: BindingMap,
    pub image_descriptor_state_count: u32,
    pub buffer_descriptor_state_count: u32,
}

pub struct RafxRootSignatureGles2 {
    pub pipeline_type: RafxPipelineType,
    pub layouts: Vec<DescriptorSetLayoutInfo>,
    pub descriptors: Vec<DescriptorInfo>,
    pub name_to_descriptor_index: NameMap,
    pub uniform_reflection: UniformReflectionData,
    pub root_signature_id: u32,
}

/// Root signatures are told apart by their ids.
impl PartialEq for RafxRootSignatureGles2 {
    fn eq(&self, other: &Self) -> (r: bool) {
        self.root_signature_id == other.root_signature_id
    }
}

impl vstd::std_specs::cmp::PartialEqSpecImpl for RafxRootSignatureGles2 {
    open spec fn obeys_eq_spec() -> bool {
        true
    }

    open spec fn eq_spec(&self, other: &Self) -> bool {
        self.root_signature_id == other.root_signature_id
    }
}

/// The state list of a set that a descriptor's data lives in.
#[derive(Copy, Clone, Debug, PartialEq, Eq, Structural)]
pub enum StateList {
    /// Textures and samplers.
    Image,
    Buffer,
}

pub open spec fn spec_state_list(rt: RafxResourceType) -> Option<StateList> {
    if rt.spec_intersects(
        RafxResourceType::TEXTURE | RafxResourceType::TEXTURE_READ_WRITE | RafxResourceType::SAMPLER,
    ) {
        Some(StateList::Image)
    } else if rt.spec_intersects(
        RafxResourceType::BUFFER | RafxResourceType::BUFFER_READ_WRITE
            | RafxResourceType::UNIFORM_BUFFER,
    ) {
        Some(StateList::Buffer)
    } else {
        None
    }
}

/// A resource's element count, an unsized array counting as one element.
pub open spec fn normalized_count(r: RafxShaderResourceGles) -> u32 {
    if r.element_count == 0 {
        1
    } else {
        r.element_count
    }
}

/// The state of a build after some resources.
pub struct RootSignatureBuildGles2 {
    pub descriptors: Seq<DescriptorInfo>,
    pub layout_descriptors: Seq<Seq<RafxDescriptorIndex>>,
    pub layout_bindings: Seq<Map<u32, RafxDescriptorIndex>>,
    pub names: Map<Seq<char>, RafxDescriptorIndex>,
    pub image_counts: Seq<int>,
    pub buffer_counts: Seq<int>,
}

pub open spec fn spec_build_start() -> RootSignatureBuildGles2 {
    RootSignatureBuildGles2 {
        descriptors: Seq::empty(),
        layout_descriptors: Seq::new(4, |i: int| Seq::<RafxDescriptorIndex>::empty()),
        layout_bindings: Seq::new(4, |i: int| Map::<u32, RafxDescriptorIndex>::empty()),
        names: Map::empty(),
        image_counts: seq![0, 0, 0, 0],
        buffer_counts: seq![0, 0, 0, 0],
    }
}

/// The descriptor a resource becomes, at a given index and state offset.
pub open spec fn spec_descriptor(
    r: RafxShaderResourceGles,
    index: int,
    offset: int,
    refl: UniformReflectionData,
) -> DescriptorInfo {
    DescriptorInfo {
        name: r.name,
        resource_type: r.resource_type,
        set_index: r.set_index,
        binding: r.binding,
        element_count: normalized_count(r),
        descriptor_index: RafxDescriptorIndex(index as u32),
        uniform_index: if r.resource_type == RafxResourceType(RafxResourceType::UNIFORM_BUFFER) {
            spec_uniform_lookup(refl, encode_utf8(r.gles_name@))
        } else {
            None
        },
        descriptor_data_offset_in_set: Some(offset as u32),
        gl_name: r.gles_name,
    }
}

/// One resource's effect on the build, or the error it raises.
pub open spec fn spec_step(
    st: RootSignatureBuildGles2,
    r: RafxShaderResourceGles,
    refl: UniformReflectionData,
) -> RafxResult<RootSignatureBuildGles2> {
    match spec_state_list(r.resource_type) {
        None => Err(RafxError::ResourceTypeNotSupported(r.resource_type)),
        Some(list) => {
            let set = r.set_index as int;
            let n = normalized_count(r) as int;
            let offset = if list == StateList::Image {
                st.image_counts[set]
            } else {
                st.buffer_counts[set]
            };
            let k = st.descriptors.len() as int;
            let di = RafxDescriptorIndex(k as u32);
            Ok(
                RootSignatureBuildGles2 {
                    descriptors: st.descriptors.push(spec_descriptor(r, k, offset, refl)),
                    layout_descriptors: st.layout_descriptors.update(
                        set,
                        st.layout_descriptors[set].push(di),
                    ),
                    layout_bindings: st.layout_bindings.update(
                        set,
                        st.layout_bindings[set].insert(r.binding, di),
                    ),
                    names: match r.name {
                        Some(name) => st.names.insert(name@, di),
                        None => st.names,
                    },
                    image_counts: if list == StateList::Image {
                        st.image_counts.update(set, offset + n)
                    } else {
                        st.image_counts
                    },
                    buffer_counts: if list == StateList::Buffer {
                        st.buffer_counts.update(set, offset + n)
                    } else {
                        st.buffer_counts
                    },
                },
            )
        },
    }
}

/// The build over a list of resources, stopping at the first error.
pub open spec fn spec_build(resources: Seq<RafxShaderResourceGles>, refl: UniformReflectionData) -> RafxResult<
    RootSignatureBuildGles2,
>
    decreases resources.len(),
{
    if resources.len() == 0 {
        Ok(spec_build_start())
    } else {
        match spec_build(resources.drop_last(), refl) {
            Err(e) => Err(e),
            Ok(st) => spec_step(st, resources.last(), refl),
        }
    }
}

/// The sum of the resources' normalized element counts.
pub open spec fn spec_total_elements(resources: Seq<RafxShaderResourceGles>) -> int
    decreases resources.len(),
{
    if resources.len() == 0 {
        0
    } else {
        spec_total_elements(resources.drop_last()) + normalized_count(resources.last())
    }
}

/// What the layout indexes or unwraps without a check, for each resource it reaches with a
/// supported type: a set index below the layout count, and a GL name that is a C string.
pub open spec fn resources_reachable_valid(
    resources: Seq<RafxShaderResourceGles>,
    refl: UniformReflectionData,
) -> bool {
    forall|i: int|
        0 <= i < resources.len() && spec_build(resources.take(i), refl) is Ok
            && spec_state_list(#[trigger] resources[i].resource_type) is Some ==> {
            &&& resources[i].set_index < 4
            &&& !encode_utf8(resources[i].gles_name@).contains(0u8)
        }
}

impl RafxRootSignatureGles2 {
    /// The root signature holds what the build made.
    pub open spec fn built_from(&self, st: RootSignatureBuildGles2) -> bool {
        &&& self.descriptors@ == st.descriptors
        &&& self.layouts@.len() == 4
        &&& forall|set: int|
            0 <= set < 4 ==> {
                let l = #[trigger] self.layouts@[set];
                &&& l.descriptors@ == st.layout_descriptors[set]
                &&& binding_map_contents(l.binding_to_descriptor_index) == st.layout_bindings[set]
                &&& l.image_descriptor_state_count == st.image_counts[set]
                &&& l.buffer_descriptor_state_count == st.buffer_counts[set]
            }
        &&& name_map_contents(self.name_to_descriptor_index) == st.names
    }
}

/// The build of a prefix stays within the bounds the whole list sets.
pub open spec fn build_bounded(st: RootSignatureBuildGles2, total: int, count: int) -> bool {
    &&& st.descriptors.len() == count
    &&& st.layout_descriptors.len() == 4
    &&& st.layout_bindings.len() == 4
    &&& st.image_counts.len() == 4
    &&& st.buffer_counts.len() == 4
    &&& forall|set: int|
        0 <= set < 4 ==> 0 <= #[trigger] st.image_counts[set] <= total && 0 <= st.buffer_counts[set]
            <= total
}

proof fn lemma_total_elements_prefix(resources: Seq<RafxShaderResourceGles>, p: int)
    requires
        0 <= p <= resources.len(),
    ensures
        spec_total_elements(resources.take(p)) <= spec_total_elements(resources),
    decreases resources.len(),
{
    if p == resources.len() {
        assert(resources.take(p) =~= resources);
    } else {
        let prefix = resources.drop_last();
        assert(prefix.take(p) =~= resources.take(p));
        lemma_total_elements_prefix(prefix, p);
    }
}

/// A build that fails on a prefix fails the same way on the whole list.
proof fn lemma_build_err_prefix(
    resources: Seq<RafxShaderResourceGles>,
    p: int,
    refl: UniformReflectionData,
)
    requires
        0 <= p <= resources.len(),
        spec_build(resources.take(p), refl) is Err,
    ensures
        spec_build(resources, refl) == spec_build(resources.take(p), refl),
    decreases resources.len(),
{
    if p == resources.len() {
        assert(resources.take(p) =~= resources);
    } else {
        let prefix = resources.drop_last();
        assert(prefix.take(p) =~= resources.take(p));
        lemma_build_err_prefix(prefix, p, refl);
    }
}

fn state_list(rt: RafxResourceType) -> (r: Option<StateList>)
    ensures
        r == spec_state_list(rt),
{
    if rt.intersects(
        RafxResourceType::TEXTURE | RafxResourceType::TEXTURE_READ_WRITE | RafxResourceType::SAMPLER,
    ) {
        Some(StateList::Image)
    } else if rt.intersects(
        RafxResourceType::BUFFER | RafxResourceType::BUFFER_READ_WRITE
            | RafxResourceType::UNIFORM_BUFFER,
    ) {
        Some(StateList::Buffer)
    } else {
        None
    }
}

/// A build in progress.
struct Builder {
    descriptors: Vec<DescriptorInfo>,
    layout_descriptors: Vec<Vec<RafxDescriptorIndex>>,
    layout_bindings: Vec<BindingMap>,
    names: NameMap,
    image_counts: Vec<u32>,
    buffer_counts: Vec<u32>,
}

impl Builder {
    spec fn holds(&self, st: RootSignatureBuildGles2) -> bool {
        &&& self.descriptors@ == st.descriptors
        &&& self.layout_descriptors@.len() == 4
        &&& self.layout_bindings@.len() == 4
        &&& self.image_counts@.len() == 4
        &&& self.buffer_counts@.len() == 4
        &&& st.layout_descriptors.len() == 4
        &&& st.layout_bindings.len() == 4
        &&& st.image_counts.len() == 4
        &&& st.buffer_counts.len() == 4
        &&& forall|set: int|
            0 <= set < 4 ==> (#[trigger] self.layout_descriptors@[set])@
                == st.layout_descriptors[set]
        &&& forall|set: int|
            0 <= set < 4 ==> binding_map_contents(#[trigger] self.layout_bindings@[set])
                == st.layout_bindings[set]
        &&& forall|set: int| 0 <= set < 4 ==> #[trigger] self.image_counts@[set] == st.image_counts[set]
        &&& forall|set: int| 0 <= set < 4 ==> #[trigger] self.buffer_counts@[set] == st.buffer_counts[set]
        &&& name_map_contents(self.names) == st.names
    }

    fn new() -> (r: Builder)
        ensures
            r.holds(spec_build_start()),
    {
        let mut layout_descriptors: Vec<Vec<RafxDescriptorIndex>> = Vec::new();
        let mut layout_bindings: Vec<BindingMap> = Vec::new();
        let mut j: usize = 0;
        while j < MAX_DESCRIPTOR_SET_LAYOUTS
            invariant
                j <= MAX_DESCRIPTOR_SET_LAYOUTS,
                layout_descriptors@.len() == j,
                layout_bindings@.len() == j,
                forall|set: int|
                    0 <= set < j ==> (#[trigger] layout_descriptors@[set])@ == Seq::<
                        RafxDescriptorIndex,
                    >::empty(),
                forall|set: int|
                    0 <= set < j ==> binding_map_contents(#[trigger] layout_bindings@[set])
                        == Map::<u32, RafxDescriptorIndex>::empty(),
            decreases MAX_DESCRIPTOR_SET_LAYOUTS - j,
        {
            layout_descriptors.push(Vec::new());
            let m = binding_map_new();
            assert(binding_map_contents(m) =~= Map::<u32, RafxDescriptorIndex>::empty());
            layout_bindings.push(m);
            j = j + 1;
        }
        let names = name_map_new();
        assert(name_map_contents(names) =~= Map::<Seq<char>, RafxDescriptorIndex>::empty());
        Builder {
            descriptors: Vec::new(),
            layout_descriptors,
            layout_bindings,
            names,
            image_counts: vec![0, 0, 0, 0],
            buffer_counts: vec![0, 0, 0, 0],
        }
    }

    /// Lays out one resource of a supported type.
    fn step(
        &mut self,
        r: &RafxShaderResourceGles,
        list: StateList,
        refl: &UniformReflectionData,
        Ghost(st): Ghost<RootSignatureBuildGles2>,
        Ghost(total): Ghost<int>,
    )
        requires
            old(self).holds(st),
            spec_state_list(r.resource_type) == Some(list),
            r.set_index < 4,
            refl.wf(),
            build_bounded(st, total, st.descriptors.len() as int),
            total + normalized_count(*r) <= u32::MAX,
            st.descriptors.len() < u32::MAX,
        ensures
            final(self).holds(spec_step(st, *r, *refl)->Ok_0),
    {
        let set = r.set_index as usize;
        let n: u32 = if r.element_count == 0 {
            1
        } else {
            r.element_count
        };
        assert(0 <= st.image_counts[set as int] <= total);
        let offset = match list {
            StateList::Image => self.image_counts[set],
            StateList::Buffer => self.buffer_counts[set],
        };
        let k = self.descriptors.len();
        let di = RafxDescriptorIndex(k as u32);
        let uniform_index = if r.resource_type.0 == RafxResourceType::UNIFORM_BUFFER {
            lookup_uniform(refl, &r.gles_name)
        } else {
            None
        };
        let d = DescriptorInfo {
            name: clone_opt_string(&r.name),
            resource_type: r.resource_type,
            set_index: r.set_index,
            binding: r.binding,
            element_count: n,
            descriptor_index: di,
            uniform_index,
            descriptor_data_offset_in_set: Some(offset),
            gl_name: clone_string(&r.gles_name),
        };
        assert(d == spec_descriptor(*r, k as int, offset as int, *refl));
        self.descriptors.push(d);
        self.layout_descriptors[set].push(di);
        binding_map_insert(&mut self.layout_bindings[set], r.binding, di);
        match &r.name {
            Some(nm) => {
                name_map_insert(&mut self.names, clone_string(nm), di);
            },
            None => {},
        }
        match list {
            StateList::Image => {
                self.image_counts.set(set, offset + n);
            },
            StateList::Buffer => {
                self.buffer_counts.set(set, offset + n);
            },
        }
        let ghost st2 = spec_step(st, *r, *refl)->Ok_0;
        assert(self.descriptors@ =~= st2.descriptors);
        assert forall|t: int| 0 <= t < 4 implies (#[trigger] self.layout_descriptors@[t])@
            == st2.layout_descriptors[t] by {}
        assert forall|t: int| 0 <= t < 4 implies binding_map_contents(
            #[trigger] self.layout_bindings@[t],
        ) == st2.layout_bindings[t] by {}
        assert forall|t: int| 0 <= t < 4 implies #[trigger] self.image_counts@[t]
            == st2.image_counts[t] by {}
        assert forall|t: int| 0 <= t < 4 implies #[trigger] self.buffer_counts@[t]
            == st2.buffer_counts[t] by {}
    }
}

/// The four set layouts.
fn make_layouts(
    layout_descriptors: Vec<Vec<RafxDescriptorIndex>>,
    layout_bindings: Vec<BindingMap>,
    image_counts: &Vec<u32>,
    buffer_counts: &Vec<u32>,
    Ghost(st): Ghost<RootSignatureBuildGles2>,
) -> (r: Vec<DescriptorSetLayoutInfo>)
    requires
        layout_descriptors@.len() == 4,
        layout_bindings@.len() == 4,
        st.layout_descriptors.len() == 4,
        st.layout_bindings.len() == 4,
        forall|set: int|
            0 <= set < 4 ==> #[trigger] layout_descriptors@[set]@ == st.layout_descriptors[set],
        forall|set: int|
            0 <= set < 4 ==> binding_map_contents(#[trigger] layout_bindings@[set])
                == st.layout_bindings[set],
        image_counts@.len() == 4,
        buffer_counts@.len() == 4,
        st.image_counts.len() == 4,
        st.buffer_counts.len() == 4,
        forall|set: int| 0 <= set < 4 ==> #[trigger] image_counts@[set] == st.image_counts[set],
        forall|set: int| 0 <= set < 4 ==> #[trigger] buffer_counts@[set] == st.buffer_counts[set],
    ensures
        r@.len() == 4,
        forall|set: int|
            0 <= set < 4 ==> {
                let l = #[trigger] r@[set];
                &&& l.descriptors@ == st.layout_descriptors[set]
                &&& binding_map_contents(l.binding_to_descriptor_index) == st.layout_bindings[set]
                &&& l.image_descriptor_state_count == st.image_counts[set]
                &&& l.buffer_descriptor_state_count == st.buffer_counts[set]
            },
{
    let mut layout_descriptors = layout_descriptors;
    let mut layout_bindings = layout_bindings;
    let mut r: Vec<DescriptorSetLayoutInfo> = Vec::new();
    let mut set: usize = 0;
    while set < 4
        invariant
            set <= 4,
            layout_descriptors@.len() == 4 - set,
            layout_bindings@.len() == 4 - set,
            st.layout_descriptors.len() == 4,
            st.layout_bindings.len() == 4,
            forall|t: int|
                0 <= t < 4 - set ==> #[trigger] layout_descriptors@[t]@ == st.layout_descriptors[set
                    + t],
            forall|t: int|
                0 <= t < 4 - set ==> binding_map_contents(#[trigger] layout_bindings@[t])
                    == st.layout_bindings[set + t],
            image_counts@.len() == 4,
            buffer_counts@.len() == 4,
            st.image_counts.len() == 4,
            st.buffer_counts.len() == 4,
            forall|s: int| 0 <= s < 4 ==> #[trigger] image_counts@[s] == st.image_counts[s],
            forall|s: int| 0 <= s < 4 ==> #[trigger] buffer_counts@[s] == st.buffer_counts[s],
            r@.len() == set,
            forall|s: int|
                0 <= s < set ==> {
                    let l = #[trigger] r@[s];
                    &&& l.descriptors@ == st.layout_descriptors[s]
                    &&& binding_map_contents(l.binding_to_descriptor_index)
                        == st.layout_bindings[s]
                    &&& l.image_descriptor_state_count == st.image_counts[s]
                    &&& l.buffer_descriptor_state_count == st.buffer_counts[s]
                },
        decreases 4 - set,
    {
        let descriptors = layout_descriptors.remove(0);
        let binding_to_descriptor_index = layout_bindings.remove(0);
        r.push(
            DescriptorSetLayoutInfo {
                descriptors,
                binding_to_descriptor_index,
                image_descriptor_state_count: image_counts[set],
                buffer_descriptor_state_count: buffer_counts[set],
            },
        );
        set = set + 1;
    }
    r
}

impl RafxRootSignatureGles2 {
    /// Lays out the descriptors of a pipeline's resources, failing on the first resource whose
    /// type GL ES 2.0 cannot bind.
    pub fn new(
        pipeline_type: RafxPipelineType,
        resources: &Vec<RafxShaderResourceGles>,
        uniform_reflection: UniformReflectionData,
        root_signature_id: u32,
    ) -> (r: RafxResult<RafxRootSignatureGles2>)
        requires
            resources_reachable_valid(resources@, uniform_reflection),
            spec_total_elements(resources@) <= u32::MAX,
            resources@.len() < u32::MAX,
            uniform_reflection.wf(),
        ensures
            match spec_build(resources@, uniform_reflection) {
                Ok(st) => r matches Ok(rs) && {
                    &&& rs.built_from(st)
                    &&& rs.pipeline_type == pipeline_type
                    &&& rs.root_signature_id == root_signature_id
                    &&& rs.uniform_reflection == uniform_reflection
                },
                Err(e) => r matches Err(e2) && e2 == e,
            },
    {
        let ghost refl = uniform_reflection;
        let mut b = Builder::new();
        let ghost mut st = spec_build_start();
        assert(resources@.take(0) =~= Seq::<RafxShaderResourceGles>::empty());
        let mut i: usize = 0;
        while i < resources.len()
            invariant
                i <= resources@.len(),
                resources@.len() < u32::MAX,
                spec_total_elements(resources@) <= u32::MAX,
                resources_reachable_valid(resources@, refl),
                refl == uniform_reflection,
                refl.wf(),
                spec_build(resources@.take(i as int), refl) == Ok::<
                    RootSignatureBuildGles2,
                    RafxError,
                >(st),
                build_bounded(st, spec_total_elements(resources@.take(i as int)), i as int),
                b.holds(st),
            decreases resources@.len() - i,
        {
            let r = &resources[i];
            proof {
                lemma_total_elements_prefix(resources@, i + 1);
                assert(resources@.take(i + 1).drop_last() =~= resources@.take(i as int));
                assert(resources@.take(i + 1).last() == resources@[i as int]);
            }
            let list = match state_list(r.resource_type) {
                Some(list) => list,
                None => {
                    proof {
                        lemma_build_err_prefix(resources@, i + 1, refl);
                    }
                    return Err(RafxError::ResourceTypeNotSupported(r.resource_type));
                },
            };
            assert(r.set_index < 4);
            b.step(r, list, &uniform_reflection, Ghost(st), Ghost(spec_total_elements(resources@.take(i as int))));
            proof {
                let st_old = st;
                st = spec_step(st, resources@[i as int], refl)->Ok_0;
                assert forall|set: int| 0 <= set < 4 implies 0 <= #[trigger] st.image_counts[set]
                    <= spec_total_elements(resources@.take(i + 1)) && 0 <= st.buffer_counts[set]
                    <= spec_total_elements(resources@.take(i + 1)) by {
                    assert(0 <= st_old.image_counts[set]);
                }
            }
            i = i + 1;
        }
        assert(resources@.take(resources@.len() as int) =~= resources@);
        let Builder { descriptors, layout_descriptors, layout_bindings, names, image_counts, buffer_counts } = b;
        let layouts = make_layouts(layout_descriptors, layout_bindings, &image_counts, &buffer_counts, Ghost(st));
        Ok(
            RafxRootSignatureGles2 {
                pipeline_type,
                layouts,
                descriptors,
                name_to_descriptor_index: names,
                uniform_reflection,
                root_signature_id,
            },
        )
    }
}

impl RafxRootSignatureGles2 {
    pub fn pipeline_type(&self) -> (r: RafxPipelineType)
        ensures
            r == self.pipeline_type,
    {
        self.pipeline_type
    }

    /// The descriptor with this name.
    pub fn find_descriptor_by_name(&self, name: &str) -> (r: Option<RafxDescriptorIndex>)
        ensures
            r == (if name_map_contents(self.name_to_descriptor_index).contains_key(name@) {
                Some(name_map_contents(self.name_to_descriptor_index)[name@])
            } else {
                None
            }),
    {
        name_map_get(&self.name_to_descriptor_index, name)
    }

    /// The descriptor at this binding of this set; none for a set index past the layouts.
    pub fn find_descriptor_by_binding(&self, set_index: u32, binding: u32) -> (r: Option<
        RafxDescriptorIndex,
    >)
        ensures
            r == (if set_index < self.layouts@.len() && binding_map_contents(
                self.layouts@[set_index as int].binding_to_descriptor_index,
            ).contains_key(binding) {
                Some(
                    binding_map_contents(
                        self.layouts@[set_index as int].binding_to_descriptor_index,
                    )[binding],
                )
            } else {
                None
            }),
    {
        if (set_index as usize) < self.layouts.len() {
            binding_map_get(&self.layouts[set_index as usize].binding_to_descriptor_index, binding)
        } else {
            None
        }
    }

    /// The descriptor at this index, if there is one.
    pub fn descriptor(&self, descriptor_index: RafxDescriptorIndex) -> (r: Option<&DescriptorInfo>)
        ensures
            r == (if descriptor_index.0 < self.descriptors@.len() {
                Some(&self.descriptors@[descriptor_index.0 as int])
            } else {
                None
            }),
    {
        if (descriptor_index.0 as usize) < self.descriptors.len() {
            Some(&self.descriptors[descriptor_index.0 as usize])
        } else {
            None
        }
    }

    pub fn uniform_reflection_data(&self) -> (r: &UniformReflectionData)
        ensures
            *r == self.uniform_reflection,
    {
        &self.uniform_reflection
    }

    /// The reflected uniform of a descriptor.
    pub fn uniform_index(&self, descriptor_index: RafxDescriptorIndex) -> (r: Option<UniformIndex>)
        requires
            descriptor_index.0 < self.descriptors@.len(),
        ensures
            r == self.descriptors@[descriptor_index.0 as int].uniform_index,
    {
        self.descriptors[descriptor_index.0 as usize].uniform_index
    }
}

/// A build succeeds on a list exactly when every resource in it has a type it can lay out.
proof fn lemma_build_ok_iff_supported(resources: Seq<RafxShaderResourceGles>, refl: UniformReflectionData)
    ensures
        spec_build(resources, refl) is Ok <==> forall|j: int|
            0 <= j < resources.len() ==> spec_state_list(#[trigger] resources[j].resource_type) is Some,
    decreases resources.len(),
{
    if resources.len() > 0 {
        let prefix = resources.drop_last();
        lemma_build_ok_iff_supported(prefix, refl);
        assert forall|j: int| 0 <= j < prefix.len() implies prefix[j] == resources[j] by {}
        if spec_build(resources, refl) is Ok {
            assert forall|j: int| 0 <= j < resources.len() implies spec_state_list(
                #[trigger] resources[j].resource_type,
            ) is Some by {
                if j < prefix.len() {
                    assert(prefix[j] == resources[j]);
                }
            }
        } else if spec_build(prefix, refl) is Ok {
            assert(spec_state_list(resources[resources.len() - 1].resource_type) is None);
        } else {
            let j = choose|j: int|
                0 <= j < prefix.len() && !(spec_state_list(#[trigger] prefix[j].resource_type) is Some);
            assert(prefix[j] == resources[j]);
        }
    }
}

/// A resource that is laid out has a set index below the layout count and a GL name that is a
/// C string.
fn resource_layout_ok(r: &RafxShaderResourceGles) -> (ok: bool)
    ensures
        ok == (r.set_index < 4 && !encode_utf8(r.gles_name@).contains(0u8)),
{
    if r.set_index >= 4 {
        return false;
    }
    let bytes = r.gles_name.as_str().as_bytes();
    let mut has_nul = false;
    let mut k: usize = 0;
    while k < bytes.len()
        invariant
            k <= bytes@.len(),
            bytes@ == encode_utf8(r.gles_name@),
            has_nul == exists|m: int| 0 <= m < k && bytes@[m] == 0u8,
        decreases bytes@.len() - k,
    {
        if bytes[k] == 0 {
            has_nul = true;
        }
        k = k + 1;
    }
    proof {
        if has_nul {
            let m = choose|m: int| 0 <= m < k && bytes@[m] == 0u8;
            assert(encode_utf8(r.gles_name@)[m] == 0u8);
        }
        if encode_utf8(r.gles_name@).contains(0u8) {
            let m = choose|m: int|
                0 <= m < encode_utf8(r.gles_name@).len() && encode_utf8(r.gles_name@)[m] == 0u8;
            assert(bytes@[m] == 0u8);
        }
    }
    !has_nul
}

/// Whether `new` can lay out the resources: what it indexes or unwraps without a check.
pub fn resources_reachable_valid_for(
    resources: &Vec<RafxShaderResourceGles>,
    uniform_reflection: &UniformReflectionData,
) -> (r: bool)
    ensures
        r == resources_reachable_valid(resources@, *uniform_reflection),
{
    let ghost refl = *uniform_reflection;
    let mut i: usize = 0;
    while i < resources.len()
        invariant
            i <= resources@.len(),
            refl == *uniform_reflection,
            forall|j: int| 0 <= j < i ==> spec_state_list(#[trigger] resources@[j].resource_type) is Some,
            forall|j: int|
                0 <= j < i ==> {
                    &&& (#[trigger] resources@[j]).set_index < 4
                    &&& !encode_utf8(resources@[j].gles_name@).contains(0u8)
                },
        decreases resources@.len() - i,
    {
        let r = &resources[i];
        if state_list(r.resource_type).is_none() {
            proof {
                lemma_unsupported_stops(resources@, refl, i as int);
            }
            return true;
        }
        if !resource_layout_ok(r) {
            proof {
                lemma_reached(resources@, refl, i as int);
            }
            return false;
        }
        i = i + 1;
    }
    proof {
        assert forall|j: int|
            0 <= j < resources@.len() && spec_build(resources@.take(j), refl) is Ok
                && spec_state_list(#[trigger] resources@[j].resource_type) is Some implies {
            &&& resources@[j].set_index < 4
            &&& !encode_utf8(resources@[j].gles_name@).contains(0u8)
        } by {}
    }
    true
}

/// A resource after the first ones, all supported, is reached with a build that succeeds.
proof fn lemma_reached(resources: Seq<RafxShaderResourceGles>, refl: UniformReflectionData, i: int)
    requires
        0 <= i < resources.len(),
        forall|j: int| 0 <= j < i ==> spec_state_list(#[trigger] resources[j].resource_type) is Some,
        spec_state_list(resources[i].resource_type) is Some,
        !(resources[i].set_index < 4 && !encode_utf8(resources[i].gles_name@).contains(0u8)),
    ensures
        !resources_reachable_valid(resources, refl),
{
    lemma_build_ok_iff_supported(resources.take(i), refl);
    assert forall|j: int| 0 <= j < i implies spec_state_list(
        #[trigger] resources.take(i)[j].resource_type,
    ) is Some by {
        assert(resources.take(i)[j] == resources[j]);
    }
    assert(spec_build(resources.take(i), refl) is Ok);
}

/// Past the first resource of an unsupported type, the layout reaches nothing.
proof fn lemma_unsupported_stops(resources: Seq<RafxShaderResourceGles>, refl: UniformReflectionData, i: int)
    requires
        0 <= i < resources.len(),
        spec_state_list(resources[i].resource_type) is None,
        forall|j: int|
            0 <= j < i ==> {
                &&& (#[trigger] resources[j]).set_index < 4
                &&& !encode_utf8(resources[j].gles_name@).contains(0u8)
            },
    ensures
        resources_reachable_valid(resources, refl),
{
    assert forall|j: int|
        0 <= j < resources.len() && spec_build(resources.take(j), refl) is Ok && spec_state_list(
            #[trigger] resources[j].resource_type,
        ) is Some implies {
        &&& resources[j].set_index < 4
        &&& !encode_utf8(resources[j].gles_name@).contains(0u8)
    } by {
        lemma_build_ok_iff_supported(resources.take(j), refl);
        if j > i {
            assert(resources.take(j)[i] == resources[i]);
            assert(spec_state_list(resources.take(j)[i].resource_type) is None);
        }
    }
}

/// What the lookups of a build map to: each name to a descriptor of that name, and each binding
/// of a set to a descriptor at that set and binding.
pub open spec fn build_lookups_match(st: RootSignatureBuildGles2) -> bool {
    &&& st.layout_bindings.len() == 4
    &&& forall|n: Seq<char>|
        #[trigger] st.names.contains_key(n) ==> {
            let d = st.names[n].0 as int;
            &&& d < st.descriptors.len()
            &&& st.descriptors[d].name matches Some(s) && s@ == n
        }
    &&& forall|set: int, b: u32|
        0 <= set < 4 && #[trigger] st.layout_bindings[set].contains_key(b) ==> {
            let d = st.layout_bindings[set][b].0 as int;
            &&& d < st.descriptors.len()
            &&& st.descriptors[d].set_index == set
            &&& st.descriptors[d].binding == b
        }
}

/// The state runs of a build: each descriptor's run of states lies within its set's count for
/// its state list, and the runs of two descriptors of one set and list do not overlap.
pub open spec fn state_runs_disjoint(st: RootSignatureBuildGles2) -> bool {
    &&& st.image_counts.len() == 4
    &&& st.buffer_counts.len() == 4
    &&& forall|k: int|
        0 <= k < st.descriptors.len() ==> {
            let d = #[trigger] st.descriptors[k];
            let counts = if spec_state_list(d.resource_type) == Some(StateList::Image) {
                st.image_counts
            } else {
                st.buffer_counts
            };
            &&& spec_state_list(d.resource_type) is Some
            &&& d.set_index < 4
            &&& d.descriptor_data_offset_in_set is Some
            &&& d.descriptor_data_offset_in_set->Some_0 + d.element_count <= counts[d.set_index as int]
        }
    &&& forall|k1: int, k2: int|
        0 <= k1 < k2 < st.descriptors.len() && (#[trigger] st.descriptors[k1]).set_index
            == (#[trigger] st.descriptors[k2]).set_index && spec_state_list(
            st.descriptors[k1].resource_type,
        ) == spec_state_list(st.descriptors[k2].resource_type) ==> st.descriptors[k1].descriptor_data_offset_in_set->Some_0
            + st.descriptors[k1].element_count <= st.descriptors[k2].descriptor_data_offset_in_set->Some_0
}

proof fn lemma_build_facts(resources: Seq<RafxShaderResourceGles>, refl: UniformReflectionData)
    requires
        spec_build(resources, refl) is Ok,
        resources_reachable_valid(resources, refl),
        resources.len() < u32::MAX,
        spec_total_elements(resources) <= u32::MAX,
    ensures
        build_lookups_match(spec_build(resources, refl)->Ok_0),
        state_runs_disjoint(spec_build(resources, refl)->Ok_0),
        build_bounded(
            spec_build(resources, refl)->Ok_0,
            spec_total_elements(resources),
            resources.len() as int,
        ),
    decreases resources.len(),
{
    if resources.len() == 0 {
        let st = spec_build_start();
        assert(st.layout_bindings.len() == 4);
        assert(st.image_counts =~= seq![0int, 0int, 0int, 0int]);
    } else {
        let prefix = resources.drop_last();
        let last = resources.len() - 1;
        assert forall|i: int|
            0 <= i < prefix.len() && spec_build(prefix.take(i), refl) is Ok && spec_state_list(
                #[trigger] prefix[i].resource_type,
            ) is Some implies {
            &&& prefix[i].set_index < 4
            &&& !encode_utf8(prefix[i].gles_name@).contains(0u8)
        } by {
            assert(prefix.take(i) =~= resources.take(i));
            assert(prefix[i] == resources[i]);
        }
        lemma_build_facts(prefix, refl);
        let st0 = spec_build(prefix, refl)->Ok_0;
        let r = resources.last();
        assert(r == resources[last]);
        assert(resources.take(last) =~= prefix);
        assert(r.set_index < 4);
        let st = spec_build(resources, refl)->Ok_0;
        let list = spec_state_list(r.resource_type)->Some_0;
        let set = r.set_index as int;
        let nk = st0.descriptors.len() as int;
        let di = RafxDescriptorIndex(nk as u32);
        assert(st.descriptors.len() == nk + 1);
        assert(st.descriptors[nk] == spec_descriptor(
            r,
            nk,
            if list == StateList::Image {
                st0.image_counts[set]
            } else {
                st0.buffer_counts[set]
            },
            refl,
        ));
        assert forall|k: int| 0 <= k < nk implies #[trigger] st.descriptors[k] == st0.descriptors[k] by {}
        assert(0 <= st0.image_counts[set] <= spec_total_elements(prefix));
        assert(0 <= st0.buffer_counts[set] <= spec_total_elements(prefix));
        assert(spec_total_elements(resources) == spec_total_elements(prefix) + normalized_count(r));
        let offset = if list == StateList::Image {
            st0.image_counts[set]
        } else {
            st0.buffer_counts[set]
        };
        assert(st.descriptors[nk].descriptor_data_offset_in_set == Some(offset as u32));
        assert(offset as u32 == offset);
        assert(st.descriptors[nk].element_count == normalized_count(r));
        assert(st.descriptors[nk].set_index == r.set_index);
        assert(st.descriptors[nk].resource_type == r.resource_type);
        // the lookups
        assert forall|n: Seq<char>| #[trigger] st.names.contains_key(n) implies {
            let d = st.names[n].0 as int;
            &&& d < st.descriptors.len()
            &&& st.descriptors[d].name matches Some(s) && s@ == n
        } by {
            match r.name {
                Some(rn) => {
                    if n != rn@ {
                        assert(st0.names.contains_key(n));
                        assert(st.descriptors[st0.names[n].0 as int] == st0.descriptors[st0.names[n].0 as int]);
                    }
                },
                None => {
                    assert(st0.names.contains_key(n));
                    assert(st.descriptors[st0.names[n].0 as int] == st0.descriptors[st0.names[n].0 as int]);
                },
            }
        }
        assert forall|s2: int, b: u32|
            0 <= s2 < 4 && #[trigger] st.layout_bindings[s2].contains_key(b) implies {
            let d = st.layout_bindings[s2][b].0 as int;
            &&& d < st.descriptors.len()
            &&& st.descriptors[d].set_index == s2
            &&& st.descriptors[d].binding == b
        } by {
            if !(s2 == set && b == r.binding) {
                assert(st0.layout_bindings[s2].contains_key(b));
                assert(st.layout_bindings[s2][b] == st0.layout_bindings[s2][b]);
                assert(st.descriptors[st0.layout_bindings[s2][b].0 as int]
                    == st0.descriptors[st0.layout_bindings[s2][b].0 as int]);
            }
        }
        // the state runs
        assert(spec_total_elements(resources) == spec_total_elements(prefix) + normalized_count(r));
        assert forall|s2: int| 0 <= s2 < 4 implies st0.image_counts[s2] <= #[trigger] st.image_counts[s2]
            && st0.buffer_counts[s2] <= st.buffer_counts[s2] by {}
        assert forall|k: int| 0 <= k < st.descriptors.len() implies {
            let d = #[trigger] st.descriptors[k];
            let counts = if spec_state_list(d.resource_type) == Some(StateList::Image) {
                st.image_counts
            } else {
                st.buffer_counts
            };
            &&& spec_state_list(d.resource_type) is Some
            &&& d.set_index < 4
            &&& d.descriptor_data_offset_in_set is Some
            &&& d.descriptor_data_offset_in_set->Some_0 + d.element_count <= counts[d.set_index as int]
        } by {
            if k < nk {
                let d0 = st0.descriptors[k];
                assert(st.descriptors[k] == d0);
                assert(d0.set_index < 4);
                assert(st.image_counts[d0.set_index as int] >= st0.image_counts[d0.set_index as int]);
                assert(st.buffer_counts[d0.set_index as int] >= st0.buffer_counts[d0.set_index as int]);
            }
        }
        assert forall|k1: int, k2: int|
            0 <= k1 < k2 < st.descriptors.len() && (#[trigger] st.descriptors[k1]).set_index
                == (#[trigger] st.descriptors[k2]).set_index && spec_state_list(
                st.descriptors[k1].resource_type,
            ) == spec_state_list(st.descriptors[k2].resource_type) implies st.descriptors[k1].descriptor_data_offset_in_set->Some_0
            + st.descriptors[k1].element_count <= st.descriptors[k2].descriptor_data_offset_in_set->Some_0 by {
            assert(st.descriptors[k1] == st0.descriptors[k1]);
            let d1 = st0.descriptors[k1];
            assert(d1.set_index < 4);
            if k2 < nk {
                assert(st.descriptors[k2] == st0.descriptors[k2]);
            }
        }
        assert forall|s2: int| 0 <= s2 < 4 implies 0 <= #[trigger] st.image_counts[s2]
            <= spec_total_elements(resources) && 0 <= st.buffer_counts[s2] <= spec_total_elements(
            resources,
        ) by {
            assert(0 <= st0.image_counts[s2]);
        }
    }
}

/// The lookups of a root signature find what they are asked for: a name finds a descriptor with
/// that name, and a binding of a set finds a descriptor at that set and binding.
pub proof fn lemma_lookups_find_matching_descriptors(
    rs: RafxRootSignatureGles2,
    resources: Seq<RafxShaderResourceGles>,
    refl: UniformReflectionData,
    name: Seq<char>,
    set: int,
    binding: u32,
)
    requires
        resources_reachable_valid(resources, refl),
        resources.len() < u32::MAX,
        spec_total_elements(resources) <= u32::MAX,
        spec_build(resources, refl) is Ok,
        rs.built_from(spec_build(resources, refl)->Ok_0),
    ensures
        name_map_contents(rs.name_to_descriptor_index).contains_key(name) ==> {
            let d = name_map_contents(rs.name_to_descriptor_index)[name].0 as int;
            &&& d < rs.descriptors@.len()
            &&& rs.descriptors@[d].name matches Some(s) && s@ == name
        },
        0 <= set < 4 && binding_map_contents(rs.layouts@[set].binding_to_descriptor_index).contains_key(
            binding,
        ) ==> {
            let d = binding_map_contents(rs.layouts@[set].binding_to_descriptor_index)[binding].0 as int;
            &&& d < rs.descriptors@.len()
            &&& rs.descriptors@[d].set_index == set
            &&& rs.descriptors@[d].binding == binding
        },
{
    lemma_build_facts(resources, refl);
    let st = spec_build(resources, refl)->Ok_0;
    if name_map_contents(rs.name_to_descriptor_index).contains_key(name) {
        assert(st.names.contains_key(name));
    }
    if 0 <= set < 4 && binding_map_contents(rs.layouts@[set].binding_to_descriptor_index).contains_key(binding) {
        assert(binding_map_contents(rs.layouts@[set].binding_to_descriptor_index) == st.layout_bindings[set]);
        assert(st.layout_bindings[set].contains_key(binding));
    }
}

/// Every descriptor's states lie within its set layout's image or buffer state count, and no two
/// descriptors of one set share a state of the same list.
pub proof fn lemma_state_runs_disjoint(
    rs: RafxRootSignatureGles2,
    resources: Seq<RafxShaderResourceGles>,
    refl: UniformReflectionData,
    k1: int,
    k2: int,
)
    requires
        resources_reachable_valid(resources, refl),
        resources.len() < u32::MAX,
        spec_total_elements(resources) <= u32::MAX,
        spec_build(resources, refl) is Ok,
        rs.built_from(spec_build(resources, refl)->Ok_0),
        0 <= k1 < rs.descriptors@.len(),
        0 <= k2 < rs.descriptors@.len(),
    ensures
        ({
            let d = rs.descriptors@[k1];
            let l = rs.layouts@[d.set_index as int];
            let count = if spec_state_list(d.resource_type) == Some(StateList::Image) {
                l.image_descriptor_state_count
            } else {
                l.buffer_descriptor_state_count
            };
            &&& d.set_index < 4
            &&& d.descriptor_data_offset_in_set is Some
            &&& d.descriptor_data_offset_in_set->Some_0 + d.element_count <= count
        }),
        k1 < k2 && rs.descriptors@[k1].set_index == rs.descriptors@[k2].set_index && spec_state_list(
            rs.descriptors@[k1].resource_type,
        ) == spec_state_list(rs.descriptors@[k2].resource_type) ==> rs.descriptors@[k1].descriptor_data_offset_in_set->Some_0
            + rs.descriptors@[k1].element_count <= rs.descriptors@[k2].descriptor_data_offset_in_set->Some_0,
{
    lemma_build_facts(resources, refl);
    let st = spec_build(resources, refl)->Ok_0;
    assert(rs.descriptors@[k1] == st.descriptors[k1]);
    assert(rs.descriptors@[k2] == st.descriptors[k2]);
    let s = rs.descriptors@[k1].set_index as int;
    assert(rs.layouts@[s].image_descriptor_state_count == st.image_counts[s]);
}

} // verus!
