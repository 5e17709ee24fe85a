//! Descriptor set arrays: per set of an array, the flat texture, sampler and buffer states that
//! a set layout's descriptors occupy, and how updates write them.
use crate::fnv_maps::{binding_map_contents, name_map_contents};
use crate::gl_context::BufferId;
use crate::root_signature::{DescriptorInfo, RafxRootSignatureGles3};
use crate::sampler::RafxSamplerGles2;
use crate::texture::Gles3TextureInfo;
use crate::types::{RafxDescriptorIndex, RafxError, RafxResourceType, RafxResult};
use vstd::prelude::*;

verus! {

/// A buffer bound to a descriptor: its GL name, whether its contents are kept in CPU memory,
/// and the offset its data starts at.
#[derive(Copy, Clone, Debug, PartialEq, Eq, Structural)]
pub struct BufferDescriptorState {
    pub buffer_id: Option<BufferId>,
    pub has_contents: bool,
    pub offset: u64,
}

#[derive(Copy, Clone, Debug, PartialEq, Eq, Structural)]
pub struct TextureDescriptorState {
    pub texture: Option<Gles3TextureInfo>,
}

#[derive(Copy, Clone, Debug, PartialEq, Eq, Structural)]
pub struct SamplerDescriptorState {
    pub sampler: Option<RafxSamplerGles2>,
}

/// The states of every set of an array, set after set.
pub struct DescriptorSetArrayData {
    pub buffer_states_per_set: u32,
    pub texture_states_per_set: u32,
    pub sampler_states_per_set: u32,
    pub buffer_states: Vec<Option<BufferDescriptorState>>,
    pub texture_states: Vec<Option<TextureDescriptorState>>,
    pub sampler_states: Vec<Option<SamplerDescriptorState>>,
}

/// One set of a descriptor set array.
#[derive(Copy, Clone, Debug, PartialEq, Eq, Structural)]
pub struct RafxDescriptorSetHandleGles2 {
    pub descriptor_set_array_id: u32,
    pub array_index: u32,
}

impl RafxDescriptorSetHandleGles2 {
    pub fn array_index(&self) -> (r: u32)
        ensures
            r == self.array_index,
    {
        self.array_index
    }
}

/// An array of descriptor sets of one set layout of a root signature.
pub struct RafxDescriptorSetArrayGles2 {
    pub id: u32,
    pub root_signature_id: u32,
    pub set_index: u32,
    pub data: DescriptorSetArrayData,
    pub array_length: u32,
}

/// A buffer as a descriptor update gives it.
#[derive(Copy, Clone, Debug, PartialEq, Eq, Structural)]
pub struct RafxDescriptorBuffer {
    pub buffer_id: Option<BufferId>,
    pub has_contents: bool,
}

#[derive(Copy, Clone, Debug, PartialEq, Eq, Structural)]
pub struct RafxOffsetSize {
    pub byte_offset: u64,
    pub size: u64,
}

/// How an update names the descriptor it writes.
pub enum RafxDescriptorKey {
    Undefined,
    Name(String),
    Binding(u32),
    DescriptorIndex(RafxDescriptorIndex),
}

/// The elements an update writes; the list that the descriptor's type needs must be given.
pub struct RafxDescriptorElements {
    pub textures: Option<Vec<Gles3TextureInfo>>,
    pub samplers: Option<Vec<RafxSamplerGles2>>,
    pub buffers: Option<Vec<RafxDescriptorBuffer>>,
    pub buffer_offset_sizes: Option<Vec<RafxOffsetSize>>,
}

pub struct RafxDescriptorUpdate {
    pub array_index: u32,
    pub descriptor_key: RafxDescriptorKey,
    pub elements: RafxDescriptorElements,
    /// The element of the descriptor that the first element written goes to.
    pub dst_element_offset: u32,
}

/// The descriptor an update of set `set_index` writes, or why there is none.
pub open spec fn spec_resolve_key(
    rs: RafxRootSignatureGles3,
    set_index: u32,
    key: RafxDescriptorKey,
) -> RafxResult<RafxDescriptorIndex> {
    match key {
        RafxDescriptorKey::Name(name) => {
            let names = name_map_contents(rs.name_to_descriptor_index);
            if names.contains_key(name@) {
                let di = names[name@];
                let s = rs.descriptors@[di.0 as int].set_index;
                if s == set_index {
                    Ok(di)
                } else {
                    Err(RafxError::DescriptorSetIndexMismatch(s, set_index))
                }
            } else {
                Err(RafxError::DescriptorNotFound)
            }
        },
        RafxDescriptorKey::Binding(binding) => {
            let bindings = binding_map_contents(
                rs.layouts@[set_index as int].binding_to_descriptor_index,
            );
            if bindings.contains_key(binding) {
                Ok(bindings[binding])
            } else {
                Err(RafxError::DescriptorNotFound)
            }
        },
        RafxDescriptorKey::DescriptorIndex(di) => Ok(di),
        RafxDescriptorKey::Undefined => Err(RafxError::UndefinedDescriptorKey),
    }
}

/// Which state list a descriptor's type writes.
pub enum UpdateKind {
    Samplers,
    Textures,
    Buffers,
}

pub open spec fn spec_update_kind(rt: RafxResourceType) -> Option<UpdateKind> {
    if rt.0 == RafxResourceType::SAMPLER {
        Some(UpdateKind::Samplers)
    } else if rt.0 == RafxResourceType::TEXTURE || rt.0 == RafxResourceType::TEXTURE_READ_WRITE {
        Some(UpdateKind::Textures)
    } else if rt.0 == RafxResourceType::UNIFORM_BUFFER || rt.0 == RafxResourceType::BUFFER || rt.0
        == RafxResourceType::BUFFER_READ_WRITE {
        Some(UpdateKind::Buffers)
    } else {
        None
    }
}

/// The number of elements an update gives for a kind, if it gives that list.
pub open spec fn spec_element_count(elements: RafxDescriptorElements, kind: UpdateKind) -> Option<nat> {
    match kind {
        UpdateKind::Samplers => match elements.samplers {
            Some(v) => Some(v@.len()),
            None => None,
        },
        UpdateKind::Textures => match elements.textures {
            Some(v) => Some(v@.len()),
            None => None,
        },
        UpdateKind::Buffers => match elements.buffers {
            Some(v) => Some(v@.len()),
            None => None,
        },
    }
}

/// The number of states per set of a kind.
pub open spec fn states_per_set(data: DescriptorSetArrayData, kind: UpdateKind) -> u32 {
    match kind {
        UpdateKind::Samplers => data.sampler_states_per_set,
        UpdateKind::Textures => data.texture_states_per_set,
        UpdateKind::Buffers => data.buffer_states_per_set,
    }
}

pub open spec fn states_len(data: DescriptorSetArrayData, kind: UpdateKind) -> nat {
    match kind {
        UpdateKind::Samplers => data.sampler_states@.len(),
        UpdateKind::Textures => data.texture_states@.len(),
        UpdateKind::Buffers => data.buffer_states@.len(),
    }
}

/// Where an update's first element goes in the flat states of its kind.
pub open spec fn spec_first_index(
    per_set: u32,
    update: RafxDescriptorUpdate,
    descriptor: DescriptorInfo,
) -> int {
    per_set * update.array_index + descriptor.descriptor_data_offset_in_set->Some_0
        + update.dst_element_offset
}

/// What an update may ask of the descriptor it resolves to: a type that descriptor sets hold,
/// and, when it gives the list of elements the type needs, no more elements than the
/// descriptor has past the offset, all landing within the array's states.
pub open spec fn update_fits(
    array: RafxDescriptorSetArrayGles2,
    descriptor: DescriptorInfo,
    update: RafxDescriptorUpdate,
) -> bool {
    &&& spec_update_kind(descriptor.resource_type) is Some
    &&& descriptor.descriptor_data_offset_in_set is Some
    &&& ({
        let kind = spec_update_kind(descriptor.resource_type)->Some_0;
        spec_element_count(update.elements, kind) matches Some(n) ==> {
            &&& update.dst_element_offset + n <= descriptor.element_count
            &&& spec_first_index(states_per_set(array.data, kind), update, descriptor) + n
                <= states_len(array.data, kind)
            &&& spec_first_index(states_per_set(array.data, kind), update, descriptor) + n
                <= u32::MAX
            &&& (kind == UpdateKind::Buffers) ==> (update.elements.buffer_offset_sizes matches Some(
                o,
            ) ==> o@.len() >= n)
        }
    })
}


/// The sampler states with `samplers` written from `first` on.
pub open spec fn spec_write_samplers(
    states: Seq<Option<SamplerDescriptorState>>,
    first: int,
    samplers: Seq<RafxSamplerGles2>,
) -> Seq<Option<SamplerDescriptorState>> {
    Seq::new(
        states.len(),
        |j: int|
            if first <= j < first + samplers.len() {
                Some(SamplerDescriptorState { sampler: Some(samplers[j - first]) })
            } else {
                states[j]
            },
    )
}

/// The texture states with `textures` written from `first` on.
pub open spec fn spec_write_textures(
    states: Seq<Option<TextureDescriptorState>>,
    first: int,
    textures: Seq<Gles3TextureInfo>,
) -> Seq<Option<TextureDescriptorState>> {
    Seq::new(
        states.len(),
        |j: int|
            if first <= j < first + textures.len() {
                Some(TextureDescriptorState { texture: Some(textures[j - first]) })
            } else {
                states[j]
            },
    )
}

/// The offset an update gives its `i`th buffer: from the offsets it gives, else zero.
pub open spec fn spec_buffer_offset(offsets: Option<Vec<RafxOffsetSize>>, i: int) -> u64 {
    match offsets {
        Some(o) => o@[i].byte_offset,
        None => 0,
    }
}

/// The buffer states with `buffers` written from `first` on.
pub open spec fn spec_write_buffers(
    states: Seq<Option<BufferDescriptorState>>,
    first: int,
    buffers: Seq<RafxDescriptorBuffer>,
    offsets: Option<Vec<RafxOffsetSize>>,
) -> Seq<Option<BufferDescriptorState>> {
    Seq::new(
        states.len(),
        |j: int|
            if first <= j < first + buffers.len() {
                Some(
                    BufferDescriptorState {
                        buffer_id: buffers[j - first].buffer_id,
                        has_contents: buffers[j - first].has_contents,
                        offset: spec_buffer_offset(offsets, j - first),
                    },
                )
            } else {
                states[j]
            },
    )
}

/// What a descriptor set array's states hold.
pub struct DescriptorSetArrayDataView {
    pub buffer_states_per_set: u32,
    pub texture_states_per_set: u32,
    pub sampler_states_per_set: u32,
    pub buffer_states: Seq<Option<BufferDescriptorState>>,
    pub texture_states: Seq<Option<TextureDescriptorState>>,
    pub sampler_states: Seq<Option<SamplerDescriptorState>>,
}

impl View for DescriptorSetArrayData {
    type V = DescriptorSetArrayDataView;

    open spec fn view(&self) -> DescriptorSetArrayDataView {
        DescriptorSetArrayDataView {
            buffer_states_per_set: self.buffer_states_per_set,
            texture_states_per_set: self.texture_states_per_set,
            sampler_states_per_set: self.sampler_states_per_set,
            buffer_states: self.buffer_states@,
            texture_states: self.texture_states@,
            sampler_states: self.sampler_states@,
        }
    }
}

/// The states after writing an update's elements to a descriptor.
pub open spec fn spec_write(
    v: DescriptorSetArrayDataView,
    descriptor: DescriptorInfo,
    update: RafxDescriptorUpdate,
) -> DescriptorSetArrayDataView {
    match spec_update_kind(descriptor.resource_type)->Some_0 {
        UpdateKind::Samplers => DescriptorSetArrayDataView {
            sampler_states: spec_write_samplers(
                v.sampler_states,
                spec_first_index(v.sampler_states_per_set, update, descriptor),
                update.elements.samplers->Some_0@,
            ),
            ..v
        },
        UpdateKind::Textures => DescriptorSetArrayDataView {
            texture_states: spec_write_textures(
                v.texture_states,
                spec_first_index(v.texture_states_per_set, update, descriptor),
                update.elements.textures->Some_0@,
            ),
            ..v
        },
        UpdateKind::Buffers => DescriptorSetArrayDataView {
            buffer_states: spec_write_buffers(
                v.buffer_states,
                spec_first_index(v.buffer_states_per_set, update, descriptor),
                update.elements.buffers->Some_0@,
                update.elements.buffer_offset_sizes,
            ),
            ..v
        },
    }
}

/// What an update of a set of layout `set_index` does: its result and the states after it.
/// A key that resolves to no descriptor, or elements of the wrong kind, change nothing.
pub open spec fn spec_apply_update(
    v: DescriptorSetArrayDataView,
    rs: RafxRootSignatureGles3,
    set_index: u32,
    update: RafxDescriptorUpdate,
) -> (RafxResult<()>, DescriptorSetArrayDataView) {
    match spec_resolve_key(rs, set_index, update.descriptor_key) {
        Err(e) => (Err(e), v),
        Ok(di) => {
            let d = rs.descriptors@[di.0 as int];
            let kind = spec_update_kind(d.resource_type)->Some_0;
            if spec_element_count(update.elements, kind) is None {
                (Err(RafxError::MissingUpdateElements), v)
            } else {
                (Ok(()), spec_write(v, d, update))
            }
        },
    }
}

/// The result and states after applying the first `k` updates in order, stopping at the
/// first that fails.
pub open spec fn spec_apply_updates(
    v: DescriptorSetArrayDataView,
    rs: RafxRootSignatureGles3,
    set_index: u32,
    updates: Seq<RafxDescriptorUpdate>,
    k: nat,
) -> (RafxResult<()>, DescriptorSetArrayDataView)
    decreases k,
{
    if k == 0 {
        (Ok(()), v)
    } else {
        let (r, v1) = spec_apply_updates(v, rs, set_index, updates, (k - 1) as nat);
        if r is Err {
            (r, v1)
        } else {
            spec_apply_update(v1, rs, set_index, updates[k - 1])
        }
    }
}

/// An update can be applied: it resolves to a descriptor of the root signature that it fits,
/// unless it fails first.
pub open spec fn update_applies(
    array: RafxDescriptorSetArrayGles2,
    rs: RafxRootSignatureGles3,
    update: RafxDescriptorUpdate,
) -> bool {
    spec_resolve_key(rs, array.set_index, update.descriptor_key) matches Ok(di) ==> {
        &&& di.0 < rs.descriptors@.len()
        &&& update_fits(array, rs.descriptors@[di.0 as int], update)
    }
}

impl RafxDescriptorSetArrayGles2 {
    /// An array of `array_length` sets of layout `set_index` of a root signature, with
    /// nothing bound.
    pub fn new(
        id: u32,
        root_signature: &RafxRootSignatureGles3,
        set_index: u32,
        array_length: usize,
    ) -> (r: RafxResult<RafxDescriptorSetArrayGles2>)
        requires
            root_signature.wf(),
            set_index < 4,
            array_length <= u32::MAX,
            array_length * root_signature.layouts@[set_index as int].buffer_descriptor_state_count
                <= usize::MAX,
            array_length * root_signature.layouts@[set_index as int].texture_descriptor_state_count
                <= usize::MAX,
            array_length * root_signature.layouts@[set_index as int].sampler_descriptor_state_count
                <= usize::MAX,
        ensures
            r matches Ok(a) && {
                let layout = root_signature.layouts@[set_index as int];
                &&& a.id == id
                &&& a.root_signature_id == root_signature.root_signature_id
                &&& a.set_index == set_index
                &&& a.array_length == array_length
                &&& a.data.buffer_states_per_set == layout.buffer_descriptor_state_count
                &&& a.data.texture_states_per_set == layout.texture_descriptor_state_count
                &&& a.data.sampler_states_per_set == layout.sampler_descriptor_state_count
                &&& a.data.buffer_states@ == Seq::new(
                    (array_length * layout.buffer_descriptor_state_count) as nat,
                    |i: int| None::<BufferDescriptorState>,
                )
                &&& a.data.texture_states@ == Seq::new(
                    (array_length * layout.texture_descriptor_state_count) as nat,
                    |i: int| None::<TextureDescriptorState>,
                )
                &&& a.data.sampler_states@ == Seq::new(
                    (array_length * layout.sampler_descriptor_state_count) as nat,
                    |i: int| None::<SamplerDescriptorState>,
                )
            },
    {
        let layout = &root_signature.layouts[set_index as usize];
        let data = DescriptorSetArrayData {
            buffer_states_per_set: layout.buffer_descriptor_state_count,
            texture_states_per_set: layout.texture_descriptor_state_count,
            sampler_states_per_set: layout.sampler_descriptor_state_count,
            buffer_states: nones_buffer(array_length * layout.buffer_descriptor_state_count as usize),
            texture_states: nones_texture(
                array_length * layout.texture_descriptor_state_count as usize,
            ),
            sampler_states: nones_sampler(
                array_length * layout.sampler_descriptor_state_count as usize,
            ),
        };
        Ok(
            RafxDescriptorSetArrayGles2 {
                id,
                root_signature_id: root_signature.root_signature_id,
                set_index,
                data,
                array_length: array_length as u32,
            },
        )
    }

    pub fn set_index(&self) -> (r: u32)
        ensures
            r == self.set_index,
    {
        self.set_index
    }

    pub fn descriptor_set_array_data(&self) -> (r: &DescriptorSetArrayData)
        ensures
            *r == self.data,
    {
        &self.data
    }

    /// The set at `array_index`, if the array has one there.
    pub fn handle(&self, array_index: u32) -> (r: Option<RafxDescriptorSetHandleGles2>)
        ensures
            r == (if array_index < self.array_length {
                Some(
                    RafxDescriptorSetHandleGles2 { descriptor_set_array_id: self.id, array_index },
                )
            } else {
                None
            }),
    {
        if array_index >= self.array_length {
            return None;
        }
        Some(RafxDescriptorSetHandleGles2 { descriptor_set_array_id: self.id, array_index })
    }
}

fn nones_buffer(n: usize) -> (r: Vec<Option<BufferDescriptorState>>)
    ensures
        r@ == Seq::new(n as nat, |i: int| None::<BufferDescriptorState>),
{
    let mut r: Vec<Option<BufferDescriptorState>> = Vec::new();
    let mut i: usize = 0;
    while i < n
        invariant
            i <= n,
            r@ == Seq::new(i as nat, |j: int| None::<BufferDescriptorState>),
        decreases n - i,
    {
        r.push(None);
        i = i + 1;
        assert(r@ =~= Seq::new(i as nat, |j: int| None::<BufferDescriptorState>));
    }
    r
}

fn nones_texture(n: usize) -> (r: Vec<Option<TextureDescriptorState>>)
    ensures
        r@ == Seq::new(n as nat, |i: int| None::<TextureDescriptorState>),
{
    let mut r: Vec<Option<TextureDescriptorState>> = Vec::new();
    let mut i: usize = 0;
    while i < n
        invariant
            i <= n,
            r@ == Seq::new(i as nat, |j: int| None::<TextureDescriptorState>),
        decreases n - i,
    {
        r.push(None);
        i = i + 1;
        assert(r@ =~= Seq::new(i as nat, |j: int| None::<TextureDescriptorState>));
    }
    r
}

fn nones_sampler(n: usize) -> (r: Vec<Option<SamplerDescriptorState>>)
    ensures
        r@ == Seq::new(n as nat, |i: int| None::<SamplerDescriptorState>),
{
    let mut r: Vec<Option<SamplerDescriptorState>> = Vec::new();
    let mut i: usize = 0;
    while i < n
        invariant
            i <= n,
            r@ == Seq::new(i as nat, |j: int| None::<SamplerDescriptorState>),
        decreases n - i,
    {
        r.push(None);
        i = i + 1;
        assert(r@ =~= Seq::new(i as nat, |j: int| None::<SamplerDescriptorState>));
    }
    r
}


fn write_samplers(
    states: &mut Vec<Option<SamplerDescriptorState>>,
    first: u32,
    samplers: &Vec<RafxSamplerGles2>,
)
    requires
        first + samplers@.len() <= old(states)@.len(),
        first + samplers@.len() <= u32::MAX,
    ensures
        final(states)@ == spec_write_samplers(old(states)@, first as int, samplers@),
{
    let ghost o = states@;
    let mut i: usize = 0;
    while i < samplers.len()
        invariant
            i <= samplers@.len(),
            first + samplers@.len() <= o.len(),
            first + samplers@.len() <= u32::MAX,
            states@.len() == o.len(),
            forall|j: int|
                0 <= j < o.len() ==> #[trigger] states@[j] == if first <= j < first + i {
                    Some(SamplerDescriptorState { sampler: Some(samplers@[j - first]) })
                } else {
                    o[j]
                },
        decreases samplers@.len() - i,
    {
        let next_index = first as usize + i;
        states.set(next_index, Some(SamplerDescriptorState { sampler: Some(samplers[i]) }));
        i = i + 1;
    }
    assert(states@ =~= spec_write_samplers(o, first as int, samplers@));
}

fn write_textures(
    states: &mut Vec<Option<TextureDescriptorState>>,
    first: u32,
    textures: &Vec<Gles3TextureInfo>,
)
    requires
        first + textures@.len() <= old(states)@.len(),
        first + textures@.len() <= u32::MAX,
    ensures
        final(states)@ == spec_write_textures(old(states)@, first as int, textures@),
{
    let ghost o = states@;
    let mut i: usize = 0;
    while i < textures.len()
        invariant
            i <= textures@.len(),
            first + textures@.len() <= o.len(),
            first + textures@.len() <= u32::MAX,
            states@.len() == o.len(),
            forall|j: int|
                0 <= j < o.len() ==> #[trigger] states@[j] == if first <= j < first + i {
                    Some(TextureDescriptorState { texture: Some(textures@[j - first]) })
                } else {
                    o[j]
                },
        decreases textures@.len() - i,
    {
        let next_index = first as usize + i;
        states.set(next_index, Some(TextureDescriptorState { texture: Some(textures[i]) }));
        i = i + 1;
    }
    assert(states@ =~= spec_write_textures(o, first as int, textures@));
}

fn write_buffers(
    states: &mut Vec<Option<BufferDescriptorState>>,
    first: u32,
    buffers: &Vec<RafxDescriptorBuffer>,
    offsets: &Option<Vec<RafxOffsetSize>>,
)
    requires
        first + buffers@.len() <= old(states)@.len(),
        first + buffers@.len() <= u32::MAX,
        offsets matches Some(o) ==> o@.len() >= buffers@.len(),
    ensures
        final(states)@ == spec_write_buffers(old(states)@, first as int, buffers@, *offsets),
{
    let ghost o = states@;
    let mut i: usize = 0;
    while i < buffers.len()
        invariant
            i <= buffers@.len(),
            first + buffers@.len() <= o.len(),
            first + buffers@.len() <= u32::MAX,
            states@.len() == o.len(),
            offsets matches Some(oo) ==> oo@.len() >= buffers@.len(),
            forall|j: int|
                0 <= j < o.len() ==> #[trigger] states@[j] == if first <= j < first + i {
                    Some(
                        BufferDescriptorState {
                            buffer_id: buffers@[j - first].buffer_id,
                            has_contents: buffers@[j - first].has_contents,
                            offset: spec_buffer_offset(*offsets, j - first),
                        },
                    )
                } else {
                    o[j]
                },
        decreases buffers@.len() - i,
    {
        let offset = match offsets {
            Some(o) => o[i].byte_offset,
            None => 0,
        };
        let b = buffers[i];
        let next_index = first as usize + i;
        states.set(
            next_index,
            Some(
                BufferDescriptorState {
                    buffer_id: b.buffer_id,
                    has_contents: b.has_contents,
                    offset,
                },
            ),
        );
        i = i + 1;
    }
    assert(states@ =~= spec_write_buffers(o, first as int, buffers@, *offsets));
}

/// The descriptor an update names, resolved against a root signature's lookups.
fn resolve_key(rs: &RafxRootSignatureGles3, set_index: u32, key: &RafxDescriptorKey) -> (r:
    RafxResult<RafxDescriptorIndex>)
    requires
        rs.wf(),
        set_index < 4,
    ensures
        r == spec_resolve_key(*rs, set_index, *key),
{
    match key {
        RafxDescriptorKey::Name(name) => {
            match rs.find_descriptor_by_name(name.as_str()) {
                Some(descriptor_index) => {
                    let s = rs.descriptors[descriptor_index.0 as usize].set_index;
                    if s == set_index {
                        Ok(descriptor_index)
                    } else {
                        Err(RafxError::DescriptorSetIndexMismatch(s, set_index))
                    }
                },
                None => Err(RafxError::DescriptorNotFound),
            }
        },
        RafxDescriptorKey::Binding(binding) => {
            match rs.find_descriptor_by_binding(set_index, *binding) {
                Some(descriptor_index) => Ok(descriptor_index),
                None => Err(RafxError::DescriptorNotFound),
            }
        },
        RafxDescriptorKey::DescriptorIndex(descriptor_index) => Ok(*descriptor_index),
        RafxDescriptorKey::Undefined => Err(RafxError::UndefinedDescriptorKey),
    }
}

impl RafxDescriptorSetArrayGles2 {
    fn first_buffer_index(
        &self,
        update: &RafxDescriptorUpdate,
        descriptor: &DescriptorInfo,
    ) -> (r: u32)
        requires
            descriptor.descriptor_data_offset_in_set is Some,
            spec_first_index(self.data.buffer_states_per_set, *update, *descriptor) <= u32::MAX,
        ensures
            r == spec_first_index(self.data.buffer_states_per_set, *update, *descriptor),
    {
        let offset = match descriptor.descriptor_data_offset_in_set {
            Some(o) => o,
            None => 0,
        };
        proof {
            assert(self.data.buffer_states_per_set * update.array_index <= u32::MAX);
        }
        self.data.buffer_states_per_set * update.array_index + offset + update.dst_element_offset
    }

    fn first_texture_index(
        &self,
        update: &RafxDescriptorUpdate,
        descriptor: &DescriptorInfo,
    ) -> (r: u32)
        requires
            descriptor.descriptor_data_offset_in_set is Some,
            spec_first_index(self.data.texture_states_per_set, *update, *descriptor) <= u32::MAX,
        ensures
            r == spec_first_index(self.data.texture_states_per_set, *update, *descriptor),
    {
        let offset = match descriptor.descriptor_data_offset_in_set {
            Some(o) => o,
            None => 0,
        };
        self.data.texture_states_per_set * update.array_index + offset + update.dst_element_offset
    }

    fn first_sampler_index(
        &self,
        update: &RafxDescriptorUpdate,
        descriptor: &DescriptorInfo,
    ) -> (r: u32)
        requires
            descriptor.descriptor_data_offset_in_set is Some,
            spec_first_index(self.data.sampler_states_per_set, *update, *descriptor) <= u32::MAX,
        ensures
            r == spec_first_index(self.data.sampler_states_per_set, *update, *descriptor),
    {
        let offset = match descriptor.descriptor_data_offset_in_set {
            Some(o) => o,
            None => 0,
        };
        self.data.sampler_states_per_set * update.array_index + offset + update.dst_element_offset
    }

    /// Writes an update's elements into the states of the descriptor it names, at the set
    /// `update.array_index`, from element `update.dst_element_offset` on.
    pub fn queue_descriptor_set_update(
        &mut self,
        root_signature: &RafxRootSignatureGles3,
        update: &RafxDescriptorUpdate,
    ) -> (r: RafxResult<()>)
        requires
            root_signature.wf(),
            old(self).set_index < 4,
            update_applies(*old(self), *root_signature, *update),
        ensures
            (r, final(self).data@) == spec_apply_update(
                old(self).data@,
                *root_signature,
                old(self).set_index,
                *update,
            ),
            final(self).id == old(self).id,
            final(self).root_signature_id == old(self).root_signature_id,
            final(self).set_index == old(self).set_index,
            final(self).array_length == old(self).array_length,
    {
        let descriptor_index = match resolve_key(root_signature, self.set_index, &update.descriptor_key) {
            Ok(di) => di,
            Err(e) => {
                return Err(e);
            },
        };
        let descriptor = &root_signature.descriptors[descriptor_index.0 as usize];
        let rt = descriptor.resource_type.0;
        if rt == RafxResourceType::SAMPLER {
            match &update.elements.samplers {
                Some(samplers) => {
                    let first = self.first_sampler_index(update, descriptor);
                    write_samplers(&mut self.data.sampler_states, first, samplers);
                    Ok(())
                },
                None => Err(RafxError::MissingUpdateElements),
            }
        } else if rt == RafxResourceType::TEXTURE || rt == RafxResourceType::TEXTURE_READ_WRITE {
            match &update.elements.textures {
                Some(textures) => {
                    let first = self.first_texture_index(update, descriptor);
                    write_textures(&mut self.data.texture_states, first, textures);
                    Ok(())
                },
                None => Err(RafxError::MissingUpdateElements),
            }
        } else {
            match &update.elements.buffers {
                Some(buffers) => {
                    let first = self.first_buffer_index(update, descriptor);
                    write_buffers(
                        &mut self.data.buffer_states,
                        first,
                        buffers,
                        &update.elements.buffer_offset_sizes,
                    );
                    Ok(())
                },
                None => Err(RafxError::MissingUpdateElements),
            }
        }
    }
}


impl RafxDescriptorSetArrayGles2 {
    /// Whether `queue_descriptor_set_update` can take the update: what it indexes without a
    /// check.
    pub fn update_applies_for(
        &self,
        root_signature: &RafxRootSignatureGles3,
        update: &RafxDescriptorUpdate,
    ) -> (r: bool)
        requires
            root_signature.wf(),
            self.set_index < 4,
        ensures
            r == update_applies(*self, *root_signature, *update),
    {
        let di = match resolve_key(root_signature, self.set_index, &update.descriptor_key) {
            Ok(di) => di,
            Err(_) => {
                return true;
            },
        };
        if di.0 as usize >= root_signature.descriptors.len() {
            return false;
        }
        let d = &root_signature.descriptors[di.0 as usize];
        let offset = match d.descriptor_data_offset_in_set {
            Some(o) => o,
            None => {
                return false;
            },
        };
        let rt = d.resource_type.0;
        let (per_set, n, len) = if rt == RafxResourceType::SAMPLER {
            (
                self.data.sampler_states_per_set,
                match &update.elements.samplers {
                    Some(v) => Some(v.len()),
                    None => None,
                },
                self.data.sampler_states.len(),
            )
        } else if rt == RafxResourceType::TEXTURE || rt == RafxResourceType::TEXTURE_READ_WRITE {
            (
                self.data.texture_states_per_set,
                match &update.elements.textures {
                    Some(v) => Some(v.len()),
                    None => None,
                },
                self.data.texture_states.len(),
            )
        } else if rt == RafxResourceType::UNIFORM_BUFFER || rt == RafxResourceType::BUFFER || rt
            == RafxResourceType::BUFFER_READ_WRITE {
            (
                self.data.buffer_states_per_set,
                match &update.elements.buffers {
                    Some(v) => Some(v.len()),
                    None => None,
                },
                self.data.buffer_states.len(),
            )
        } else {
            return false;
        };
        let n = match n {
            Some(n) => n,
            None => {
                return true;
            },
        };
        let is_buffer = !(rt == RafxResourceType::SAMPLER || rt == RafxResourceType::TEXTURE || rt
            == RafxResourceType::TEXTURE_READ_WRITE);
        assert(per_set * update.array_index <= 0xffff_ffff * 0xffff_ffff) by (nonlinear_arith)
            requires
                per_set <= 0xffff_ffff,
                update.array_index <= 0xffff_ffff,
        ;
        let first: u128 = per_set as u128 * update.array_index as u128 + offset as u128
            + update.dst_element_offset as u128;
        let fits = update.dst_element_offset as u128 + n as u128 <= d.element_count as u128 && first
            + n as u128 <= len as u128 && first + n as u128 <= 0xffff_ffff && (!is_buffer
            || match &update.elements.buffer_offset_sizes {
            Some(o) => o.len() >= n,
            None => true,
        });
        fits
    }
}

/// Writing an update keeps the number of states of each kind, so an update that fits the
/// array before fits it after.
proof fn lemma_write_keeps_shape(
    v: DescriptorSetArrayDataView,
    descriptor: DescriptorInfo,
    update: RafxDescriptorUpdate,
)
    requires
        spec_update_kind(descriptor.resource_type) is Some,
    ensures
        ({
            let w = spec_write(v, descriptor, update);
            &&& w.buffer_states_per_set == v.buffer_states_per_set
            &&& w.texture_states_per_set == v.texture_states_per_set
            &&& w.sampler_states_per_set == v.sampler_states_per_set
            &&& w.buffer_states.len() == v.buffer_states.len()
            &&& w.texture_states.len() == v.texture_states.len()
            &&& w.sampler_states.len() == v.sampler_states.len()
        }),
{
}

impl RafxDescriptorSetArrayGles2 {
    /// Applies updates in order, stopping at the first that fails.
    pub fn update_descriptor_set(
        &mut self,
        root_signature: &RafxRootSignatureGles3,
        descriptor_updates: &Vec<RafxDescriptorUpdate>,
    ) -> (r: RafxResult<()>)
        requires
            root_signature.wf(),
            old(self).set_index < 4,
            forall|i: int|
                0 <= i < descriptor_updates@.len() ==> update_applies(
                    *old(self),
                    *root_signature,
                    #[trigger] descriptor_updates@[i],
                ),
        ensures
            (r, final(self).data@) == spec_apply_updates(
                old(self).data@,
                *root_signature,
                old(self).set_index,
                descriptor_updates@,
                descriptor_updates@.len(),
            ),
            final(self).id == old(self).id,
            final(self).root_signature_id == old(self).root_signature_id,
            final(self).set_index == old(self).set_index,
            final(self).array_length == old(self).array_length,
    {
        let ghost o = *self;
        let mut result: RafxResult<()> = Ok(());
        let mut i: usize = 0;
        while i < descriptor_updates.len() && result.is_ok()
            invariant
                i <= descriptor_updates@.len(),
                root_signature.wf(),
                self.set_index == o.set_index,
                self.id == o.id,
                self.root_signature_id == o.root_signature_id,
                self.array_length == o.array_length,
                o.set_index < 4,
                self.data.buffer_states_per_set == o.data.buffer_states_per_set,
                self.data.texture_states_per_set == o.data.texture_states_per_set,
                self.data.sampler_states_per_set == o.data.sampler_states_per_set,
                self.data.buffer_states@.len() == o.data.buffer_states@.len(),
                self.data.texture_states@.len() == o.data.texture_states@.len(),
                self.data.sampler_states@.len() == o.data.sampler_states@.len(),
                forall|j: int|
                    0 <= j < descriptor_updates@.len() ==> update_applies(
                        o,
                        *root_signature,
                        #[trigger] descriptor_updates@[j],
                    ),
                (result, self.data@) == spec_apply_updates(
                    o.data@,
                    *root_signature,
                    o.set_index,
                    descriptor_updates@,
                    i as nat,
                ),
            decreases descriptor_updates@.len() - i,
        {
            let update = &descriptor_updates[i];
            proof {
                assert(update_applies(o, *root_signature, descriptor_updates@[i as int]));
                match spec_resolve_key(*root_signature, o.set_index, update.descriptor_key) {
                    Ok(di) => {
                        let d = root_signature.descriptors@[di.0 as int];
                        assert(update_fits(o, d, *update));
                        assert(update_fits(*self, d, *update));
                    },
                    Err(_) => {},
                }
            }
            let ghost before = self.data@;
            result = self.queue_descriptor_set_update(root_signature, update);
            proof {
                match spec_resolve_key(*root_signature, o.set_index, update.descriptor_key) {
                    Ok(di) => {
                        let d = root_signature.descriptors@[di.0 as int];
                        lemma_write_keeps_shape(before, d, *update);
                    },
                    Err(_) => {},
                }
            }
            i = i + 1;
        }
        proof {
            if result is Err {
                lemma_failed_updates_stay(
                    o.data@,
                    *root_signature,
                    o.set_index,
                    descriptor_updates@,
                    i as nat,
                    descriptor_updates@.len(),
                );
            }
        }
        result
    }
}

/// Once an update fails, later ones are not applied.
proof fn lemma_failed_updates_stay(
    v: DescriptorSetArrayDataView,
    rs: RafxRootSignatureGles3,
    set_index: u32,
    updates: Seq<RafxDescriptorUpdate>,
    k: nat,
    m: nat,
)
    requires
        k <= m,
        spec_apply_updates(v, rs, set_index, updates, k).0 is Err,
    ensures
        spec_apply_updates(v, rs, set_index, updates, m) == spec_apply_updates(
            v,
            rs,
            set_index,
            updates,
            k,
        ),
    decreases m - k,
{
    if k < m {
        lemma_failed_updates_stay(v, rs, set_index, updates, k, (m - 1) as nat);
    }
}


/// An update that succeeds leaves its elements in the states of its descriptor's kind, from
/// its first index on, and changes no other state.
pub proof fn lemma_update_reads_back(
    v: DescriptorSetArrayDataView,
    rs: RafxRootSignatureGles3,
    set_index: u32,
    update: RafxDescriptorUpdate,
)
    requires
        spec_apply_update(v, rs, set_index, update).0 is Ok,
    ensures
        ({
            let w = spec_apply_update(v, rs, set_index, update).1;
            let di = spec_resolve_key(rs, set_index, update.descriptor_key)->Ok_0;
            let d = rs.descriptors@[di.0 as int];
            let kind = spec_update_kind(d.resource_type)->Some_0;
            let per_set = match kind {
                UpdateKind::Samplers => v.sampler_states_per_set,
                UpdateKind::Textures => v.texture_states_per_set,
                UpdateKind::Buffers => v.buffer_states_per_set,
            };
            let first = spec_first_index(per_set, update, d);
            &&& kind == UpdateKind::Samplers ==> {
                let e = update.elements.samplers->Some_0@;
                &&& forall|i: int|
                    0 <= i < e.len() && first + i < v.sampler_states.len() ==> #[trigger] w.sampler_states[first + i]
                        == Some(SamplerDescriptorState { sampler: Some(e[i]) })
                &&& forall|j: int|
                    0 <= j < v.sampler_states.len() && !(first <= j < first + e.len())
                        ==> #[trigger] w.sampler_states[j] == v.sampler_states[j]
                &&& w.texture_states == v.texture_states
                &&& w.buffer_states == v.buffer_states
            }
            &&& kind == UpdateKind::Textures ==> {
                let e = update.elements.textures->Some_0@;
                &&& forall|i: int|
                    0 <= i < e.len() && first + i < v.texture_states.len() ==> #[trigger] w.texture_states[first + i]
                        == Some(TextureDescriptorState { texture: Some(e[i]) })
                &&& forall|j: int|
                    0 <= j < v.texture_states.len() && !(first <= j < first + e.len())
                        ==> #[trigger] w.texture_states[j] == v.texture_states[j]
                &&& w.sampler_states == v.sampler_states
                &&& w.buffer_states == v.buffer_states
            }
            &&& kind == UpdateKind::Buffers ==> {
                let e = update.elements.buffers->Some_0@;
                &&& forall|i: int|
                    0 <= i < e.len() && first + i < v.buffer_states.len() ==> #[trigger] w.buffer_states[first + i]
                        == Some(
                        BufferDescriptorState {
                            buffer_id: e[i].buffer_id,
                            has_contents: e[i].has_contents,
                            offset: spec_buffer_offset(update.elements.buffer_offset_sizes, i),
                        },
                    )
                &&& forall|j: int|
                    0 <= j < v.buffer_states.len() && !(first <= j < first + e.len())
                        ==> #[trigger] w.buffer_states[j] == v.buffer_states[j]
                &&& w.sampler_states == v.sampler_states
                &&& w.texture_states == v.texture_states
            }
        }),
{
}

} // verus!
