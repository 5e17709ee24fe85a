//! The recording state that a command pool's command buffers share: which render targets the
//! pool's framebuffer has attached, which descriptor sets and vertex buffers are bound, and which
//! vertex attribute arrays GL has enabled.
use crate::gl_command::GlCommand;
use crate::gl_context::{BufferId, FramebufferId};
use crate::gles20;
use crate::pipeline::{Gles3Attribute, Gles3PipelineInfo};
use crate::types::{
    RafxResult,
    RafxExtents2D, MAX_DESCRIPTOR_SET_LAYOUTS, MAX_RENDER_TARGET_ATTACHMENTS,
    MAX_VERTEX_INPUT_BINDINGS,
};
use vstd::prelude::*;

verus! {

/// One bit per vertex attribute location.
pub type AttributeEnabledBits = u32;

/// A descriptor set bound for drawing: which descriptor set array, and which set in it.
#[derive(Copy, Clone, Debug, PartialEq, Eq, Structural)]
pub struct BoundDescriptorSet {
    pub descriptor_set_array_id: u32,
    pub array_index: u32,
}

/// A vertex buffer bound for drawing, and the attributes that read from it.
#[derive(Copy, Clone, Debug, PartialEq, Eq, Structural)]
pub struct BoundVertexBuffer {
    pub buffer_id: BufferId,
    pub byte_offset: u32,
    pub attribute_enabled_bits: AttributeEnabledBits,
}

/// Whether bit `i` of `bits` is set.
pub open spec fn bit_is_set(bits: u32, i: u32) -> bool {
    (bits >> i) & 1u32 == 1u32
}

/// The calls that take the attribute arrays below `n` from the enabled set `old` to `desired`,
/// lowest location first: an enable for each bit only `desired` has, a disable for each bit only
/// `old` has.
pub open spec fn spec_attribute_toggles(old: u32, desired: u32, n: nat) -> Seq<GlCommand>
    decreases n,
{
    if n == 0 {
        Seq::empty()
    } else {
        let i = (n - 1) as u32;
        spec_attribute_toggles(old, desired, (n - 1) as nat) + if bit_is_set(old, i)
            == bit_is_set(desired, i) {
            Seq::empty()
        } else if bit_is_set(desired, i) {
            seq![GlCommand::EnableVertexAttribArray(i)]
        } else {
            seq![GlCommand::DisableVertexAttribArray(i)]
        }
    }
}

proof fn lemma_mask_bit(x: u32, i: u32)
    requires
        i < 32,
    ensures
        ((1u32 << i) & x == 0) == !bit_is_set(x, i),
{
    assert(((1u32 << i) & x == 0) == !((x >> i) & 1u32 == 1u32)) by (bit_vector)
        requires
            i < 32,
    ;
}

/// Binding `bound` at `set_index` for a root signature: the other sets are unbound first when
/// the bound ones belong to another root signature, and every slot that changes has its update
/// index raised.
pub open spec fn spec_descriptor_set_bound(
    before: DescriptorSetBindings,
    after: DescriptorSetBindings,
    root_signature_id: u32,
    set_index: u32,
    bound: BoundDescriptorSet,
) -> bool {
    let cleared = before.bound_descriptor_sets_root_signature matches Some(id) && id
        != root_signature_id;
    &&& after.bound_descriptor_sets_root_signature == Some(root_signature_id)
    &&& after.bound_descriptor_sets@ == if cleared {
        seq![
            None::<BoundDescriptorSet>,
            None::<BoundDescriptorSet>,
            None::<BoundDescriptorSet>,
            None::<BoundDescriptorSet>,
        ]
    } else {
        before.bound_descriptor_sets@
    }.update(set_index as int, Some(bound))
    &&& after.descriptor_sets_update_index@.len() == MAX_DESCRIPTOR_SET_LAYOUTS
    &&& forall|i: int|
        0 <= i < MAX_DESCRIPTOR_SET_LAYOUTS ==> #[trigger] after.descriptor_sets_update_index@[i]
            == before.descriptor_sets_update_index@[i] + (if cleared {
            1int
        } else {
            0int
        }) + (if i == set_index {
            1int
        } else {
            0int
        })
}

/// The descriptor sets bound for drawing, and how often each slot has changed.
pub struct DescriptorSetBindings {
    pub bound_descriptor_sets: Vec<Option<BoundDescriptorSet>>,
    /// The id of the root signature that the bound sets belong to.
    pub bound_descriptor_sets_root_signature: Option<u32>,
    /// Per set, raised on every change of the slot, so that a program can tell whether it has
    /// seen the current binding.
    pub descriptor_sets_update_index: Vec<u64>,
}

impl DescriptorSetBindings {
    pub open spec fn wf(&self) -> bool {
        &&& self.bound_descriptor_sets@.len() == MAX_DESCRIPTOR_SET_LAYOUTS
        &&& self.descriptor_sets_update_index@.len() == MAX_DESCRIPTOR_SET_LAYOUTS
    }

    /// The update indices can each be raised `n` more times.
    pub open spec fn can_advance(&self, n: int) -> bool {
        forall|i: int|
            0 <= i < self.descriptor_sets_update_index@.len() ==> #[trigger]
            self.descriptor_sets_update_index@[i] + n <= u64::MAX
    }

    /// Nothing bound; every update index at zero.
    pub fn new() -> (r: DescriptorSetBindings)
        ensures
            r.wf(),
            r.bound_descriptor_sets@ == seq![
                None::<BoundDescriptorSet>,
                None::<BoundDescriptorSet>,
                None::<BoundDescriptorSet>,
                None::<BoundDescriptorSet>,
            ],
            r.bound_descriptor_sets_root_signature is None,
            r.descriptor_sets_update_index@ == seq![0u64, 0u64, 0u64, 0u64],
    {
        DescriptorSetBindings {
            bound_descriptor_sets: vec![None, None, None, None],
            bound_descriptor_sets_root_signature: None,
            descriptor_sets_update_index: vec![0, 0, 0, 0],
        }
    }

    /// Unbinds every set, raising every update index.
    pub fn clear_bindings(&mut self)
        requires
            old(self).wf(),
            old(self).can_advance(1),
        ensures
            final(self).wf(),
            final(self).bound_descriptor_sets@ == seq![
                None::<BoundDescriptorSet>,
                None::<BoundDescriptorSet>,
                None::<BoundDescriptorSet>,
                None::<BoundDescriptorSet>,
            ],
            final(self).bound_descriptor_sets_root_signature is None,
            forall|i: int|
                0 <= i < MAX_DESCRIPTOR_SET_LAYOUTS ==> #[trigger]
                final(self).descriptor_sets_update_index@[i]
                    == old(self).descriptor_sets_update_index@[i] + 1,
    {
        self.bound_descriptor_sets_root_signature = None;
        let mut i: usize = 0;
        while i < MAX_DESCRIPTOR_SET_LAYOUTS
            invariant
                i <= MAX_DESCRIPTOR_SET_LAYOUTS,
                self.wf(),
                self.bound_descriptor_sets_root_signature is None,
                forall|j: int| 0 <= j < i ==> #[trigger] self.bound_descriptor_sets@[j] is None,
                forall|j: int|
                    0 <= j < i ==> #[trigger] self.descriptor_sets_update_index@[j]
                        == old(self).descriptor_sets_update_index@[j] + 1,
                forall|j: int|
                    i <= j < MAX_DESCRIPTOR_SET_LAYOUTS ==> #[trigger]
                    self.descriptor_sets_update_index@[j]
                        == old(self).descriptor_sets_update_index@[j],
                old(self).wf(),
                old(self).can_advance(1),
            decreases MAX_DESCRIPTOR_SET_LAYOUTS - i,
        {
            self.bound_descriptor_sets.set(i, None);
            let next = self.descriptor_sets_update_index[i] + 1;
            self.descriptor_sets_update_index.set(i, next);
            i = i + 1;
        }
        assert(self.bound_descriptor_sets@ =~= seq![
            None::<BoundDescriptorSet>,
            None::<BoundDescriptorSet>,
            None::<BoundDescriptorSet>,
            None::<BoundDescriptorSet>,
        ]);
    }

    /// Binds a set of a root signature's descriptor sets. Binding a set of another root signature
    /// than the bound ones unbinds those first.
    pub fn set_current_descriptor_set(
        &mut self,
        root_signature_id: u32,
        set_index: u32,
        bound: BoundDescriptorSet,
    )
        requires
            old(self).wf(),
            old(self).can_advance(2),
            set_index < MAX_DESCRIPTOR_SET_LAYOUTS,
        ensures
            final(self).wf(),
            spec_descriptor_set_bound(*old(self), *final(self), root_signature_id, set_index, bound),
    {
        match self.bound_descriptor_sets_root_signature {
            Some(current) => {
                if current != root_signature_id {
                    self.clear_bindings();
                    self.bound_descriptor_sets_root_signature = Some(root_signature_id);
                }
            },
            None => {
                self.bound_descriptor_sets_root_signature = Some(root_signature_id);
            },
        }
        let s = set_index as usize;
        self.bound_descriptor_sets.set(s, Some(bound));
        let next = self.descriptor_sets_update_index[s] + 1;
        self.descriptor_sets_update_index.set(s, next);
    }
}

/// The vertex buffers bound for drawing and the attribute arrays GL has enabled.
pub struct VertexBindings {
    /// The attribute arrays enabled in GL.
    pub vertex_attribute_enabled_bits: AttributeEnabledBits,
    /// Per attribute location, the attribute of the bound pipeline that reads from a bound
    /// vertex buffer.
    pub vertex_attributes: Vec<Option<Gles3Attribute>>,
    /// Per vertex buffer slot, the vertex offset its attribute pointers were last set for.
    pub currently_bound_vertex_offset: Vec<Option<i32>>,
    pub bound_vertex_buffers: Vec<Option<BoundVertexBuffer>>,
}

impl VertexBindings {
    pub open spec fn wf(&self) -> bool {
        &&& self.vertex_attributes@.len() <= 32
        &&& self.currently_bound_vertex_offset@.len() == MAX_VERTEX_INPUT_BINDINGS
        &&& self.bound_vertex_buffers@.len() == MAX_VERTEX_INPUT_BINDINGS
    }

    /// Nothing bound or enabled, with room for `attribute_count` attributes.
    pub fn new(attribute_count: u32) -> (r: VertexBindings)
        requires
            attribute_count <= 32,
        ensures
            r.wf(),
            r.vertex_attribute_enabled_bits == 0,
            r.vertex_attributes@ == Seq::new(
                attribute_count as nat,
                |i: int| None::<Gles3Attribute>,
            ),
            r.currently_bound_vertex_offset@ == Seq::new(16, |i: int| None::<i32>),
            r.bound_vertex_buffers@ == Seq::new(16, |i: int| None::<BoundVertexBuffer>),
    {
        let mut vertex_attributes: Vec<Option<Gles3Attribute>> = Vec::new();
        let mut i: u32 = 0;
        while i < attribute_count
            invariant
                i <= attribute_count,
                vertex_attributes@ == Seq::new(i as nat, |j: int| None::<Gles3Attribute>),
            decreases attribute_count - i,
        {
            vertex_attributes.push(None);
            i = i + 1;
            assert(vertex_attributes@ =~= Seq::new(i as nat, |j: int| None::<Gles3Attribute>));
        }
        let mut currently_bound_vertex_offset: Vec<Option<i32>> = Vec::new();
        let mut bound_vertex_buffers: Vec<Option<BoundVertexBuffer>> = Vec::new();
        let mut k: usize = 0;
        while k < MAX_VERTEX_INPUT_BINDINGS
            invariant
                k <= MAX_VERTEX_INPUT_BINDINGS,
                currently_bound_vertex_offset@ == Seq::new(k as nat, |j: int| None::<i32>),
                bound_vertex_buffers@ == Seq::new(k as nat, |j: int| None::<BoundVertexBuffer>),
            decreases MAX_VERTEX_INPUT_BINDINGS - k,
        {
            currently_bound_vertex_offset.push(None);
            bound_vertex_buffers.push(None);
            k = k + 1;
            assert(currently_bound_vertex_offset@ =~= Seq::new(k as nat, |j: int| None::<i32>));
            assert(bound_vertex_buffers@ =~= Seq::new(
                k as nat,
                |j: int| None::<BoundVertexBuffer>,
            ));
        }
        VertexBindings {
            vertex_attribute_enabled_bits: 0,
            vertex_attributes,
            currently_bound_vertex_offset,
            bound_vertex_buffers,
        }
    }

    /// Forgets every attribute, vertex offset and vertex buffer; enabled arrays stay enabled.
    pub fn forget_bindings(&mut self)
        requires
            old(self).wf(),
        ensures
            final(self).wf(),
            final(self).vertex_attribute_enabled_bits == old(self).vertex_attribute_enabled_bits,
            final(self).vertex_attributes@ == Seq::new(
                old(self).vertex_attributes@.len(),
                |i: int| None::<Gles3Attribute>,
            ),
            final(self).currently_bound_vertex_offset@ == Seq::new(16, |i: int| None::<i32>),
            final(self).bound_vertex_buffers@ == Seq::new(16, |i: int| None::<BoundVertexBuffer>),
    {
        let n = self.vertex_attributes.len();
        let mut i: usize = 0;
        while i < n
            invariant
                i <= n,
                n == self.vertex_attributes@.len(),
                forall|j: int| 0 <= j < i ==> #[trigger] self.vertex_attributes@[j] is None,
                self.currently_bound_vertex_offset@ == old(self).currently_bound_vertex_offset@,
                self.bound_vertex_buffers@ == old(self).bound_vertex_buffers@,
                self.vertex_attribute_enabled_bits == old(self).vertex_attribute_enabled_bits,
                old(self).wf(),
            decreases n - i,
        {
            self.vertex_attributes.set(i, None);
            i = i + 1;
        }
        assert(self.vertex_attributes@ =~= Seq::new(n as nat, |i: int| None::<Gles3Attribute>));
        let mut k: usize = 0;
        while k < MAX_VERTEX_INPUT_BINDINGS
            invariant
                k <= MAX_VERTEX_INPUT_BINDINGS,
                self.currently_bound_vertex_offset@.len() == MAX_VERTEX_INPUT_BINDINGS,
                self.bound_vertex_buffers@.len() == MAX_VERTEX_INPUT_BINDINGS,
                forall|j: int|
                    0 <= j < k ==> #[trigger] self.currently_bound_vertex_offset@[j] is None,
                forall|j: int| 0 <= j < k ==> #[trigger] self.bound_vertex_buffers@[j] is None,
                self.vertex_attributes@ == Seq::new(n as nat, |i: int| None::<Gles3Attribute>),
                n == old(self).vertex_attributes@.len(),
                n <= 32,
                self.vertex_attribute_enabled_bits == old(self).vertex_attribute_enabled_bits,
            decreases MAX_VERTEX_INPUT_BINDINGS - k,
        {
            self.currently_bound_vertex_offset.set(k, None);
            self.bound_vertex_buffers.set(k, None);
            k = k + 1;
        }
        assert(self.currently_bound_vertex_offset@ =~= Seq::new(16, |i: int| None::<i32>));
        assert(self.bound_vertex_buffers@ =~= Seq::new(16, |i: int| None::<BoundVertexBuffer>));
    }

    /// Enables and disables attribute arrays so that exactly those in `desired` are enabled.
    pub fn update_vertex_attributes_in_use(&mut self, desired: AttributeEnabledBits) -> (r: Vec<
        GlCommand,
    >)
        requires
            old(self).wf(),
        ensures
            final(self).wf(),
            r@ == spec_attribute_toggles(
                old(self).vertex_attribute_enabled_bits,
                desired,
                old(self).vertex_attributes@.len(),
            ),
            final(self).vertex_attribute_enabled_bits == desired,
            final(self).vertex_attributes@ == old(self).vertex_attributes@,
            final(self).currently_bound_vertex_offset@ == old(self).currently_bound_vertex_offset@,
            final(self).bound_vertex_buffers@ == old(self).bound_vertex_buffers@,
    {
        let old_bits = self.vertex_attribute_enabled_bits;
        let n = self.vertex_attributes.len() as u32;
        let mut r: Vec<GlCommand> = Vec::new();
        let mut i: u32 = 0;
        while i < n
            invariant
                i <= n,
                n == self.vertex_attributes@.len(),
                n <= 32,
                r@ == spec_attribute_toggles(old_bits, desired, i as nat),
            decreases n - i,
        {
            let is_enabled = (1u32 << i) & old_bits;
            let should_be_enabled = (1u32 << i) & desired;
            proof {
                lemma_mask_bit(old_bits, i);
                lemma_mask_bit(desired, i);
                assert(is_enabled != should_be_enabled <==> bit_is_set(old_bits, i)
                    != bit_is_set(desired, i)) by {
                    assert((is_enabled != should_be_enabled) == (((old_bits >> i) & 1u32) != ((
                    desired >> i) & 1u32))) by (bit_vector)
                        requires
                            is_enabled == (1u32 << i) & old_bits,
                            should_be_enabled == (1u32 << i) & desired,
                            i < 32,
                    ;
                    assert(((old_bits >> i) & 1u32) <= 1u32) by (bit_vector);
                    assert(((desired >> i) & 1u32) <= 1u32) by (bit_vector);
                }
            }
            let ghost before = r@;
            if is_enabled != should_be_enabled {
                if should_be_enabled != 0 {
                    r.push(GlCommand::EnableVertexAttribArray(i));
                } else {
                    r.push(GlCommand::DisableVertexAttribArray(i));
                }
            }
            assert(r@ =~= spec_attribute_toggles(old_bits, desired, (i + 1) as nat));
            i = i + 1;
        }
        self.vertex_attribute_enabled_bits = desired;
        r
    }
}

/// The recording state of a command pool, shared by its command buffers.
pub struct CommandPoolGles3StateInner {
    pub id: u32,
    /// The framebuffer object that render passes attach their targets to, owned by the pool.
    pub framebuffer_id: FramebufferId,
    /// Which color attachment points a render pass left attached.
    pub framebuffer_color_bound: Vec<bool>,
    /// Whether a depth or stencil target is left attached. Beginning a render pass attaches
    /// depth and stencil targets without setting these, so they stay false from `new` on, and a
    /// later pass never detaches a depth or stencil target a previous pass attached.
    pub framebuffer_depth_bound: bool,
    pub framebuffer_stencil_bound: bool,
    pub is_started: bool,
    /// The size of the render pass being recorded, if one is.
    pub surface_size: Option<RafxExtents2D>,
    pub current_gl_pipeline_info: Option<Gles3PipelineInfo>,
    pub stencil_reference_value: u32,
    pub descriptor_sets: DescriptorSetBindings,
    pub vertex: VertexBindings,
    /// Byte offset of the index buffer binding.
    pub index_buffer_byte_offset: u32,
}

impl CommandPoolGles3StateInner {
    pub open spec fn wf(&self) -> bool {
        &&& self.framebuffer_color_bound@.len() == MAX_RENDER_TARGET_ATTACHMENTS
        &&& self.descriptor_sets.wf()
        &&& self.vertex.wf()
    }

    /// Resetting a pool that is not recording: its state is kept as it is.
    pub fn reset_command_pool(&self) -> (r: RafxResult<()>)
        requires
            !self.is_started,
        ensures
            r is Ok,
    {
        Ok(())
    }

    /// The state of a new pool: nothing recorded, bound or attached.
    pub fn new(id: u32, framebuffer_id: FramebufferId, max_vertex_attribute_count: u32) -> (r:
        CommandPoolGles3StateInner)
        requires
            max_vertex_attribute_count <= 32,
        ensures
            r.wf(),
            r.id == id,
            r.framebuffer_id == framebuffer_id,
            r.framebuffer_color_bound@ == Seq::new(8, |i: int| false),
            !r.framebuffer_depth_bound,
            !r.framebuffer_stencil_bound,
            !r.is_started,
            r.surface_size is None,
            r.current_gl_pipeline_info is None,
            r.stencil_reference_value == 0,
            r.descriptor_sets.bound_descriptor_sets@ == seq![
                None::<BoundDescriptorSet>,
                None::<BoundDescriptorSet>,
                None::<BoundDescriptorSet>,
                None::<BoundDescriptorSet>,
            ],
            r.descriptor_sets.bound_descriptor_sets_root_signature is None,
            r.descriptor_sets.descriptor_sets_update_index@ == seq![0u64, 0u64, 0u64, 0u64],
            r.vertex.vertex_attribute_enabled_bits == 0,
            r.vertex.vertex_attributes@ == Seq::new(
                max_vertex_attribute_count as nat,
                |i: int| None::<Gles3Attribute>,
            ),
            r.vertex.currently_bound_vertex_offset@ == Seq::new(16, |i: int| None::<i32>),
            r.vertex.bound_vertex_buffers@ == Seq::new(16, |i: int| None::<BoundVertexBuffer>),
            r.index_buffer_byte_offset == 0,
    {
        let mut framebuffer_color_bound: Vec<bool> = Vec::new();
        let mut i: usize = 0;
        while i < MAX_RENDER_TARGET_ATTACHMENTS
            invariant
                i <= MAX_RENDER_TARGET_ATTACHMENTS,
                framebuffer_color_bound@ == Seq::new(i as nat, |j: int| false),
            decreases MAX_RENDER_TARGET_ATTACHMENTS - i,
        {
            framebuffer_color_bound.push(false);
            i = i + 1;
            assert(framebuffer_color_bound@ =~= Seq::new(i as nat, |j: int| false));
        }
        CommandPoolGles3StateInner {
            id,
            framebuffer_id,
            framebuffer_color_bound,
            framebuffer_depth_bound: false,
            framebuffer_stencil_bound: false,
            is_started: false,
            surface_size: None,
            current_gl_pipeline_info: None,
            stencil_reference_value: 0,
            descriptor_sets: DescriptorSetBindings::new(),
            vertex: VertexBindings::new(max_vertex_attribute_count),
            index_buffer_byte_offset: 0,
        }
    }
}


/// What the vertex bindings hold, as sequences.
pub struct VertexBindingsView {
    pub enabled_bits: u32,
    pub attributes: Seq<Option<Gles3Attribute>>,
    pub offsets: Seq<Option<i32>>,
    pub buffers: Seq<Option<BoundVertexBuffer>>,
}

impl View for VertexBindings {
    type V = VertexBindingsView;

    open spec fn view(&self) -> VertexBindingsView {
        VertexBindingsView {
            enabled_bits: self.vertex_attribute_enabled_bits,
            attributes: self.vertex_attributes@,
            offsets: self.currently_bound_vertex_offset@,
            buffers: self.bound_vertex_buffers@,
        }
    }
}

/// The attributes with the bits of `bits` forgotten.
pub open spec fn spec_forget_attributes(
    attributes: Seq<Option<Gles3Attribute>>,
    bits: u32,
) -> Seq<Option<Gles3Attribute>> {
    Seq::new(
        attributes.len(),
        |i: int|
            if bit_is_set(bits, i as u32) {
                None
            } else {
                attributes[i]
            },
    )
}

/// The attributes after recording the first `k` attributes of a pipeline that read from
/// vertex buffer binding `binding`, each at its location.
pub open spec fn spec_record_attributes(
    attributes: Seq<Option<Gles3Attribute>>,
    pipeline_attributes: Seq<Gles3Attribute>,
    binding: u32,
    k: nat,
) -> Seq<Option<Gles3Attribute>>
    decreases k,
{
    if k == 0 {
        attributes
    } else {
        let rest = spec_record_attributes(attributes, pipeline_attributes, binding, (k - 1) as nat);
        let a = pipeline_attributes[k - 1];
        if a.buffer_index == binding {
            rest.update(a.location as int, Some(a))
        } else {
            rest
        }
    }
}

/// `bits` with the locations of the first `k` attributes that read from `binding` added.
pub open spec fn spec_attribute_bits(
    bits: u32,
    pipeline_attributes: Seq<Gles3Attribute>,
    binding: u32,
    k: nat,
) -> u32
    decreases k,
{
    if k == 0 {
        bits
    } else {
        let rest = spec_attribute_bits(bits, pipeline_attributes, binding, (k - 1) as nat);
        let a = pipeline_attributes[k - 1];
        if a.buffer_index == binding {
            rest | (1u32 << a.location)
        } else {
            rest
        }
    }
}

/// The attribute locations of a pipeline fit the `n` attribute slots.
pub open spec fn attributes_fit(pipeline_attributes: Seq<Gles3Attribute>, n: nat) -> bool {
    forall|j: int|
        0 <= j < pipeline_attributes.len() ==> (#[trigger] pipeline_attributes[j]).location < n
}

/// One vertex buffer binding: the bindings, the attributes in use, and whether it succeeded.
/// The attributes of the buffer that was bound at the slot are forgotten first, also when the
/// buffer turns out not to be a vertex buffer.
pub open spec fn spec_bind_vertex_buffer(
    v: VertexBindingsView,
    in_use: u32,
    pipeline_attributes: Seq<Gles3Attribute>,
    binding_index: u32,
    buffer_id: Option<BufferId>,
    is_vertex_buffer: bool,
    byte_offset: u64,
) -> (VertexBindingsView, u32, bool) {
    let (attributes, in_use) = match v.buffers[binding_index as int] {
        Some(b) => (
            spec_forget_attributes(v.attributes, b.attribute_enabled_bits),
            in_use & !b.attribute_enabled_bits,
        ),
        None => (v.attributes, in_use),
    };
    if !is_vertex_buffer {
        (VertexBindingsView { attributes, ..v }, in_use, false)
    } else {
        let n = pipeline_attributes.len();
        (
            VertexBindingsView {
                attributes: spec_record_attributes(attributes, pipeline_attributes, binding_index, n),
                buffers: v.buffers.update(
                    binding_index as int,
                    Some(
                        BoundVertexBuffer {
                            buffer_id: buffer_id->Some_0,
                            byte_offset: byte_offset as u32,
                            attribute_enabled_bits: spec_attribute_bits(
                                0,
                                pipeline_attributes,
                                binding_index,
                                n,
                            ),
                        },
                    ),
                ),
                offsets: v.offsets.update(binding_index as int, None),
                ..v
            },
            spec_attribute_bits(in_use, pipeline_attributes, binding_index, n),
            true,
        )
    }
}

impl VertexBindings {
    /// Binds a vertex buffer at a slot: forgets the attributes of the buffer bound there, and
    /// unless the buffer is no vertex buffer, records the pipeline attributes that read from the
    /// slot and the buffer. Returns the attributes in use and whether it bound.
    pub fn bind_vertex_buffer(
        &mut self,
        in_use: u32,
        pipeline_attributes: &Vec<Gles3Attribute>,
        binding_index: u32,
        buffer_id: Option<BufferId>,
        is_vertex_buffer: bool,
        byte_offset: u64,
    ) -> (r: (u32, bool))
        requires
            old(self).wf(),
            binding_index < MAX_VERTEX_INPUT_BINDINGS,
            attributes_fit(pipeline_attributes@, old(self).vertex_attributes@.len()),
            is_vertex_buffer ==> buffer_id is Some,
        ensures
            final(self).wf(),
            final(self).vertex_attributes@.len() == old(self).vertex_attributes@.len(),
            (final(self)@, r.0, r.1) == spec_bind_vertex_buffer(
                old(self)@,
                in_use,
                pipeline_attributes@,
                binding_index,
                buffer_id,
                is_vertex_buffer,
                byte_offset,
            ),
    {
        let ghost v = self@;
        let mut in_use = in_use;
        let b = binding_index as usize;
        let n = self.vertex_attributes.len();
        match self.bound_vertex_buffers[b] {
            Some(bound) => {
                let bits = bound.attribute_enabled_bits;
                let mut i: usize = 0;
                while i < n
                    invariant
                        i <= n,
                        n == self.vertex_attributes@.len(),
                        n <= 32,
                        forall|j: int|
                            0 <= j < i ==> #[trigger] self.vertex_attributes@[j] == (if bit_is_set(
                                bits,
                                j as u32,
                            ) {
                                None
                            } else {
                                v.attributes[j]
                            }),
                        forall|j: int|
                            i <= j < n ==> #[trigger] self.vertex_attributes@[j]
                                == v.attributes[j],
                        v.attributes.len() == n,
                        self.wf(),
                        self.currently_bound_vertex_offset@ == v.offsets,
                        self.bound_vertex_buffers@ == v.buffers,
                        self.vertex_attribute_enabled_bits == v.enabled_bits,
                    decreases n - i,
                {
                    proof {
                        lemma_mask_bit(bits, i as u32);
                    }
                    if (bits & (1u32 << i as u32)) != 0 {
                        proof {
                            assert(bits & (1u32 << i as u32) == (1u32 << i as u32) & bits)
                                by (bit_vector);
                        }
                        self.vertex_attributes.set(i, None);
                    } else {
                        proof {
                            assert(bits & (1u32 << i as u32) == (1u32 << i as u32) & bits)
                                by (bit_vector);
                        }
                    }
                    i = i + 1;
                }
                assert(self.vertex_attributes@ =~= spec_forget_attributes(v.attributes, bits));
                in_use = in_use & !bits;
            },
            None => {},
        }
        if !is_vertex_buffer {
            return (in_use, false);
        }
        let ghost attributes0 = self.vertex_attributes@;
        let ghost in_use0 = in_use;
        let mut per_binding: u32 = 0;
        let mut k: usize = 0;
        while k < pipeline_attributes.len()
            invariant
                k <= pipeline_attributes@.len(),
                self.wf(),
                self.vertex_attributes@.len() == attributes0.len(),
                attributes_fit(pipeline_attributes@, attributes0.len()),
                self.vertex_attributes@ == spec_record_attributes(
                    attributes0,
                    pipeline_attributes@,
                    binding_index,
                    k as nat,
                ),
                in_use == spec_attribute_bits(in_use0, pipeline_attributes@, binding_index, k as nat),
                per_binding == spec_attribute_bits(0, pipeline_attributes@, binding_index, k as nat),
                self.currently_bound_vertex_offset@ == v.offsets,
                self.bound_vertex_buffers@ == v.buffers,
                self.vertex_attribute_enabled_bits == v.enabled_bits,
            decreases pipeline_attributes@.len() - k,
        {
            let a = pipeline_attributes[k];
            if a.buffer_index == binding_index {
                self.vertex_attributes.set(a.location as usize, Some(a));
                in_use = in_use | (1u32 << a.location);
                per_binding = per_binding | (1u32 << a.location);
            }
            k = k + 1;
        }
        self.bound_vertex_buffers.set(
            b,
            Some(
                BoundVertexBuffer {
                    buffer_id: match buffer_id {
                        Some(id) => id,
                        None => BufferId(0),
                    },
                    byte_offset: byte_offset as u32,
                    attribute_enabled_bits: per_binding,
                },
            ),
        );
        self.currently_bound_vertex_offset.set(b, None);
        (in_use, true)
    }
}


/// Where an attribute's data starts for a vertex offset: the buffer's offset, the attribute's
/// offset, and `vertex_offset` strides.
pub open spec fn spec_attribute_byte_offset(
    b: BoundVertexBuffer,
    a: Gles3Attribute,
    vertex_offset: i32,
) -> int {
    (b.byte_offset as i32) + (a.byte_offset as i32) + (a.stride as i32) * vertex_offset
}

/// The attribute pointer calls for the attributes below `n` that read from a bound buffer.
pub open spec fn spec_attribute_pointer_commands(
    attributes: Seq<Option<Gles3Attribute>>,
    b: BoundVertexBuffer,
    vertex_offset: i32,
    n: nat,
) -> Seq<GlCommand>
    decreases n,
{
    if n == 0 {
        Seq::empty()
    } else {
        let i = n - 1;
        spec_attribute_pointer_commands(attributes, b, vertex_offset, (n - 1) as nat) + if bit_is_set(
            b.attribute_enabled_bits,
            i as u32,
        ) {
            let a = attributes[i]->Some_0;
            seq![
                GlCommand::VertexAttribPointer {
                    index: a.location,
                    size: a.channel_count as i32,
                    gl_type: a.gl_type,
                    normalized: a.is_normalized,
                    stride: a.stride,
                    byte_offset: spec_attribute_byte_offset(b, a, vertex_offset) as i32,
                },
            ]
        } else {
            Seq::empty()
        }
    }
}

/// Whether the buffer at slot `k` must have its attribute pointers set for `vertex_offset`.
pub open spec fn needs_rebind(v: VertexBindingsView, k: int, vertex_offset: i32) -> bool {
    v.buffers[k] is Some && v.offsets[k] != Some(vertex_offset)
}

/// The calls that point the attributes of the buffers below slot `k` that are not set up for
/// `vertex_offset` at their data.
pub open spec fn spec_vertex_binding_commands(
    v: VertexBindingsView,
    vertex_offset: i32,
    k: nat,
) -> Seq<GlCommand>
    decreases k,
{
    if k == 0 {
        Seq::empty()
    } else {
        let s = k - 1;
        spec_vertex_binding_commands(v, vertex_offset, (k - 1) as nat) + if needs_rebind(
            v,
            s,
            vertex_offset,
        ) {
            let b = v.buffers[s]->Some_0;
            seq![GlCommand::BindBuffer { target: gles20::ARRAY_BUFFER, buffer: b.buffer_id }]
                + spec_attribute_pointer_commands(v.attributes, b, vertex_offset, v.attributes.len())
        } else {
            Seq::empty()
        }
    }
}

/// Every attribute that a rebind reads is recorded, belongs to its buffer, is enabled, and has
/// a data offset that fits an `i32`.
pub open spec fn vertex_bindings_ready(v: VertexBindingsView, vertex_offset: i32) -> bool {
    forall|k: int, i: int|
        0 <= k < MAX_VERTEX_INPUT_BINDINGS && 0 <= i < v.attributes.len() && needs_rebind(
            v,
            k,
            vertex_offset,
        ) && bit_is_set((#[trigger] v.buffers[k])->Some_0.attribute_enabled_bits, i as u32) ==> {
            let b = v.buffers[k]->Some_0;
            &&& (#[trigger] v.attributes[i]) matches Some(a) && {
                &&& a.buffer_index == k
                &&& i32::MIN <= (a.stride as i32) * vertex_offset <= i32::MAX
                &&& i32::MIN <= (b.byte_offset as i32) + (a.byte_offset as i32) <= i32::MAX
                &&& i32::MIN <= spec_attribute_byte_offset(b, a, vertex_offset) <= i32::MAX
            }
            &&& bit_is_set(v.enabled_bits, i as u32)
        }
}

impl VertexBindings {
    fn attribute_pointer_commands(&self, b: BoundVertexBuffer, slot: usize, vertex_offset: i32) -> (r:
        Vec<GlCommand>)
        requires
            self.wf(),
            slot < MAX_VERTEX_INPUT_BINDINGS,
            self@.buffers[slot as int] == Some(b),
            needs_rebind(self@, slot as int, vertex_offset),
            vertex_bindings_ready(self@, vertex_offset),
        ensures
            r@ == spec_attribute_pointer_commands(
                self@.attributes,
                b,
                vertex_offset,
                self@.attributes.len(),
            ),
    {
        let n = self.vertex_attributes.len();
        let mut r: Vec<GlCommand> = Vec::new();
        let mut i: usize = 0;
        while i < n
            invariant
                i <= n,
                n == self.vertex_attributes@.len(),
                n <= 32,
                r@ == spec_attribute_pointer_commands(
                    self@.attributes,
                    b,
                    vertex_offset,
                    i as nat,
                ),
                self.wf(),
                slot < MAX_VERTEX_INPUT_BINDINGS,
                self@.buffers[slot as int] == Some(b),
                needs_rebind(self@, slot as int, vertex_offset),
                vertex_bindings_ready(self@, vertex_offset),
            decreases n - i,
        {
            proof {
                lemma_mask_bit(b.attribute_enabled_bits, i as u32);
            }
            if (1u32 << i as u32) & b.attribute_enabled_bits != 0 {
                proof {
                    assert(bit_is_set(self@.buffers[slot as int]->Some_0.attribute_enabled_bits, i as u32));
                }
                let a = match self.vertex_attributes[i] {
                    Some(a) => a,
                    None => Gles3Attribute {
                        buffer_index: 0,
                        location: 0,
                        channel_count: 0,
                        gl_type: 0,
                        stride: 0,
                        divisor: 0,
                        is_normalized: false,
                        byte_offset: 0,
                    },
                };
                let byte_offset = b.byte_offset as i32 + a.byte_offset as i32 + (a.stride as i32
                    * vertex_offset);
                r.push(
                    GlCommand::VertexAttribPointer {
                        index: a.location,
                        size: a.channel_count as i32,
                        gl_type: a.gl_type,
                        normalized: a.is_normalized,
                        stride: a.stride,
                        byte_offset,
                    },
                );
            }
            assert(r@ =~= spec_attribute_pointer_commands(
                self@.attributes,
                b,
                vertex_offset,
                (i + 1) as nat,
            ));
            i = i + 1;
        }
        r
    }

    /// Points the attributes of every bound buffer that is not set up for `vertex_offset` at
    /// their data, and records that they are.
    pub fn ensure_vertex_bindings_up_to_date(&mut self, vertex_offset: i32) -> (r: Vec<GlCommand>)
        requires
            old(self).wf(),
            vertex_bindings_ready(old(self)@, vertex_offset),
        ensures
            final(self).wf(),
            r@ == spec_vertex_binding_commands(
                old(self)@,
                vertex_offset,
                MAX_VERTEX_INPUT_BINDINGS as nat,
            ) + if exists|k: int|
                0 <= k < MAX_VERTEX_INPUT_BINDINGS && #[trigger] needs_rebind(
                    old(self)@,
                    k,
                    vertex_offset,
                ) {
                seq![
                    GlCommand::BindBuffer {
                        target: gles20::ARRAY_BUFFER,
                        buffer: BufferId(gles20::NONE),
                    },
                ]
            } else {
                Seq::empty()
            },
            final(self)@ == (VertexBindingsView {
                offsets: Seq::new(
                    16,
                    |k: int|
                        if old(self)@.buffers[k] is Some {
                            Some(vertex_offset)
                        } else {
                            old(self)@.offsets[k]
                        },
                ),
                ..old(self)@
            }),
    {
        let ghost v = self@;
        let mut r: Vec<GlCommand> = Vec::new();
        let mut unbind_buffer = false;
        let mut k: usize = 0;
        while k < MAX_VERTEX_INPUT_BINDINGS
            invariant
                k <= MAX_VERTEX_INPUT_BINDINGS,
                self.wf(),
                v.offsets.len() == MAX_VERTEX_INPUT_BINDINGS,
                v.buffers.len() == MAX_VERTEX_INPUT_BINDINGS,
                self@.attributes == v.attributes,
                self@.buffers == v.buffers,
                self@.enabled_bits == v.enabled_bits,
                vertex_bindings_ready(v, vertex_offset),
                forall|j: int|
                    0 <= j < k ==> #[trigger] self@.offsets[j] == if v.buffers[j] is Some {
                        Some(vertex_offset)
                    } else {
                        v.offsets[j]
                    },
                forall|j: int| k <= j < MAX_VERTEX_INPUT_BINDINGS ==> #[trigger] self@.offsets[j] == v.offsets[j],
                r@ == spec_vertex_binding_commands(v, vertex_offset, k as nat),
                unbind_buffer == exists|j: int| 0 <= j < k && #[trigger] needs_rebind(v, j, vertex_offset),
            decreases MAX_VERTEX_INPUT_BINDINGS - k,
        {
            let ghost before = self@;
            match self.bound_vertex_buffers[k] {
                Some(b) => {
                    let skip = match self.currently_bound_vertex_offset[k] {
                        Some(o) => o == vertex_offset,
                        None => false,
                    };
                    if !skip {
                        assert(self@.offsets[k as int] == v.offsets[k as int]);
                        assert(needs_rebind(v, k as int, vertex_offset));
                        assert forall|kk: int, i: int|
                            0 <= kk < MAX_VERTEX_INPUT_BINDINGS && 0 <= i < before.attributes.len()
                                && needs_rebind(before, kk, vertex_offset) && bit_is_set(
                                (#[trigger] before.buffers[kk])->Some_0.attribute_enabled_bits,
                                i as u32,
                            ) implies {
                            let b = before.buffers[kk]->Some_0;
                            &&& (#[trigger] before.attributes[i]) matches Some(a) && {
                                &&& a.buffer_index == kk
                                &&& i32::MIN <= (a.stride as i32) * vertex_offset <= i32::MAX
                                &&& i32::MIN <= (b.byte_offset as i32) + (a.byte_offset as i32)
                                    <= i32::MAX
                                &&& i32::MIN <= spec_attribute_byte_offset(b, a, vertex_offset)
                                    <= i32::MAX
                            }
                            &&& bit_is_set(before.enabled_bits, i as u32)
                        } by {
                            if kk < k {
                                assert(before.buffers[kk] is Some);
                                assert(before.offsets[kk] == Some(vertex_offset));
                            } else {
                                assert(needs_rebind(v, kk, vertex_offset));
                            }
                        }
                        r.push(GlCommand::BindBuffer { target: gles20::ARRAY_BUFFER, buffer: b.buffer_id });
                        let ptrs = self.attribute_pointer_commands(b, k, vertex_offset);
                        let mut ptrs = ptrs;
                        r.append(&mut ptrs);
                        unbind_buffer = true;
                    }
                    self.currently_bound_vertex_offset.set(k, Some(vertex_offset));
                },
                None => {},
            }
            assert(r@ =~= spec_vertex_binding_commands(v, vertex_offset, (k + 1) as nat));
            k = k + 1;
        }
        let ghost r0 = r@;
        if unbind_buffer {
            r.push(GlCommand::BindBuffer { target: gles20::ARRAY_BUFFER, buffer: BufferId(gles20::NONE) });
        }
        assert(self@.offsets =~= Seq::new(
            16,
            |j: int|
                if v.buffers[j] is Some {
                    Some(vertex_offset)
                } else {
                    v.offsets[j]
                },
        ));
        r
    }
}


/// The checks of `vertex_bindings_ready` for attribute slot `i` of the buffer at slot `k`.
pub open spec fn attribute_ready(v: VertexBindingsView, vertex_offset: i32, k: int, i: int) -> bool {
    let b = v.buffers[k]->Some_0;
    &&& v.attributes[i] matches Some(a) && {
        &&& a.buffer_index == k
        &&& i32::MIN <= (a.stride as i32) * vertex_offset <= i32::MAX
        &&& i32::MIN <= (b.byte_offset as i32) + (a.byte_offset as i32) <= i32::MAX
        &&& i32::MIN <= spec_attribute_byte_offset(b, a, vertex_offset) <= i32::MAX
    }
    &&& bit_is_set(v.enabled_bits, i as u32)
}

impl VertexBindings {
    /// Whether drawing with `vertex_offset` can set up every attribute pointer it must.
    pub fn vertex_bindings_ready_for(&self, vertex_offset: i32) -> (r: bool)
        requires
            self.wf(),
        ensures
            r == vertex_bindings_ready(self@, vertex_offset),
    {
        let n = self.vertex_attributes.len();
        let mut k: usize = 0;
        while k < MAX_VERTEX_INPUT_BINDINGS
            invariant
                k <= MAX_VERTEX_INPUT_BINDINGS,
                self.wf(),
                n == self@.attributes.len(),
                forall|kk: int, i: int|
                    0 <= kk < k && 0 <= i < n && needs_rebind(self@, kk, vertex_offset) && bit_is_set(
                        self@.buffers[kk]->Some_0.attribute_enabled_bits,
                        i as u32,
                    ) ==> #[trigger] attribute_ready(self@, vertex_offset, kk, i),
            decreases MAX_VERTEX_INPUT_BINDINGS - k,
        {
            let skip = match self.currently_bound_vertex_offset[k] {
                Some(o) => o == vertex_offset,
                None => false,
            };
            match self.bound_vertex_buffers[k] {
                Some(b) => {
                    if !skip {
                        let mut i: usize = 0;
                        while i < n
                            invariant
                                i <= n,
                                k < MAX_VERTEX_INPUT_BINDINGS,
                                self.wf(),
                                n == self@.attributes.len(),
                                self@.buffers[k as int] == Some(b),
                                needs_rebind(self@, k as int, vertex_offset),
                                forall|ii: int|
                                    0 <= ii < i && bit_is_set(b.attribute_enabled_bits, ii as u32)
                                        ==> #[trigger] attribute_ready(self@, vertex_offset, k as int, ii),
                            decreases n - i,
                        {
                            proof {
                                lemma_mask_bit(b.attribute_enabled_bits, i as u32);
                                lemma_mask_bit(self.vertex_attribute_enabled_bits, i as u32);
                            }
                            if (1u32 << i as u32) & b.attribute_enabled_bits != 0 {
                                let ok = match self.vertex_attributes[i] {
                                    Some(a) => {
                                        let stride = a.stride as i32 as i64;
                                        proof {
                                            assert(stride * (vertex_offset as i64)
                                                <= 0x4000_0000_0000_0000i64) by (nonlinear_arith)
                                                requires
                                                    -0x8000_0000 <= stride <= 0x7fff_ffff,
                                                    -0x8000_0000 <= vertex_offset <= 0x7fff_ffff,
                                            ;
                                            assert(-0x4000_0000_0000_0000i64 <= stride * (vertex_offset as i64))
                                                by (nonlinear_arith)
                                                requires
                                                    -0x8000_0000 <= stride <= 0x7fff_ffff,
                                                    -0x8000_0000 <= vertex_offset <= 0x7fff_ffff,
                                            ;
                                        }
                                        let product: i64 = stride * (vertex_offset as i64);
                                        let sum: i64 = (b.byte_offset as i32 as i64) + (a.byte_offset as i32 as i64);
                                        let total: i64 = sum + product;
                                        a.buffer_index as usize == k
                                            && -0x8000_0000i64 <= product && product <= 0x7fff_ffffi64
                                            && -0x8000_0000i64 <= sum && sum <= 0x7fff_ffffi64
                                            && -0x8000_0000i64 <= total && total <= 0x7fff_ffffi64
                                            && (1u32 << i as u32) & self.vertex_attribute_enabled_bits != 0
                                    },
                                    None => false,
                                };
                                if !ok {
                                    assert(!attribute_ready(self@, vertex_offset, k as int, i as int));
                                    assert(bit_is_set(
                                        self@.buffers[k as int]->Some_0.attribute_enabled_bits,
                                        i as u32,
                                    ));
                                    return false;
                                }
                            }
                            i = i + 1;
                        }
                        assert forall|kk: int, ii: int|
                            0 <= kk < k + 1 && 0 <= ii < n && needs_rebind(self@, kk, vertex_offset)
                                && bit_is_set(
                                self@.buffers[kk]->Some_0.attribute_enabled_bits,
                                ii as u32,
                            ) implies #[trigger] attribute_ready(self@, vertex_offset, kk, ii) by {
                            if kk == k {
                                assert(bit_is_set(b.attribute_enabled_bits, ii as u32));
                            }
                        }
                    }
                },
                None => {},
            }
            k = k + 1;
        }
        assert forall|kk: int, i: int|
            0 <= kk < MAX_VERTEX_INPUT_BINDINGS && 0 <= i < self@.attributes.len() && needs_rebind(
                self@,
                kk,
                vertex_offset,
            ) && bit_is_set(
                (#[trigger] self@.buffers[kk])->Some_0.attribute_enabled_bits,
                i as u32,
            ) implies {
            let b = self@.buffers[kk]->Some_0;
            &&& (#[trigger] self@.attributes[i]) matches Some(a) && {
                &&& a.buffer_index == kk
                &&& i32::MIN <= (a.stride as i32) * vertex_offset <= i32::MAX
                &&& i32::MIN <= (b.byte_offset as i32) + (a.byte_offset as i32) <= i32::MAX
                &&& i32::MIN <= spec_attribute_byte_offset(b, a, vertex_offset) <= i32::MAX
            }
            &&& bit_is_set(self@.enabled_bits, i as u32)
        } by {
            assert(attribute_ready(self@, vertex_offset, kk, i));
        }
        true
    }
}


/// The toggles below `n` only name attribute arrays below `n`.
proof fn lemma_toggles_below(old: u32, desired: u32, n: nat, i: u32)
    requires
        i >= n,
    ensures
        !spec_attribute_toggles(old, desired, n).contains(GlCommand::EnableVertexAttribArray(i)),
        !spec_attribute_toggles(old, desired, n).contains(GlCommand::DisableVertexAttribArray(i)),
    decreases n,
{
    if n > 0 {
        lemma_toggles_below(old, desired, (n - 1) as nat, i);
        let t = spec_attribute_toggles(old, desired, n);
        let rest = spec_attribute_toggles(old, desired, (n - 1) as nat);
        assert forall|c: GlCommand| t.contains(c) implies rest.contains(c) || c
            == GlCommand::EnableVertexAttribArray((n - 1) as u32) || c
            == GlCommand::DisableVertexAttribArray((n - 1) as u32) by {
            let j = choose|j: int| 0 <= j < t.len() && t[j] == c;
            if j < rest.len() {
                assert(rest[j] == c);
            }
        }
    }
}

/// Bringing the enabled attribute arrays from `old` to `desired` enables exactly the arrays
/// below `n` that only `desired` has, and disables exactly those that only `old` has.
pub proof fn lemma_attribute_toggles_exact(old: u32, desired: u32, n: nat, i: u32)
    requires
        n <= 32,
        i < n,
    ensures
        spec_attribute_toggles(old, desired, n).contains(GlCommand::EnableVertexAttribArray(i))
            <==> (bit_is_set(desired, i) && !bit_is_set(old, i)),
        spec_attribute_toggles(old, desired, n).contains(GlCommand::DisableVertexAttribArray(i))
            <==> (bit_is_set(old, i) && !bit_is_set(desired, i)),
    decreases n,
{
    let t = spec_attribute_toggles(old, desired, n);
    let rest = spec_attribute_toggles(old, desired, (n - 1) as nat);
    let last = (n - 1) as u32;
    let tail = if bit_is_set(old, last) == bit_is_set(desired, last) {
        Seq::<GlCommand>::empty()
    } else if bit_is_set(desired, last) {
        seq![GlCommand::EnableVertexAttribArray(last)]
    } else {
        seq![GlCommand::DisableVertexAttribArray(last)]
    };
    assert(t == rest + tail);
    assert forall|c: GlCommand| t.contains(c) <==> (rest.contains(c) || tail.contains(c)) by {
        if t.contains(c) {
            let j = choose|j: int| 0 <= j < t.len() && t[j] == c;
            if j < rest.len() {
                assert(rest[j] == c);
            } else {
                assert(tail[j - rest.len()] == c);
            }
        }
        if rest.contains(c) {
            let j = choose|j: int| 0 <= j < rest.len() && rest[j] == c;
            assert(t[j] == c);
        }
        if tail.contains(c) {
            let j = choose|j: int| 0 <= j < tail.len() && tail[j] == c;
            assert(t[rest.len() + j] == c);
        }
    }
    if i == last {
        lemma_toggles_below(old, desired, (n - 1) as nat, i);
        if bit_is_set(desired, i) && !bit_is_set(old, i) {
            assert(tail[0] == GlCommand::EnableVertexAttribArray(i));
        }
        if bit_is_set(old, i) && !bit_is_set(desired, i) {
            assert(tail[0] == GlCommand::DisableVertexAttribArray(i));
        }
    } else {
        lemma_attribute_toggles_exact(old, desired, (n - 1) as nat, i);
    }
}

/// When the enabled attribute arrays are those desired, updating them makes no call.
pub proof fn lemma_attribute_toggles_idle(bits: u32, n: nat)
    ensures
        spec_attribute_toggles(bits, bits, n) == Seq::<GlCommand>::empty(),
    decreases n,
{
    if n > 0 {
        lemma_attribute_toggles_idle(bits, (n - 1) as nat);
        assert(spec_attribute_toggles(bits, bits, n) =~= Seq::<GlCommand>::empty());
    }
}

} // verus!
