//! Buffers of the GL ES 3.0 backend: vertex, index and uniform buffers are GL buffer objects,
//! with a CPU copy unless they are GPU-only; other buffers live only in CPU memory.
use crate::buffer::{
    flush_commands, round_size_up_to_alignment_u64, spec_flush_commands,
    spec_round_size_up_to_alignment, spec_write_bytes, write_bytes, zeroes, RafxBufferDef,
};
use crate::conversions::spec_gles2_usage;
use crate::gl_command::GlCommand;
use crate::gl_context::BufferId;
use crate::gles20::{self, GLenum};
use crate::types::{RafxMemoryUsage, RafxResourceType, RafxResult};
use vstd::prelude::*;

verus! {

/// The GL ES 3.0 target of uniform buffer objects.
pub const UNIFORM_BUFFER: GLenum = 0x8A11;

/// Vertex, index and uniform buffers are GL buffer objects.
pub open spec fn spec_gles3_has_gl_buffer(def: RafxBufferDef) -> bool {
    def.resource_type.spec_intersects(
        RafxResourceType::INDEX_BUFFER | RafxResourceType::VERTEX_BUFFER
            | RafxResourceType::UNIFORM_BUFFER,
    )
}

/// The target a buffer object is bound to: uniform before index before vertex.
pub open spec fn spec_gles3_target(def: RafxBufferDef) -> GLenum {
    if def.resource_type.spec_contains(RafxResourceType::UNIFORM_BUFFER) {
        UNIFORM_BUFFER
    } else if def.resource_type.spec_contains(RafxResourceType::INDEX_BUFFER) {
        gles20::ELEMENT_ARRAY_BUFFER
    } else {
        gles20::ARRAY_BUFFER
    }
}

/// The bytes allocated for a buffer: uniform buffers are padded to the uniform buffer offset
/// alignment.
pub open spec fn spec_gles3_allocation_size(def: RafxBufferDef, alignment: u32) -> int {
    if def.resource_type.spec_contains(RafxResourceType::UNIFORM_BUFFER) {
        spec_round_size_up_to_alignment(def.size as int, alignment as int)
    } else {
        def.size as int
    }
}

/// Whether a buffer keeps a CPU copy: all but GPU-only buffer objects do.
pub open spec fn spec_gles3_has_contents(def: RafxBufferDef) -> bool {
    !spec_gles3_has_gl_buffer(def) || def.memory_usage != RafxMemoryUsage::GpuOnly
}

/// Closing a mapping undoes opening it: the count of open mappings comes back to where it was,
/// also across wrap-around.
pub proof fn lemma_unmap_undoes_map(mapped_count: u32)
    ensures
        mapped_count.wrapping_add(1).wrapping_sub(1) == mapped_count,
{
    if mapped_count == u32::MAX {
        assert(mapped_count.wrapping_add(1) == 0);
    } else {
        assert(mapped_count.wrapping_add(1) == mapped_count + 1);
    }
}

/// A buffer of the GL ES 3.0 backend.
pub struct RafxBufferGles3 {
    pub buffer_def: RafxBufferDef,
    /// Vertex, index and uniform buffers have one.
    pub buffer_id: Option<BufferId>,
    /// The CPU copy of the buffer's contents, `allocation_size` bytes long.
    pub buffer_contents: Option<Vec<u8>>,
    pub allocation_size: u64,
    /// `gles20::NONE` for buffers without a GL buffer object.
    pub target: GLenum,
    /// How many mappings of the CPU copy are open; counted with wrap-around.
    pub mapped_count: u32,
}

impl RafxBufferGles3 {
    /// A buffer object has a name and a target; the CPU copy holds the allocated bytes.
    pub open spec fn wf(&self) -> bool {
        &&& (self.target != gles20::NONE <==> self.buffer_id is Some)
        &&& self.buffer_contents matches Some(c) ==> c@.len() == self.allocation_size
    }

    /// Makes a buffer. A vertex, index or uniform buffer uses the GL buffer object `buffer_id`
    /// made for it: the returned calls allocate its storage for the memory usage, and it keeps a
    /// zeroed CPU copy unless it is GPU-only. Any other buffer is a zeroed CPU copy only, and
    /// CPU-only. A buffer cannot be both a vertex and an index buffer.
    pub fn new(
        buffer_def: &RafxBufferDef,
        min_uniform_buffer_offset_alignment: u32,
        buffer_id: Option<BufferId>,
    ) -> (r: (RafxBufferGles3, Vec<GlCommand>))
        requires
            !buffer_def.resource_type.spec_contains(
                RafxResourceType::VERTEX_BUFFER | RafxResourceType::INDEX_BUFFER,
            ),
            spec_gles3_has_gl_buffer(*buffer_def) <==> buffer_id is Some,
            spec_gles3_has_gl_buffer(*buffer_def) ==> spec_gles2_usage(buffer_def.memory_usage) is Some,
            buffer_def.resource_type.spec_contains(RafxResourceType::UNIFORM_BUFFER) ==> {
                &&& min_uniform_buffer_offset_alignment > 0
                &&& buffer_def.size + min_uniform_buffer_offset_alignment <= u64::MAX
            },
            spec_gles3_has_contents(*buffer_def) ==> spec_gles3_allocation_size(
                *buffer_def,
                min_uniform_buffer_offset_alignment,
            ) <= usize::MAX,
        ensures
            r.0.wf(),
            r.0.mapped_count == 0,
            r.0.allocation_size == spec_gles3_allocation_size(
                *buffer_def,
                min_uniform_buffer_offset_alignment,
            ),
            r.0.buffer_id == buffer_id,
            r.0.buffer_contents is Some == spec_gles3_has_contents(*buffer_def),
            r.0.buffer_contents matches Some(c) ==> c@ == Seq::new(
                r.0.allocation_size as nat,
                |i: int| 0u8,
            ),
            spec_gles3_has_gl_buffer(*buffer_def) ==> {
                let target = spec_gles3_target(*buffer_def);
                let usage = spec_gles2_usage(buffer_def.memory_usage)->Some_0;
                &&& r.0.buffer_def == *buffer_def
                &&& r.0.target == target
                &&& r.1@ == seq![GlCommand::BindBuffer { target, buffer: buffer_id->Some_0 }] + (
                if usage != gles20::NONE {
                    seq![GlCommand::BufferData { target, size: r.0.allocation_size, usage }]
                } else {
                    Seq::empty()
                }) + seq![
                    GlCommand::BindBuffer { target, buffer: BufferId(gles20::NONE) },
                ]
            },
            !spec_gles3_has_gl_buffer(*buffer_def) ==> {
                &&& r.0.buffer_def == (RafxBufferDef {
                    memory_usage: RafxMemoryUsage::CpuOnly,
                    ..*buffer_def
                })
                &&& r.0.target == gles20::NONE
                &&& r.1@ == Seq::<GlCommand>::empty()
            },
    {
        let mut buffer_def = *buffer_def;
        let mut commands: Vec<GlCommand> = Vec::new();
        let mut allocation_size = buffer_def.size;
        if buffer_def.resource_type.intersects(
            RafxResourceType::INDEX_BUFFER | RafxResourceType::VERTEX_BUFFER
                | RafxResourceType::UNIFORM_BUFFER,
        ) {
            let target = if buffer_def.resource_type.contains(RafxResourceType::UNIFORM_BUFFER) {
                allocation_size = round_size_up_to_alignment_u64(
                    allocation_size,
                    min_uniform_buffer_offset_alignment as u64,
                );
                UNIFORM_BUFFER
            } else if buffer_def.resource_type.contains(RafxResourceType::INDEX_BUFFER) {
                gles20::ELEMENT_ARRAY_BUFFER
            } else {
                gles20::ARRAY_BUFFER
            };
            let id = match buffer_id {
                Some(id) => id,
                None => BufferId(gles20::NONE),
            };
            commands.push(GlCommand::BindBuffer { target, buffer: id });
            let usage = match buffer_def.memory_usage.gles2_usage() {
                Some(u) => u,
                None => gles20::NONE,
            };
            if usage != gles20::NONE {
                commands.push(GlCommand::BufferData { target, size: allocation_size, usage });
            }
            commands.push(GlCommand::BindBuffer { target, buffer: BufferId(gles20::NONE) });
            let buffer_contents = if buffer_def.memory_usage != RafxMemoryUsage::GpuOnly {
                Some(zeroes(allocation_size as usize))
            } else {
                None
            };
            proof {
                let usage_s = spec_gles2_usage(buffer_def.memory_usage)->Some_0;
                assert(commands@ =~= seq![GlCommand::BindBuffer { target, buffer: id }] + (
                if usage_s != gles20::NONE {
                    seq![GlCommand::BufferData { target, size: allocation_size, usage: usage_s }]
                } else {
                    Seq::empty()
                }) + seq![GlCommand::BindBuffer { target, buffer: BufferId(gles20::NONE) }]);
            }
            (
                RafxBufferGles3 {
                    buffer_def,
                    buffer_id,
                    buffer_contents,
                    allocation_size,
                    target,
                    mapped_count: 0,
                },
                commands,
            )
        } else {
            let bits = buffer_def.resource_type.0;
            assert(bits & 128u32 != 128u32) by (bit_vector)
                requires
                    bits & (1024u32 | 512u32 | 128u32) == 0,
            ;
            buffer_def.memory_usage = RafxMemoryUsage::CpuOnly;
            let buffer_contents = Some(zeroes(allocation_size as usize));
            (
                RafxBufferGles3 {
                    buffer_def,
                    buffer_id: None,
                    buffer_contents,
                    allocation_size,
                    target: gles20::NONE,
                    mapped_count: 0,
                },
                commands,
            )
        }
    }

    pub fn buffer_def(&self) -> (r: &RafxBufferDef)
        ensures
            *r == self.buffer_def,
    {
        &self.buffer_def
    }

    pub fn gl_buffer_id(&self) -> (r: Option<BufferId>)
        ensures
            r == self.buffer_id,
    {
        self.buffer_id
    }

    pub fn gl_target(&self) -> (r: GLenum)
        ensures
            r == self.target,
    {
        self.target
    }

    /// Opens a mapping of the CPU copy and hands it out for writing. GPU-only buffers have none.
    /// The copy keeps its length.
    pub fn map_buffer(&mut self) -> (r: &mut Vec<u8>)
        requires
            old(self).buffer_def.memory_usage != RafxMemoryUsage::GpuOnly,
            old(self).buffer_contents is Some,
        ensures
            *r == old(self).buffer_contents->Some_0,
            final(self).buffer_contents == Some(*final(r)),
            final(self).mapped_count == old(self).mapped_count.wrapping_add(1),
            final(self).buffer_def == old(self).buffer_def,
            final(self).buffer_id == old(self).buffer_id,
            final(self).target == old(self).target,
            final(self).allocation_size == old(self).allocation_size,
    {
        self.mapped_count = self.mapped_count.wrapping_add(1);
        match &mut self.buffer_contents {
            Some(c) => c,
            None => vstd::pervasive::unreached(),
        }
    }

    /// The calls that close a mapping: the whole CPU copy is uploaded to the GL buffer object,
    /// if the buffer has one. `finish_unmap_buffer` records the close once GL has taken them.
    pub fn unmap_buffer(&self) -> (r: RafxResult<Vec<GlCommand>>)
        requires
            self.wf(),
            self.target != gles20::NONE ==> self.buffer_contents is Some,
        ensures
            r matches Ok(cmds) && cmds@ == spec_flush_commands(
                self.target,
                self.buffer_id,
                self.allocation_size,
            ),
    {
        Ok(flush_commands(self.target, self.buffer_id, self.allocation_size))
    }

    /// Records that a mapping was closed.
    pub fn finish_unmap_buffer(&mut self)
        ensures
            final(self).mapped_count == old(self).mapped_count.wrapping_sub(1),
            final(self).buffer_def == old(self).buffer_def,
            final(self).buffer_id == old(self).buffer_id,
            final(self).buffer_contents == old(self).buffer_contents,
            final(self).target == old(self).target,
            final(self).allocation_size == old(self).allocation_size,
    {
        self.mapped_count = self.mapped_count.wrapping_sub(1);
    }

    /// The CPU copy while a mapping is open.
    pub fn mapped_memory(&self) -> (r: Option<&Vec<u8>>)
        ensures
            match r {
                Some(c) => self.mapped_count > 0 && self.buffer_contents == Some(*c),
                None => self.mapped_count == 0 || self.buffer_contents is None,
            },
    {
        if self.mapped_count > 0 {
            self.buffer_contents.as_ref()
        } else {
            None
        }
    }

    /// Writes `data` into the CPU copy from `buffer_byte_offset` on, through a mapping that is
    /// then closed: the returned calls upload the copy, and `finish_unmap_buffer` records the
    /// close once GL has taken them.
    pub fn copy_to_host_visible_buffer_with_offset(
        &mut self,
        data: &[u8],
        buffer_byte_offset: u64,
    ) -> (r: RafxResult<Vec<GlCommand>>)
        requires
            old(self).wf(),
            buffer_byte_offset + data@.len() <= old(self).allocation_size,
            old(self).buffer_def.memory_usage != RafxMemoryUsage::GpuOnly,
            old(self).buffer_contents is Some,
        ensures
            final(self).wf(),
            final(self).buffer_contents matches Some(c) && c@ == spec_write_bytes(
                old(self).buffer_contents->Some_0@,
                buffer_byte_offset as int,
                data@,
            ),
            final(self).mapped_count == old(self).mapped_count.wrapping_add(1),
            final(self).buffer_def == old(self).buffer_def,
            final(self).buffer_id == old(self).buffer_id,
            final(self).target == old(self).target,
            final(self).allocation_size == old(self).allocation_size,
            r matches Ok(cmds) && cmds@ == spec_flush_commands(
                old(self).target,
                old(self).buffer_id,
                old(self).allocation_size,
            ),
    {
        let contents = self.map_buffer();
        let n = contents.len();
        assert(buffer_byte_offset <= n);
        write_bytes(contents, buffer_byte_offset as usize, data);
        self.unmap_buffer()
    }

    pub fn copy_to_host_visible_buffer(&mut self, data: &[u8]) -> (r: RafxResult<Vec<GlCommand>>)
        requires
            old(self).wf(),
            data@.len() <= old(self).allocation_size,
            old(self).buffer_def.memory_usage != RafxMemoryUsage::GpuOnly,
            old(self).buffer_contents is Some,
        ensures
            final(self).wf(),
            final(self).buffer_contents matches Some(c) && c@ == spec_write_bytes(
                old(self).buffer_contents->Some_0@,
                0,
                data@,
            ),
            final(self).mapped_count == old(self).mapped_count.wrapping_add(1),
            final(self).buffer_def == old(self).buffer_def,
            final(self).buffer_id == old(self).buffer_id,
            final(self).target == old(self).target,
            final(self).allocation_size == old(self).allocation_size,
            r matches Ok(cmds) && cmds@ == spec_flush_commands(
                old(self).target,
                old(self).buffer_id,
                old(self).allocation_size,
            ),
    {
        self.copy_to_host_visible_buffer_with_offset(data, 0)
    }
}

} // verus!
