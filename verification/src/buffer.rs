//! Buffers: vertex and index buffers are GL buffer objects, with a CPU copy unless they are
//! GPU-only; other buffers (uniform buffers among them) live only in CPU memory, since GL ES 2.0
//! has no uniform buffer objects.
use crate::conversions::spec_gles2_usage;
use crate::gl_command::GlCommand;
use crate::gl_context::BufferId;
use crate::gles20::{self, GLenum};
use crate::types::{RafxMemoryUsage, RafxResourceType, RafxResult};
use vstd::prelude::*;

verus! {

/// What a buffer is made from.
#[derive(Copy, Clone, Debug, PartialEq, Eq, Structural)]
pub struct RafxBufferDef {
    pub size: u64,
    pub memory_usage: RafxMemoryUsage,
    pub resource_type: RafxResourceType,
}

/// `size` rounded up to a multiple of `required_alignment`.
pub open spec fn spec_round_size_up_to_alignment(size: int, required_alignment: int) -> int {
    ((size + required_alignment - 1) / required_alignment) * required_alignment
}

pub fn round_size_up_to_alignment_u64(size: u64, required_alignment: u64) -> (r: u64)
    requires
        required_alignment > 0,
        size + required_alignment <= u64::MAX,
    ensures
        r == spec_round_size_up_to_alignment(size as int, required_alignment as int),
{
    proof {
        let q = ((size + required_alignment - 1) / required_alignment as int);
        assert(q * required_alignment <= size + required_alignment - 1) by (nonlinear_arith)
            requires
                q == (size + required_alignment - 1) / required_alignment as int,
                required_alignment > 0,
                size + required_alignment - 1 >= 0,
        ;
    }
    ((size + required_alignment - 1) / required_alignment) * required_alignment
}

/// Rounding up gives the least multiple of the alignment that is at least the size.
pub proof fn lemma_round_up_is_least_multiple(size: int, required_alignment: int)
    requires
        size >= 0,
        required_alignment > 0,
    ensures
        ({
            let r = spec_round_size_up_to_alignment(size, required_alignment);
            &&& r % required_alignment == 0
            &&& size <= r < size + required_alignment
        }),
{
    let q = (size + required_alignment - 1) / required_alignment;
    let m = (size + required_alignment - 1) % required_alignment;
    assert(size + required_alignment - 1 == q * required_alignment + m) by (nonlinear_arith)
        requires
            q == (size + required_alignment - 1) / required_alignment,
            m == (size + required_alignment - 1) % required_alignment,
            required_alignment > 0,
    ;
    assert(0 <= m < required_alignment) by (nonlinear_arith)
        requires
            m == (size + required_alignment - 1) % required_alignment,
            required_alignment > 0,
    ;
    assert((q * required_alignment) % required_alignment == 0) by (nonlinear_arith)
        requires
            required_alignment > 0,
    ;
}

/// A buffer of the GL ES 2.0 backend.
pub struct RafxBufferGles2 {
    pub buffer_def: RafxBufferDef,
    /// Only vertex and index buffers have one.
    pub buffer_id: Option<BufferId>,
    /// The CPU copy of the buffer's contents.
    pub buffer_contents: Option<Vec<u8>>,
    /// `gles20::NONE` for buffers without a GL buffer object.
    pub target: GLenum,
    /// How many mappings of the CPU copy are open; counted with wrap-around.
    pub mapped_count: u32,
}

/// Vertex and index buffers are GL buffer objects.
pub open spec fn spec_has_gl_buffer(def: RafxBufferDef) -> bool {
    def.resource_type.spec_intersects(
        RafxResourceType::INDEX_BUFFER | RafxResourceType::VERTEX_BUFFER,
    )
}

/// The size of the CPU copy of a buffer that has no GL buffer object: uniform buffers are
/// padded to the uniform buffer offset alignment.
pub open spec fn spec_cpu_only_size(def: RafxBufferDef, min_uniform_buffer_offset_alignment: u32) -> int {
    if def.resource_type.spec_intersects(RafxResourceType::UNIFORM_BUFFER) {
        spec_round_size_up_to_alignment(def.size as int, min_uniform_buffer_offset_alignment as int)
    } else {
        def.size as int
    }
}

/// What the GL context needs to make a buffer: whether the buffer has a GL buffer object.
pub fn needs_gl_buffer(buffer_def: &RafxBufferDef) -> (r: bool)
    ensures
        r == spec_has_gl_buffer(*buffer_def),
{
    buffer_def.resource_type.intersects(
        RafxResourceType::INDEX_BUFFER | RafxResourceType::VERTEX_BUFFER,
    )
}

pub(crate) fn zeroes(n: usize) -> (r: Vec<u8>)
    ensures
        r@ == Seq::new(n as nat, |i: int| 0u8),
{
    let mut r: Vec<u8> = Vec::new();
    let mut i: usize = 0;
    while i < n
        invariant
            i <= n,
            r@ == Seq::new(i as nat, |j: int| 0u8),
        decreases n - i,
    {
        r.push(0);
        i = i + 1;
        assert(r@ =~= Seq::new(i as nat, |j: int| 0u8));
    }
    r
}

impl RafxBufferGles2 {
    /// Makes a buffer. A vertex or index buffer uses the GL buffer object `buffer_id` made for
    /// it: the returned calls allocate its storage for the memory usage, and it keeps a zeroed
    /// CPU copy unless it is GPU-only. Any other buffer is a zeroed CPU copy only, CPU-only,
    /// padded to the alignment if it is a uniform buffer.
    pub fn new(
        buffer_def: &RafxBufferDef,
        min_uniform_buffer_offset_alignment: u32,
        buffer_id: Option<BufferId>,
    ) -> (r: (RafxBufferGles2, Vec<GlCommand>))
        requires
            spec_has_gl_buffer(*buffer_def) <==> buffer_id is Some,
            spec_has_gl_buffer(*buffer_def) ==> spec_gles2_usage(buffer_def.memory_usage) is Some,
            spec_has_gl_buffer(*buffer_def) && buffer_def.memory_usage != RafxMemoryUsage::GpuOnly
                ==> buffer_def.size <= usize::MAX,
            !spec_has_gl_buffer(*buffer_def) && buffer_def.resource_type.spec_intersects(
                RafxResourceType::UNIFORM_BUFFER,
            ) ==> {
                &&& min_uniform_buffer_offset_alignment > 0
                &&& buffer_def.size + min_uniform_buffer_offset_alignment <= u64::MAX
            },
            !spec_has_gl_buffer(*buffer_def) ==> spec_cpu_only_size(
                *buffer_def,
                min_uniform_buffer_offset_alignment,
            ) <= usize::MAX,
        ensures
            r.0.mapped_count == 0,
            spec_has_gl_buffer(*buffer_def) ==> {
                let target = if buffer_def.resource_type.spec_contains(
                    RafxResourceType::INDEX_BUFFER,
                ) {
                    gles20::ELEMENT_ARRAY_BUFFER
                } else {
                    gles20::ARRAY_BUFFER
                };
                let usage = spec_gles2_usage(buffer_def.memory_usage)->Some_0;
                &&& r.0.buffer_def == *buffer_def
                &&& r.0.buffer_id == buffer_id
                &&& r.0.target == target
                &&& (buffer_def.memory_usage != RafxMemoryUsage::GpuOnly) == r.0.buffer_contents is Some
                &&& r.0.buffer_contents matches Some(c) ==> c@ == Seq::new(
                    buffer_def.size as nat,
                    |i: int| 0u8,
                )
                &&& r.1@ == seq![GlCommand::BindBuffer { target, buffer: buffer_id->Some_0 }] + (
                if usage != gles20::NONE {
                    seq![GlCommand::BufferData { target, size: buffer_def.size, usage }]
                } else {
                    Seq::empty()
                }) + seq![
                    GlCommand::BindBuffer { target, buffer: BufferId(gles20::NONE) },
                ]
            },
            !spec_has_gl_buffer(*buffer_def) ==> {
                &&& r.0.buffer_def == (RafxBufferDef {
                    memory_usage: RafxMemoryUsage::CpuOnly,
                    ..*buffer_def
                })
                &&& r.0.buffer_id is None
                &&& r.0.target == gles20::NONE
                &&& r.0.buffer_contents matches Some(c) && c@ == Seq::new(
                    spec_cpu_only_size(*buffer_def, min_uniform_buffer_offset_alignment) as nat,
                    |i: int| 0u8,
                )
                &&& r.1@ == Seq::<GlCommand>::empty()
            },
    {
        let mut buffer_def = *buffer_def;
        let mut commands: Vec<GlCommand> = Vec::new();
        if needs_gl_buffer(&buffer_def) {
            let target = if buffer_def.resource_type.contains(RafxResourceType::INDEX_BUFFER) {
                gles20::ELEMENT_ARRAY_BUFFER
            } else {
                gles20::ARRAY_BUFFER
            };
            let id = match buffer_id {
                Some(id) => id,
                None => BufferId(gles20::NONE),
            };
            commands.push(GlCommand::BindBuffer { target, buffer: id });
            let usage = match buffer_def.memory_usage.gles2_usage() {
                Some(u) => u,
                None => gles20::NONE,
            };
            if usage != gles20::NONE {
                commands.push(GlCommand::BufferData { target, size: buffer_def.size, usage });
            }
            commands.push(GlCommand::BindBuffer { target, buffer: BufferId(gles20::NONE) });
            let buffer_contents = if buffer_def.memory_usage != RafxMemoryUsage::GpuOnly {
                Some(zeroes(buffer_def.size as usize))
            } else {
                None
            };
            proof {
                let usage_s = spec_gles2_usage(buffer_def.memory_usage)->Some_0;
                assert(commands@ =~= seq![GlCommand::BindBuffer { target, buffer: id }] + (
                if usage_s != gles20::NONE {
                    seq![GlCommand::BufferData { target, size: buffer_def.size, usage: usage_s }]
                } else {
                    Seq::empty()
                }) + seq![GlCommand::BindBuffer { target, buffer: BufferId(gles20::NONE) }]);
            }
            (RafxBufferGles2 { buffer_def, buffer_id, buffer_contents, target, mapped_count: 0 }, commands)
        } else {
            let mut allocation_size = buffer_def.size;
            if buffer_def.resource_type.intersects(RafxResourceType::UNIFORM_BUFFER) {
                allocation_size = round_size_up_to_alignment_u64(
                    allocation_size,
                    min_uniform_buffer_offset_alignment as u64,
                );
            }
            buffer_def.memory_usage = RafxMemoryUsage::CpuOnly;
            let buffer_contents = Some(zeroes(allocation_size as usize));
            (
                RafxBufferGles2 {
                    buffer_def,
                    buffer_id: None,
                    buffer_contents,
                    target: gles20::NONE,
                    mapped_count: 0,
                },
                commands,
            )
        }
    }

    pub fn buffer_def(&self) -> (r: &RafxBufferDef)
        ensures
            *r == self.buffer_def,
    {
        &self.buffer_def
    }

    pub fn gl_buffer_id(&self) -> (r: Option<BufferId>)
        ensures
            r == self.buffer_id,
    {
        self.buffer_id
    }

    pub fn gl_target(&self) -> (r: GLenum)
        ensures
            r == self.target,
    {
        self.target
    }
}

/// A buffer of the GL backend: laid out as a GL ES 2.0 buffer, except that the CPU copy of a
/// buffer without a GL buffer object keeps the buffer's own size. The padded size of a uniform
/// buffer is still worked out, and must fit in a `u64`, but the copy is not padded to it.
pub struct RafxBufferGl {
    pub buffer_def: RafxBufferDef,
    pub buffer_id: Option<BufferId>,
    pub buffer_contents: Option<Vec<u8>>,
    pub target: GLenum,
    pub mapped_count: u32,
}

impl RafxBufferGl {
    pub fn new(
        buffer_def: &RafxBufferDef,
        min_uniform_buffer_offset_alignment: u32,
        buffer_id: Option<BufferId>,
    ) -> (r: (RafxBufferGl, Vec<GlCommand>))
        requires
            spec_has_gl_buffer(*buffer_def) <==> buffer_id is Some,
            spec_has_gl_buffer(*buffer_def) ==> spec_gles2_usage(buffer_def.memory_usage) is Some,
            buffer_def.memory_usage != RafxMemoryUsage::GpuOnly || !spec_has_gl_buffer(
                *buffer_def,
            ) ==> buffer_def.size <= usize::MAX,
            !spec_has_gl_buffer(*buffer_def) && buffer_def.resource_type.spec_intersects(
                RafxResourceType::UNIFORM_BUFFER,
            ) ==> {
                &&& min_uniform_buffer_offset_alignment > 0
                &&& buffer_def.size + min_uniform_buffer_offset_alignment <= u64::MAX
            },
        ensures
            r.0.mapped_count == 0,
            spec_has_gl_buffer(*buffer_def) ==> {
                let target = if buffer_def.resource_type.spec_contains(
                    RafxResourceType::INDEX_BUFFER,
                ) {
                    gles20::ELEMENT_ARRAY_BUFFER
                } else {
                    gles20::ARRAY_BUFFER
                };
                let usage = spec_gles2_usage(buffer_def.memory_usage)->Some_0;
                &&& r.0.buffer_def == *buffer_def
                &&& r.0.buffer_id == buffer_id
                &&& r.0.target == target
                &&& (buffer_def.memory_usage != RafxMemoryUsage::GpuOnly) == r.0.buffer_contents is Some
                &&& r.0.buffer_contents matches Some(c) ==> c@ == Seq::new(
                    buffer_def.size as nat,
                    |i: int| 0u8,
                )
                &&& r.1@ == seq![GlCommand::BindBuffer { target, buffer: buffer_id->Some_0 }] + (
                if usage != gles20::NONE {
                    seq![GlCommand::BufferData { target, size: buffer_def.size, usage }]
                } else {
                    Seq::empty()
                }) + seq![
                    GlCommand::BindBuffer { target, buffer: BufferId(gles20::NONE) },
                ]
            },
            !spec_has_gl_buffer(*buffer_def) ==> {
                &&& r.0.buffer_def == (RafxBufferDef {
                    memory_usage: RafxMemoryUsage::CpuOnly,
                    ..*buffer_def
                })
                &&& r.0.buffer_id is None
                &&& r.0.target == gles20::NONE
                &&& r.0.buffer_contents matches Some(c) && c@ == Seq::new(
                    buffer_def.size as nat,
                    |i: int| 0u8,
                )
                &&& r.1@ == Seq::<GlCommand>::empty()
            },
    {
        if needs_gl_buffer(buffer_def) {
            let (b, commands) = RafxBufferGles2::new(
                buffer_def,
                min_uniform_buffer_offset_alignment,
                buffer_id,
            );
            (
                RafxBufferGl {
                    buffer_def: b.buffer_def,
                    buffer_id: b.buffer_id,
                    buffer_contents: b.buffer_contents,
                    target: b.target,
                    mapped_count: 0,
                },
                commands,
            )
        } else {
            if buffer_def.resource_type.intersects(RafxResourceType::UNIFORM_BUFFER) {
                let _padded_size = round_size_up_to_alignment_u64(
                    buffer_def.size,
                    min_uniform_buffer_offset_alignment as u64,
                );
            }
            let mut def = *buffer_def;
            def.memory_usage = RafxMemoryUsage::CpuOnly;
            (
                RafxBufferGl {
                    buffer_def: def,
                    buffer_id: None,
                    buffer_contents: Some(zeroes(buffer_def.size as usize)),
                    target: gles20::NONE,
                    mapped_count: 0,
                },
                Vec::new(),
            )
        }
    }

    pub fn buffer_def(&self) -> (r: &RafxBufferDef)
        ensures
            *r == self.buffer_def,
    {
        &self.buffer_def
    }

    pub fn gl_buffer_d(&self) -> (r: Option<BufferId>)
        ensures
            r == self.buffer_id,
    {
        self.buffer_id
    }
}

/// The calls that flush a buffer's CPU copy to its GL buffer object, if it has one: all `size`
/// bytes of it, uploaded on every unmap.
pub open spec fn spec_flush_commands(target: GLenum, buffer_id: Option<BufferId>, size: u64) -> Seq<
    GlCommand,
> {
    if target != gles20::NONE {
        seq![
            GlCommand::BindBuffer { target, buffer: buffer_id->Some_0 },
            GlCommand::BufferSubData { target, dst_offset: 0, src_offset: 0, size },
            GlCommand::BindBuffer { target, buffer: BufferId(gles20::NONE) },
        ]
    } else {
        Seq::empty()
    }
}

pub(crate) fn flush_commands(target: GLenum, buffer_id: Option<BufferId>, size: u64) -> (r: Vec<GlCommand>)
    requires
        target != gles20::NONE ==> buffer_id is Some,
    ensures
        r@ == spec_flush_commands(target, buffer_id, size),
{
    if target != gles20::NONE {
        let id = match buffer_id {
            Some(id) => id,
            None => BufferId(gles20::NONE),
        };
        let r = vec![
            GlCommand::BindBuffer { target, buffer: id },
            GlCommand::BufferSubData { target, dst_offset: 0, src_offset: 0, size },
            GlCommand::BindBuffer { target, buffer: BufferId(gles20::NONE) },
        ];
        assert(r@ =~= spec_flush_commands(target, buffer_id, size));
        r
    } else {
        let r = Vec::new();
        assert(r@ =~= spec_flush_commands(target, buffer_id, size));
        r
    }
}

/// The bytes with `data` written over them from `offset` on.
pub open spec fn spec_write_bytes(contents: Seq<u8>, offset: int, data: Seq<u8>) -> Seq<u8> {
    contents.take(offset) + data + contents.skip(offset + data.len())
}

/// What is copied into a buffer reads back: after a write the copy keeps its length, holds the
/// data from the offset on, and is unchanged elsewhere.
pub proof fn lemma_written_bytes_read_back(contents: Seq<u8>, offset: int, data: Seq<u8>)
    requires
        0 <= offset,
        offset + data.len() <= contents.len(),
    ensures
        spec_write_bytes(contents, offset, data).len() == contents.len(),
        forall|j: int|
            0 <= j < data.len() ==> #[trigger] spec_write_bytes(contents, offset, data)[offset + j]
                == data[j],
        forall|j: int|
            0 <= j < contents.len() && !(offset <= j < offset + data.len()) ==> #[trigger] spec_write_bytes(
                contents,
                offset,
                data,
            )[j] == contents[j],
{
    let w = spec_write_bytes(contents, offset, data);
    assert forall|j: int| 0 <= j < data.len() implies #[trigger] w[offset + j] == data[j] by {}
    assert forall|j: int|
        0 <= j < contents.len() && !(offset <= j < offset + data.len()) implies #[trigger] w[j]
            == contents[j] by {}
}

pub(crate) fn write_bytes(contents: &mut Vec<u8>, offset: usize, data: &[u8])
    requires
        offset + data@.len() <= old(contents)@.len(),
    ensures
        final(contents)@ == spec_write_bytes(old(contents)@, offset as int, data@),
{
    let ghost before = contents@;
    let n = contents.len();
    let mut i: usize = 0;
    while i < data.len()
        invariant
            i <= data@.len(),
            n == before.len(),
            offset + data@.len() <= before.len(),
            contents@.len() == before.len(),
            forall|j: int| 0 <= j < offset ==> #[trigger] contents@[j] == before[j],
            forall|j: int| 0 <= j < i ==> #[trigger] contents@[offset + j] == data@[j],
            forall|j: int| offset + i <= j < before.len() ==> #[trigger] contents@[j] == before[j],
        decreases data@.len() - i,
    {
        contents.set(offset + i, data[i]);
        i = i + 1;
    }
    assert(contents@ =~= spec_write_bytes(before, offset as int, data@)) by {
        assert forall|j: int| 0 <= j < before.len() implies #[trigger] contents@[j]
            == spec_write_bytes(before, offset as int, data@)[j] by {
            if offset <= j < offset + data@.len() {
                assert(contents@[offset + (j - offset)] == data@[j - offset]);
            }
        }
    }
}

impl RafxBufferGles2 {
    /// Opens a mapping of the CPU copy and hands it out for writing. GPU-only buffers have none.
    pub fn map_buffer(&mut self) -> (r: &mut Vec<u8>)
        requires
            old(self).buffer_def.memory_usage != RafxMemoryUsage::GpuOnly,
            old(self).buffer_contents is Some,
        ensures
            *r == old(self).buffer_contents->Some_0,
            final(self).buffer_contents == Some(*final(r)),
            final(self).mapped_count == old(self).mapped_count.wrapping_add(1),
            final(self).buffer_def == old(self).buffer_def,
            final(self).buffer_id == old(self).buffer_id,
            final(self).target == old(self).target,
    {
        self.mapped_count = self.mapped_count.wrapping_add(1);
        match &mut self.buffer_contents {
            Some(c) => c,
            None => vstd::pervasive::unreached(),
        }
    }

    /// The calls that close a mapping: the CPU copy is uploaded to the GL buffer object, if the
    /// buffer has one. `finish_unmap_buffer` records the close once GL has taken them.
    pub fn unmap_buffer(&self) -> (r: RafxResult<Vec<GlCommand>>)
        requires
            self.target != gles20::NONE ==> self.buffer_id is Some && self.buffer_contents is Some,
        ensures
            r matches Ok(cmds) && cmds@ == spec_flush_commands(
                self.target,
                self.buffer_id,
                self.buffer_def.size,
            ),
    {
        Ok(flush_commands(self.target, self.buffer_id, self.buffer_def.size))
    }

    /// Records that a mapping was closed.
    pub fn finish_unmap_buffer(&mut self)
        ensures
            final(self).mapped_count == old(self).mapped_count.wrapping_sub(1),
            final(self).buffer_def == old(self).buffer_def,
            final(self).buffer_id == old(self).buffer_id,
            final(self).buffer_contents == old(self).buffer_contents,
            final(self).target == old(self).target,
    {
        self.mapped_count = self.mapped_count.wrapping_sub(1);
    }

    /// The CPU copy while a mapping is open.
    pub fn mapped_memory(&self) -> (r: Option<&Vec<u8>>)
        ensures
            match r {
                Some(c) => self.mapped_count > 0 && self.buffer_contents == Some(*c),
                None => self.mapped_count == 0 || self.buffer_contents is None,
            },
    {
        if self.mapped_count > 0 {
            self.buffer_contents.as_ref()
        } else {
            None
        }
    }

    /// Writes `data` into the CPU copy from `buffer_byte_offset` on, through a mapping that is
    /// then closed: the returned calls upload the copy, and `finish_unmap_buffer` records the
    /// close once GL has taken them.
    pub fn copy_to_host_visible_buffer_with_offset(
        &mut self,
        data: &[u8],
        buffer_byte_offset: u64,
    ) -> (r: RafxResult<Vec<GlCommand>>)
        requires
            buffer_byte_offset + data@.len() <= old(self).buffer_def.size,
            old(self).buffer_def.memory_usage != RafxMemoryUsage::GpuOnly,
            old(self).buffer_contents matches Some(c) && c@.len() >= old(self).buffer_def.size,
            old(self).target != gles20::NONE ==> old(self).buffer_id is Some,
        ensures
            final(self).buffer_contents matches Some(c) && c@ == spec_write_bytes(
                old(self).buffer_contents->Some_0@,
                buffer_byte_offset as int,
                data@,
            ),
            final(self).mapped_count == old(self).mapped_count.wrapping_add(1),
            final(self).buffer_def == old(self).buffer_def,
            final(self).buffer_id == old(self).buffer_id,
            final(self).target == old(self).target,
            r matches Ok(cmds) && cmds@ == spec_flush_commands(
                old(self).target,
                old(self).buffer_id,
                old(self).buffer_def.size,
            ),
    {
        let contents = self.map_buffer();
        let n = contents.len();
        assert(buffer_byte_offset <= n);
        write_bytes(contents, buffer_byte_offset as usize, data);
        self.unmap_buffer()
    }

    pub fn copy_to_host_visible_buffer(&mut self, data: &[u8]) -> (r: RafxResult<Vec<GlCommand>>)
        requires
            data@.len() <= old(self).buffer_def.size,
            old(self).buffer_def.memory_usage != RafxMemoryUsage::GpuOnly,
            old(self).buffer_contents matches Some(c) && c@.len() >= old(self).buffer_def.size,
            old(self).target != gles20::NONE ==> old(self).buffer_id is Some,
        ensures
            final(self).buffer_contents matches Some(c) && c@ == spec_write_bytes(
                old(self).buffer_contents->Some_0@,
                0,
                data@,
            ),
            final(self).mapped_count == old(self).mapped_count.wrapping_add(1),
            final(self).buffer_def == old(self).buffer_def,
            final(self).buffer_id == old(self).buffer_id,
            final(self).target == old(self).target,
            r matches Ok(cmds) && cmds@ == spec_flush_commands(
                old(self).target,
                old(self).buffer_id,
                old(self).buffer_def.size,
            ),
    {
        self.copy_to_host_visible_buffer_with_offset(data, 0)
    }
}

impl RafxBufferGl {
    /// Opens a mapping of the CPU copy and hands it out for writing. GPU-only buffers have none.
    pub fn map_buffer(&mut self) -> (r: &mut Vec<u8>)
        requires
            old(self).buffer_def.memory_usage != RafxMemoryUsage::GpuOnly,
            old(self).buffer_contents is Some,
        ensures
            *r == old(self).buffer_contents->Some_0,
            final(self).buffer_contents == Some(*final(r)),
            final(self).mapped_count == old(self).mapped_count.wrapping_add(1),
            final(self).buffer_def == old(self).buffer_def,
            final(self).buffer_id == old(self).buffer_id,
            final(self).target == old(self).target,
    {
        self.mapped_count = self.mapped_count.wrapping_add(1);
        match &mut self.buffer_contents {
            Some(c) => c,
            None => vstd::pervasive::unreached(),
        }
    }

    /// The calls that close a mapping: the CPU copy is uploaded to the GL buffer object, if the
    /// buffer has one. `finish_unmap_buffer` records the close once GL has taken them.
    pub fn unmap_buffer(&self) -> (r: RafxResult<Vec<GlCommand>>)
        requires
            self.target != gles20::NONE ==> self.buffer_id is Some && self.buffer_contents is Some,
        ensures
            r matches Ok(cmds) && cmds@ == spec_flush_commands(
                self.target,
                self.buffer_id,
                self.buffer_def.size,
            ),
    {
        Ok(flush_commands(self.target, self.buffer_id, self.buffer_def.size))
    }

    /// Records that a mapping was closed.
    pub fn finish_unmap_buffer(&mut self)
        ensures
            final(self).mapped_count == old(self).mapped_count.wrapping_sub(1),
            final(self).buffer_def == old(self).buffer_def,
            final(self).buffer_id == old(self).buffer_id,
            final(self).buffer_contents == old(self).buffer_contents,
            final(self).target == old(self).target,
    {
        self.mapped_count = self.mapped_count.wrapping_sub(1);
    }

    /// The CPU copy while a mapping is open.
    pub fn mapped_memory(&self) -> (r: Option<&Vec<u8>>)
        ensures
            match r {
                Some(c) => self.mapped_count > 0 && self.buffer_contents == Some(*c),
                None => self.mapped_count == 0 || self.buffer_contents is None,
            },
    {
        if self.mapped_count > 0 {
            self.buffer_contents.as_ref()
        } else {
            None
        }
    }

    /// Writes `data` into the CPU copy from `buffer_byte_offset` on, through a mapping that is
    /// then closed: the returned calls upload the copy, and `finish_unmap_buffer` records the
    /// close once GL has taken them.
    pub fn copy_to_host_visible_buffer_with_offset(
        &mut self,
        data: &[u8],
        buffer_byte_offset: u64,
    ) -> (r: RafxResult<Vec<GlCommand>>)
        requires
            buffer_byte_offset + data@.len() <= old(self).buffer_def.size,
            old(self).buffer_def.memory_usage != RafxMemoryUsage::GpuOnly,
            old(self).buffer_contents matches Some(c) && c@.len() >= old(self).buffer_def.size,
            old(self).target != gles20::NONE ==> old(self).buffer_id is Some,
        ensures
            final(self).buffer_contents matches Some(c) && c@ == spec_write_bytes(
                old(self).buffer_contents->Some_0@,
                buffer_byte_offset as int,
                data@,
            ),
            final(self).mapped_count == old(self).mapped_count.wrapping_add(1),
            final(self).buffer_def == old(self).buffer_def,
            final(self).buffer_id == old(self).buffer_id,
            final(self).target == old(self).target,
            r matches Ok(cmds) && cmds@ == spec_flush_commands(
                old(self).target,
                old(self).buffer_id,
                old(self).buffer_def.size,
            ),
    {
        let contents = self.map_buffer();
        let n = contents.len();
        assert(buffer_byte_offset <= n);
        write_bytes(contents, buffer_byte_offset as usize, data);
        self.unmap_buffer()
    }

    pub fn copy_to_host_visible_buffer(&mut self, data: &[u8]) -> (r: RafxResult<Vec<GlCommand>>)
        requires
            data@.len() <= old(self).buffer_def.size,
            old(self).buffer_def.memory_usage != RafxMemoryUsage::GpuOnly,
            old(self).buffer_contents matches Some(c) && c@.len() >= old(self).buffer_def.size,
            old(self).target != gles20::NONE ==> old(self).buffer_id is Some,
        ensures
            final(self).buffer_contents matches Some(c) && c@ == spec_write_bytes(
                old(self).buffer_contents->Some_0@,
                0,
                data@,
            ),
            final(self).mapped_count == old(self).mapped_count.wrapping_add(1),
            final(self).buffer_def == old(self).buffer_def,
            final(self).buffer_id == old(self).buffer_id,
            final(self).target == old(self).target,
            r matches Ok(cmds) && cmds@ == spec_flush_commands(
                old(self).target,
                old(self).buffer_id,
                old(self).buffer_def.size,
            ),
    {
        self.copy_to_host_visible_buffer_with_offset(data, 0)
    }
}

} // verus!
