//! Device contexts: what a GL device reports of itself, what it can make, and its count of
//! `glFinish` calls. The GL context itself stays with the caller.
use crate::sync_gles3::{GlFinishCounter, RafxFenceGles3, RafxSemaphoreGles3};
use crate::texture::RafxSampleCount;
use crate::types::RafxResult;
use vstd::prelude::*;

verus! {

/// The limits and features of a device that resources are sized and checked by.
#[derive(Copy, Clone, Debug, PartialEq, Eq, Structural)]
pub struct RafxDeviceInfo {
    pub supports_multithreaded_usage: bool,
    pub min_uniform_buffer_offset_alignment: u32,
    pub min_storage_buffer_offset_alignment: u32,
    pub upload_buffer_texture_alignment: u32,
    pub upload_buffer_texture_row_alignment: u32,
    pub supports_clamp_to_border_color: bool,
    pub max_vertex_attribute_count: u32,
}

/// GL images are single-sampled: the one sample count supported is one sample, if it is a
/// candidate.
pub open spec fn spec_supported_sample_count(candidates: Seq<RafxSampleCount>) -> Option<
    RafxSampleCount,
> {
    if candidates.contains(RafxSampleCount::SampleCount1) {
        Some(RafxSampleCount::SampleCount1)
    } else {
        None
    }
}

fn supported_sample_count(candidates: &[RafxSampleCount]) -> (r: Option<RafxSampleCount>)
    ensures
        r == spec_supported_sample_count(candidates@),
{
    let mut i: usize = 0;
    while i < candidates.len()
        invariant
            i <= candidates@.len(),
            forall|j: int| 0 <= j < i ==> candidates@[j] != RafxSampleCount::SampleCount1,
        decreases candidates@.len() - i,
    {
        if candidates[i] == RafxSampleCount::SampleCount1 {
            assert(candidates@[i as int] == RafxSampleCount::SampleCount1);
            return Some(RafxSampleCount::SampleCount1);
        }
        i = i + 1;
    }
    None
}

/// The device context of the GL backend.
pub struct RafxDeviceContextGl {
    pub device_info: RafxDeviceInfo,
}

impl RafxDeviceContextGl {
    /// A device described by GL's pack alignment and vertex attribute count: every alignment is
    /// the pack alignment, and border colors are not supported.
    pub fn new(pack_alignment: u32, max_vertex_attribute_count: u32) -> (r: RafxDeviceContextGl)
        ensures
            r.device_info == (RafxDeviceInfo {
                supports_multithreaded_usage: false,
                min_uniform_buffer_offset_alignment: pack_alignment,
                min_storage_buffer_offset_alignment: pack_alignment,
                upload_buffer_texture_alignment: pack_alignment,
                upload_buffer_texture_row_alignment: pack_alignment,
                supports_clamp_to_border_color: false,
                max_vertex_attribute_count,
            }),
    {
        RafxDeviceContextGl {
            device_info: RafxDeviceInfo {
                supports_multithreaded_usage: false,
                min_uniform_buffer_offset_alignment: pack_alignment,
                min_storage_buffer_offset_alignment: pack_alignment,
                upload_buffer_texture_alignment: pack_alignment,
                upload_buffer_texture_row_alignment: pack_alignment,
                supports_clamp_to_border_color: false,
                max_vertex_attribute_count,
            },
        }
    }

    pub fn device_info(&self) -> (r: &RafxDeviceInfo)
        ensures
            *r == self.device_info,
    {
        &self.device_info
    }

    pub fn find_supported_sample_count(&self, candidates: &[RafxSampleCount]) -> (r: Option<
        RafxSampleCount,
    >)
        ensures
            r == spec_supported_sample_count(candidates@),
    {
        supported_sample_count(candidates)
    }
}

/// The device context of the GL ES 3.0 backend.
pub struct RafxDeviceContextGles3 {
    pub device_info: RafxDeviceInfo,
    /// Whether programs are validated after linking.
    pub validate_shaders: bool,
    pub gl_finish_call_count: GlFinishCounter,
}

impl RafxDeviceContextGles3 {
    /// A device described by what GL reports: uniform buffers are aligned as GL reports for
    /// uniform buffer offsets, the other alignments are the pack alignment, and neither
    /// multithreaded use nor border colors (GL ES 3.2) are supported. No `glFinish` was counted.
    pub fn new(
        pack_alignment: u32,
        max_vertex_attribute_count: u32,
        min_uniform_buffer_offset_alignment: u32,
        validate_shaders: bool,
    ) -> (r: RafxDeviceContextGles3)
        ensures
            r.device_info == (RafxDeviceInfo {
                supports_multithreaded_usage: false,
                min_uniform_buffer_offset_alignment,
                min_storage_buffer_offset_alignment: pack_alignment,
                upload_buffer_texture_alignment: pack_alignment,
                upload_buffer_texture_row_alignment: pack_alignment,
                supports_clamp_to_border_color: false,
                max_vertex_attribute_count,
            }),
            r.validate_shaders == validate_shaders,
            r.gl_finish_call_count.count == 0,
    {
        RafxDeviceContextGles3 {
            device_info: RafxDeviceInfo {
                supports_multithreaded_usage: false,
                min_uniform_buffer_offset_alignment,
                min_storage_buffer_offset_alignment: pack_alignment,
                upload_buffer_texture_alignment: pack_alignment,
                upload_buffer_texture_row_alignment: pack_alignment,
                supports_clamp_to_border_color: false,
                max_vertex_attribute_count,
            },
            validate_shaders,
            gl_finish_call_count: GlFinishCounter::new(),
        }
    }

    pub fn device_info(&self) -> (r: &RafxDeviceInfo)
        ensures
            *r == self.device_info,
    {
        &self.device_info
    }

    /// Records a `glFinish` whose outcome is `finish`: only a successful one is counted.
    pub fn gl_finish(&mut self, finish: RafxResult<()>) -> (r: RafxResult<()>)
        ensures
            r == finish,
            final(self).device_info == old(self).device_info,
            final(self).validate_shaders == old(self).validate_shaders,
            final(self).gl_finish_call_count.count == (if finish is Ok {
                old(self).gl_finish_call_count.count.wrapping_add(1)
            } else {
                old(self).gl_finish_call_count.count
            }),
    {
        self.gl_finish_call_count.gl_finish(finish)
    }

    pub fn create_fence(&self) -> (r: RafxResult<RafxFenceGles3>)
        ensures
            r matches Ok(f) && !f.submitted && f.gl_finish_call_count == 0,
    {
        RafxFenceGles3::new()
    }

    pub fn create_semaphore(&self) -> (r: RafxResult<RafxSemaphoreGles3>)
        ensures
            r matches Ok(s) && !s.signal_available,
    {
        RafxSemaphoreGles3::new()
    }

    pub fn find_supported_sample_count(&self, candidates: &[RafxSampleCount]) -> (r: Option<
        RafxSampleCount,
    >)
        ensures
            r == spec_supported_sample_count(candidates@),
    {
        supported_sample_count(candidates)
    }
}

#[derive(Copy, Clone, Debug, PartialEq, Eq, Structural)]
pub enum RafxQueueType {
    Graphics,
    Compute,
    Transfer,
}

/// A queue of the GL backend: GL has one stream of work, so a queue is its type and an id.
pub struct RafxQueueGl {
    pub queue_type: RafxQueueType,
    pub queue_id: u32,
}

impl RafxQueueGl {
    /// A queue of the given type, with the id handed out for it.
    pub fn new(queue_type: RafxQueueType, queue_id: u32) -> (r: RafxResult<RafxQueueGl>)
        ensures
            r matches Ok(q) && q.queue_type == queue_type && q.queue_id == queue_id,
    {
        Ok(RafxQueueGl { queue_type, queue_id })
    }

    pub fn queue_id(&self) -> (r: u32)
        ensures
            r == self.queue_id,
    {
        self.queue_id
    }

    pub fn queue_type(&self) -> (r: RafxQueueType)
        ensures
            r == self.queue_type,
    {
        self.queue_type
    }
}

} // verus!
