//! Fences of the GL ES 3.0 backend. As in GL ES 2.0 there are no GL sync objects: the device
//! counts its `glFinish` calls, and a submitted fence remembers the count at submission so that
//! it can be polled.
use crate::sync::RafxSemaphoreGles2;
use crate::types::{RafxFenceStatus, RafxResult};
use vstd::prelude::*;

verus! {

/// GL ES 3.0 semaphores record, as GL ES 2.0 ones do, whether a signal is available.
pub type RafxSemaphoreGles3 = RafxSemaphoreGles2;

/// The device's count of successful `glFinish` calls, with wrap-around.
pub struct GlFinishCounter {
    pub count: u64,
}

impl GlFinishCounter {
    pub fn new() -> (r: GlFinishCounter)
        ensures
            r.count == 0,
    {
        GlFinishCounter { count: 0 }
    }

    /// Records a `glFinish` whose outcome is `finish`: only a successful one is counted.
    pub fn gl_finish(&mut self, finish: RafxResult<()>) -> (r: RafxResult<()>)
        ensures
            r == finish,
            final(self).count == (if finish is Ok {
                old(self).count.wrapping_add(1)
            } else {
                old(self).count
            }),
    {
        if finish.is_ok() {
            self.count = self.count.wrapping_add(1);
        }
        finish
    }
}

/// What polling a fence reports, given the device's finish count: a submitted fence is complete
/// while the device's count has not passed the count it remembered at submission.
pub open spec fn spec_gles3_fence_status(
    submitted: bool,
    remembered: u64,
    device_count: u64,
) -> RafxFenceStatus {
    if !submitted {
        RafxFenceStatus::Unsubmitted
    } else if remembered >= device_count {
        RafxFenceStatus::Complete
    } else {
        RafxFenceStatus::Incomplete
    }
}

/// A fence polled with no `glFinish` counted since its submission reports completion, and a
/// poll that reported completion is followed by polls that report no submitted work, whatever
/// the device's count then is.
pub proof fn lemma_completion_is_reported_once(
    submitted: bool,
    remembered: u64,
    device_count: u64,
    later_count: u64,
)
    ensures
        spec_gles3_fence_status(true, device_count, device_count) == RafxFenceStatus::Complete,
        spec_gles3_fence_status(submitted, remembered, device_count) == RafxFenceStatus::Complete
            ==> spec_gles3_fence_status(
            submitted && spec_gles3_fence_status(submitted, remembered, device_count)
                != RafxFenceStatus::Complete,
            remembered,
            later_count,
        ) == RafxFenceStatus::Unsubmitted,
{
}

/// A fence waited on without error reports no submitted work, whatever the device's count.
pub proof fn lemma_waited_gles3_fence_is_unsubmitted(remembered: u64, device_count: u64)
    ensures
        spec_gles3_fence_status(false, remembered, device_count) == RafxFenceStatus::Unsubmitted,
{
}

pub struct RafxFenceGles3 {
    /// Set when an operation is scheduled to signal this fence, cleared when one is scheduled
    /// to consume it.
    pub submitted: bool,
    /// The device's finish count when the fence was last submitted.
    pub gl_finish_call_count: u64,
}

impl RafxFenceGles3 {
    /// Whether waiting on `fences` needs a `glFinish`: whether any of them is submitted.
    pub fn any_submitted(fences: &Vec<RafxFenceGles3>) -> (r: bool)
        ensures
            r == exists|i: int| 0 <= i < fences@.len() && (#[trigger] fences@[i]).submitted,
    {
        let mut i: usize = 0;
        while i < fences.len()
            invariant
                i <= fences@.len(),
                forall|j: int| 0 <= j < i ==> !(#[trigger] fences@[j]).submitted,
            decreases fences@.len() - i,
        {
            if fences[i].submitted {
                return true;
            }
            i = i + 1;
        }
        false
    }

    pub fn new() -> (r: RafxResult<RafxFenceGles3>)
        ensures
            r matches Ok(f) && !f.submitted && f.gl_finish_call_count == 0,
    {
        Ok(RafxFenceGles3 { submitted: false, gl_finish_call_count: 0 })
    }

    pub fn submitted(&self) -> (r: bool)
        ensures
            r == self.submitted,
    {
        self.submitted
    }

    /// Marks the fence submitted or not; on submission it remembers the device's finish count.
    pub fn set_submitted(&mut self, available: bool, device: &GlFinishCounter)
        ensures
            final(self).submitted == available,
            final(self).gl_finish_call_count == (if available {
                device.count
            } else {
                old(self).gl_finish_call_count
            }),
    {
        if available {
            self.gl_finish_call_count = device.count;
        }
        self.submitted = available;
    }

    /// Waits for the fence. A submitted fence is waited on with `glFinish`, whose outcome is
    /// `finish` and which the device counts; the fence is then no longer submitted. If
    /// `glFinish` fails, its error is returned and nothing changes.
    pub fn wait(&mut self, device: &mut GlFinishCounter, finish: RafxResult<()>) -> (r: RafxResult<
        (),
    >)
        ensures
            old(self).submitted && finish is Err ==> {
                &&& r == finish
                &&& *final(self) == *old(self)
                &&& final(device).count == old(device).count
            },
            !(old(self).submitted && finish is Err) ==> {
                &&& r is Ok
                &&& !final(self).submitted
                &&& final(self).gl_finish_call_count == old(self).gl_finish_call_count
                &&& final(device).count == (if old(self).submitted {
                    old(device).count.wrapping_add(1)
                } else {
                    old(device).count
                })
            },
    {
        if self.submitted() {
            match device.gl_finish(finish) {
                Err(e) => {
                    return Err(e);
                },
                Ok(()) => {},
            }
        }
        self.set_submitted(false, device);
        Ok(())
    }

    /// Waits for several fences: one `glFinish`, whose outcome is `finish`, covers them all
    /// when any is submitted, and then none is. Without a submitted fence nothing changes. If
    /// `glFinish` fails, its error is returned and nothing changes.
    pub fn wait_for_fences(
        device: &mut GlFinishCounter,
        fences: &mut Vec<RafxFenceGles3>,
        finish: RafxResult<()>,
    ) -> (r: RafxResult<()>)
        ensures
            final(fences)@.len() == old(fences)@.len(),
            ({
                let any = exists|i: int|
                    0 <= i < old(fences)@.len() && (#[trigger] old(fences)@[i]).submitted;
                &&& any && finish is Err ==> {
                    &&& r == finish
                    &&& final(fences)@ == old(fences)@
                    &&& final(device).count == old(device).count
                }
                &&& any && finish is Ok ==> {
                    &&& r is Ok
                    &&& final(device).count == old(device).count.wrapping_add(1)
                    &&& forall|i: int|
                        0 <= i < old(fences)@.len() ==> !(#[trigger] final(fences)@[i]).submitted
                            && final(fences)@[i].gl_finish_call_count
                            == old(fences)@[i].gl_finish_call_count
                }
                &&& !any ==> {
                    &&& r is Ok
                    &&& final(fences)@ == old(fences)@
                    &&& final(device).count == old(device).count
                }
            }),
    {
        let mut any_submitted = false;
        let mut i: usize = 0;
        while i < fences.len()
            invariant
                i <= fences@.len(),
                any_submitted == exists|j: int| 0 <= j < i && (#[trigger] fences@[j]).submitted,
            decreases fences@.len() - i,
        {
            if fences[i].submitted() {
                any_submitted = true;
            }
            i = i + 1;
        }
        if any_submitted {
            match device.gl_finish(finish) {
                Err(e) => {
                    return Err(e);
                },
                Ok(()) => {},
            }
            let ghost before = fences@;
            let mut k: usize = 0;
            while k < fences.len()
                invariant
                    k <= fences@.len(),
                    fences@.len() == before.len(),
                    forall|j: int|
                        0 <= j < k ==> !(#[trigger] fences@[j]).submitted
                            && fences@[j].gl_finish_call_count == before[j].gl_finish_call_count,
                    forall|j: int| k <= j < fences@.len() ==> #[trigger] fences@[j] == before[j],
                decreases fences@.len() - k,
            {
                let remembered = fences[k].gl_finish_call_count;
                fences.set(k, RafxFenceGles3 { submitted: false, gl_finish_call_count: remembered });
                k = k + 1;
            }
        }
        Ok(())
    }

    /// Polls the fence against the device's finish count. A poll that reports completion also
    /// clears the submission.
    pub fn get_fence_status(&mut self, device: &GlFinishCounter) -> (r: RafxResult<
        RafxFenceStatus,
    >)
        ensures
            r == Ok::<RafxFenceStatus, crate::types::RafxError>(
                spec_gles3_fence_status(
                    old(self).submitted,
                    old(self).gl_finish_call_count,
                    device.count,
                ),
            ),
            final(self).gl_finish_call_count == old(self).gl_finish_call_count,
            final(self).submitted == (old(self).submitted && spec_gles3_fence_status(
                old(self).submitted,
                old(self).gl_finish_call_count,
                device.count,
            ) != RafxFenceStatus::Complete),
    {
        if !self.submitted() {
            Ok(RafxFenceStatus::Unsubmitted)
        } else {
            if self.gl_finish_call_count >= device.count {
                self.set_submitted(false, device);
                Ok(RafxFenceStatus::Complete)
            } else {
                Ok(RafxFenceStatus::Incomplete)
            }
        }
    }
}

} // verus!
