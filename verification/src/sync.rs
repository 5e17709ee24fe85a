//! Fences and semaphores. GL ES 2.0 has neither: a fence records whether work that signals it
//! was submitted, and waiting on it is a `glFinish`; a semaphore records whether a signal is
//! available.
use crate::types::{RafxFenceStatus, RafxResult};
use vstd::prelude::*;

verus! {

/// The status of a fence: work that signals it is in flight, or none was submitted.
pub open spec fn spec_fence_status(submitted: bool) -> RafxFenceStatus {
    if submitted {
        RafxFenceStatus::Incomplete
    } else {
        RafxFenceStatus::Unsubmitted
    }
}

/// What waiting on a fence returns and whether it is submitted after: a submitted fence stays
/// submitted only if `glFinish` failed.
pub open spec fn spec_wait(submitted: bool, finish: RafxResult<()>) -> (RafxResult<()>, bool) {
    if submitted && finish is Err {
        (finish, true)
    } else {
        (Ok(()), false)
    }
}

/// A fence that was waited on without error reports no submitted work.
pub proof fn lemma_waited_fence_is_unsubmitted(submitted: bool, finish: RafxResult<()>)
    requires
        spec_wait(submitted, finish).0 is Ok,
    ensures
        spec_fence_status(spec_wait(submitted, finish).1) == RafxFenceStatus::Unsubmitted,
{
}

pub struct RafxFenceGles2 {
    /// Set when an operation is scheduled to signal this fence, cleared when one is scheduled
    /// to consume it.
    pub submitted: bool,
}

impl RafxFenceGles2 {
    /// Whether waiting on `fences` needs a `glFinish`: whether any of them is submitted.
    pub fn any_submitted(fences: &Vec<RafxFenceGles2>) -> (r: bool)
        ensures
            r == exists|i: int| 0 <= i < fences@.len() && (#[trigger] fences@[i]).submitted,
    {
        let mut i: usize = 0;
        while i < fences.len()
            invariant
                i <= fences@.len(),
                forall|j: int| 0 <= j < i ==> !(#[trigger] fences@[j]).submitted,
            decreases fences@.len() - i,
        {
            if fences[i].submitted {
                return true;
            }
            i = i + 1;
        }
        false
    }

    pub fn new() -> (r: RafxResult<RafxFenceGles2>)
        ensures
            r matches Ok(f) && !f.submitted,
    {
        Ok(RafxFenceGles2 { submitted: false })
    }

    pub fn submitted(&self) -> (r: bool)
        ensures
            r == self.submitted,
    {
        self.submitted
    }

    pub fn set_submitted(&mut self, available: bool)
        ensures
            final(self).submitted == available,
    {
        self.submitted = available;
    }

    /// Waits for the fence. A submitted fence is waited on with `glFinish`, whose outcome is
    /// `finish`; the fence is then no longer submitted. If `glFinish` fails, its error is
    /// returned and the fence stays submitted.
    pub fn wait(&mut self, finish: RafxResult<()>) -> (r: RafxResult<()>)
        ensures
            (r, final(self).submitted) == spec_wait(old(self).submitted, finish),
    {
        if self.submitted() {
            match finish {
                Err(e) => {
                    return Err(e);
                },
                Ok(()) => {},
            }
        }
        self.set_submitted(false);
        Ok(())
    }

    /// Waits for several fences: one `glFinish`, whose outcome is `finish`, covers them all
    /// when any is submitted, and then none is. Without a submitted fence nothing changes.
    pub fn wait_for_fences(fences: &mut Vec<RafxFenceGles2>, finish: RafxResult<()>) -> (r:
        RafxResult<()>)
        ensures
            final(fences)@.len() == old(fences)@.len(),
            ({
                let any = exists|i: int|
                    0 <= i < old(fences)@.len() && (#[trigger] old(fences)@[i]).submitted;
                &&& any && finish is Err ==> r == finish && forall|i: int|
                    0 <= i < old(fences)@.len() ==> (#[trigger] final(fences)@[i]).submitted
                        == old(fences)@[i].submitted
                &&& any && finish is Ok ==> r is Ok && forall|i: int|
                    0 <= i < old(fences)@.len() ==> !(#[trigger] final(fences)@[i]).submitted
                &&& !any ==> r is Ok && forall|i: int|
                    0 <= i < old(fences)@.len() ==> (#[trigger] final(fences)@[i]).submitted
                        == old(fences)@[i].submitted
            }),
    {
        let mut finish_called = false;
        let mut i: usize = 0;
        while i < fences.len()
            invariant
                i <= fences@.len(),
                finish_called == exists|j: int| 0 <= j < i && (#[trigger] fences@[j]).submitted,
            decreases fences@.len() - i,
        {
            if fences[i].submitted() {
                finish_called = true;
            }
            i = i + 1;
        }
        if finish_called {
            match finish {
                Err(e) => {
                    return Err(e);
                },
                Ok(()) => {},
            }
            let ghost before = fences@;
            let mut k: usize = 0;
            while k < fences.len()
                invariant
                    k <= fences@.len(),
                    fences@.len() == before.len(),
                    forall|j: int| 0 <= j < k ==> !(#[trigger] fences@[j]).submitted,
                decreases fences@.len() - k,
            {
                fences.set(k, RafxFenceGles2 { submitted: false });
                k = k + 1;
            }
        }
        Ok(())
    }

    pub fn get_fence_status(&self) -> (r: RafxResult<RafxFenceStatus>)
        ensures
            r == Ok::<RafxFenceStatus, crate::types::RafxError>(spec_fence_status(self.submitted)),
    {
        if !self.submitted() {
            Ok(RafxFenceStatus::Unsubmitted)
        } else {
            Ok(RafxFenceStatus::Incomplete)
        }
    }
}

pub struct RafxSemaphoreGles2 {
    /// Set when an operation is scheduled to signal this semaphore, cleared when one is
    /// scheduled to consume it.
    pub signal_available: bool,
}

impl RafxSemaphoreGles2 {
    pub fn new() -> (r: RafxResult<RafxSemaphoreGles2>)
        ensures
            r matches Ok(s) && !s.signal_available,
    {
        Ok(RafxSemaphoreGles2 { signal_available: false })
    }

    pub fn signal_available(&self) -> (r: bool)
        ensures
            r == self.signal_available,
    {
        self.signal_available
    }

    pub fn set_signal_available(&mut self, available: bool)
        ensures
            final(self).signal_available == available,
    {
        self.signal_available = available;
    }
}

} // verus!
