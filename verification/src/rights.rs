//! The rights that come with having something to oneself.
//!
//! Each is made from exclusive access to what it is about, so a function that merely shares it
//! cannot come by one. None can be copied, and the step that it permits uses it up.
use std::sync::Arc;

use vstd::prelude::*;

use crate::access::ExternalTextureAccess;
use crate::stage::SampleStage;
use crate::submission::ExternalTextureSampleSubmission;
use crate::write_hold::WriteHold;

verus! {

/// The right to complete a sample that nobody else holds any more.
pub struct LastHolder {
    alone: bool,
}

impl LastHolder {
    /// The right of who has the stage to themselves.
    pub(crate) fn of(stage: &mut SampleStage) -> (right: Self)
        ensures
            *final(stage) == *old(stage),
        opens_invariants none
        no_unwind
    {
        LastHolder { alone: true }
    }
}

/// The right to complete a sample whose submission ends.
pub struct ClaimSpent {
    ended: bool,
}

impl ClaimSpent {
    /// The right of who ends the submission.
    pub(crate) fn of(submission: &mut ExternalTextureSampleSubmission) -> (right: Self)
        ensures
            *final(submission) == *old(submission),
        opens_invariants none
        no_unwind
    {
        ClaimSpent { ended: true }
    }
}

/// The right to release a write whose hold was active and has ended.
pub struct EndedHold {
    access: Ghost<Arc<ExternalTextureAccess>>,
}

impl EndedHold {
    /// The access word in which the write is reserved.
    pub closed spec fn access(&self) -> Arc<ExternalTextureAccess> {
        self.access@
    }

    /// Ends an active hold.
    pub(crate) fn of(hold: &mut WriteHold) -> (right: Self)
        requires
            old(hold).is_active(),
        ensures
            !final(hold).is_active(),
            final(hold).access() == old(hold).access(),
            right.access() == old(hold).access(),
        opens_invariants none
        no_unwind
    {
        hold.deactivate();
        EndedHold { access: Ghost(hold.access()) }
    }
}

} // verus!
