//! One counted sample, shared by its reservation, the clones of that and its submission.
use std::sync::Arc;

use vstd::prelude::*;

#[allow(unused_imports)]
use crate::access::AccessStep;
use crate::access::ExternalTextureAccess;
use crate::rights::LastHolder;
#[allow(unused_imports)]
use crate::stage::SampleStep;
use crate::stage::{CompletionRight, SampleStage};

verus! {

/// The part of a sample reservation that its clones and its submission share.
pub struct ExternalTextureSampleReservationInner {
    access: Arc<ExternalTextureAccess>,
    stage: SampleStage,
}

impl ExternalTextureSampleReservationInner {
    /// The stage of this sample.
    pub closed spec fn stage(&self) -> SampleStage {
        self.stage
    }

    /// The access word that counts this sample.
    pub closed spec fn access(&self) -> Arc<ExternalTextureAccess> {
        self.access
    }

    /// Whether this sample has been completed, and given back if it was not complete before.
    pub open spec fn completed(&self) -> bool {
        ||| self.stage().completes(false)
        ||| self.stage().completes(true) && self.access().decides(AccessStep::ReleaseSample, true)
    }

    /// A sample in `stage` that was admitted where the word of `access` was `found`.
    pub(crate) fn counted(
        access: Arc<ExternalTextureAccess>,
        stage: SampleStage,
        found: u64,
    ) -> (sample: Self)
        requires
            access.answers(AccessStep::ReserveSample, Ok(found)),
        ensures
            sample.access() == access,
            sample.stage() == stage,
        opens_invariants none
        no_unwind
    {
        ExternalTextureSampleReservationInner { access, stage }
    }

    /// Returns the access word that counts this sample.
    pub(crate) fn counted_by(&self) -> (access: &Arc<ExternalTextureAccess>)
        ensures
            *access == self.access(),
        opens_invariants none
        no_unwind
    {
        &self.access
    }

    /// Claims the sample, and returns whether it was pending.
    pub(crate) fn claim(&self) -> (claimed: bool)
        ensures
            self.stage().decides(SampleStep::Claim, claimed),
        opens_invariants none
        no_unwind
    {
        self.stage.claim()
    }

    /// Looks at the stage of the sample.
    pub(crate) fn look(&self) -> (stage: u8)
        ensures
            self.stage().reads(stage),
        opens_invariants none
        no_unwind
    {
        self.stage.load()
    }

    /// Completes the sample, and gives it back exactly if it was not complete before: a release
    /// takes what only a first completion yields.
    pub(crate) fn complete(&self, right: CompletionRight)
        ensures
            self.completed(),
        opens_invariants none
        no_unwind
    {
        match self.stage.complete(right) {
            Some(owed) => {
                self.access.release_sample(self, owed);
            },
            None => {},
        }
    }
}

impl Drop for ExternalTextureSampleReservationInner {
    /// Gives the sample back, unless its submission has.
    fn drop(&mut self)
        ensures
            old(self).completed(),
        opens_invariants none
        no_unwind
    {
        let last = LastHolder::of(&mut self.stage);
        self.complete(CompletionRight::Last(last));
    }
}

} // verus!
