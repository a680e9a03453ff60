//! The attempts to reserve a texture: each takes one step on its access word.
use std::sync::Arc;

use vstd::prelude::*;

use crate::access::{AccessStep, ExternalTextureAccess};
use crate::handle::ExternalTextureHandle;
use crate::reservation::{ExternalTextureSampleReservation, ExternalTextureWriteReservation};
use crate::stage::{SampleStage, SAMPLE_PENDING, SAMPLE_SUBMITTED};
use crate::submission::ExternalTextureSampleSubmission;

verus! {

/// The right to one attempt to reserve. Only the functions of this module make one, it cannot be
/// copied, and the step of the attempt uses it up.
pub struct Attempt {
    write: bool,
}

impl Attempt {
    /// The step of the attempt.
    pub closed spec fn spec_step(&self) -> AccessStep {
        if self.write {
            AccessStep::ReserveWrite
        } else {
            AccessStep::ReserveSample
        }
    }

    /// Returns the step of the attempt.
    #[verifier::when_used_as_spec(spec_step)]
    pub fn step(&self) -> (step: AccessStep)
        ensures
            step == self.step(),
        opens_invariants none
        no_unwind
    {
        if self.write {
            AccessStep::ReserveWrite
        } else {
            AccessStep::ReserveSample
        }
    }
}

impl ExternalTextureAccess {
    /// Reserves one sample, exactly if the word admits one more.
    pub fn try_reserve_sample(self: &Arc<Self>) -> (reserved: Option<
        ExternalTextureSampleReservation,
    >)
        ensures
            self.decides(AccessStep::ReserveSample, reserved is Some),
            reserved matches Some(reservation) ==> {
                &&& reservation.access() == *self
                &&& reservation.starts_pending()
            },
    {
        match self.reserve_sample(SampleStage::new(SAMPLE_PENDING), Attempt { write: false }) {
            Some(sample) => Some(ExternalTextureSampleReservation::pending(sample)),
            None => None,
        }
    }

    /// Reserves one sample for a submission, exactly if the word admits one more.
    pub(crate) fn try_reserve_submission(self: &Arc<Self>) -> (reserved: Option<
        ExternalTextureSampleSubmission,
    >)
        ensures
            self.decides(AccessStep::ReserveSample, reserved is Some),
            reserved matches Some(submission) ==> {
                &&& submission.reservation().access() == *self
                &&& submission.reservation().starts_submitted()
            },
    {
        match self.reserve_sample(SampleStage::new(SAMPLE_SUBMITTED), Attempt { write: false }) {
            Some(sample) => Some(ExternalTextureSampleSubmission::fresh(sample)),
            None => None,
        }
    }

    /// Reserves the write, exactly if nothing is reserved.
    pub fn try_reserve_write(self: &Arc<Self>) -> (reserved: Option<
        ExternalTextureWriteReservation,
    >)
        ensures
            self.decides(AccessStep::ReserveWrite, reserved is Some),
            reserved matches Some(reservation) ==> {
                &&& reservation.access() == *self
                &&& reservation.is_active()
            },
        opens_invariants none
        no_unwind
    {
        match self.reserve_write(Attempt { write: true }) {
            Some(hold) => Some(ExternalTextureWriteReservation::granted(hold)),
            None => None,
        }
    }
}

impl ExternalTextureHandle {
    /// Attempts to reserve this texture for an externally submitted write.
    ///
    /// The reservation fails while a scene references the texture or a
    /// previous compositor submission is still sampling it.
    pub fn try_reserve_write(&self) -> (reserved: Option<ExternalTextureWriteReservation>)
        ensures
            self.access().decides(AccessStep::ReserveWrite, reserved is Some),
            reserved matches Some(reservation) ==> {
                &&& reservation.access() == self.access()
                &&& reservation.is_active()
            },
        opens_invariants none
        no_unwind
    {
        self.word().try_reserve_write()
    }

    /// Reserves one scene sample before it can race an external writer.
    pub fn try_reserve_sample(&self) -> (reserved: Option<ExternalTextureSampleReservation>)
        ensures
            self.access().decides(AccessStep::ReserveSample, reserved is Some),
            reserved matches Some(reservation) ==> {
                &&& reservation.access() == self.access()
                &&& reservation.starts_pending()
            },
    {
        self.word().try_reserve_sample()
    }
}

} // verus!
