//! The submissions that keep a sample reserved until the compositor is done with it.
use vstd::prelude::*;
use vstd::string::*;

use crate::reservation::ExternalTextureSampleReservation;
use crate::rights::ClaimSpent;
use crate::sample::ExternalTextureSampleReservationInner;
#[allow(unused_imports)]
use crate::stage::{CompletionRight, SampleStep, SAMPLE_SUBMITTED};

verus! {

/// Keeps one external-texture sample reserved until a compositor submission completes.
///
/// Platform backends move this value into their queue-completion callback. If
/// command recording or submission fails, dropping it releases the reservation.
pub struct ExternalTextureSampleSubmission {
    reservation: ExternalTextureSampleReservation,
}

impl ExternalTextureSampleSubmission {
    /// The sample that this submission has claimed.
    pub closed spec fn reservation(&self) -> ExternalTextureSampleReservation {
        self.reservation
    }

    /// The submission of a reservation that was pending and has been claimed for it.
    pub(crate) fn claimed(reservation: ExternalTextureSampleReservation) -> (submission: Self)
        requires
            reservation.inner().stage().decides(SampleStep::Claim, true),
        ensures
            submission.reservation() == reservation,
        opens_invariants none
        no_unwind
    {
        ExternalTextureSampleSubmission { reservation }
    }

    /// The submission of a sample of its own, which is submitted from the start.
    pub(crate) fn fresh(sample: ExternalTextureSampleReservationInner) -> (submission: Self)
        requires
            sample.stage().starts_in(SAMPLE_SUBMITTED),
        ensures
            submission.reservation().access() == sample.access(),
            submission.reservation().starts_submitted(),
    {
        ExternalTextureSampleSubmission {
            reservation: ExternalTextureSampleReservation::submitted(sample),
        }
    }

    /// Returns the debug text of this submission, which tells nothing of it.
    pub fn debug_text(&self) -> (text: String)
        ensures
            text@ == "ExternalTextureSampleSubmission { .. }"@,
    {
        String::from_str("ExternalTextureSampleSubmission { .. }")
    }
}

impl Drop for ExternalTextureSampleSubmission {
    /// Gives the sample back, unless it has been given back.
    fn drop(&mut self)
        ensures
            old(self).reservation().inner().completed(),
        opens_invariants none
        no_unwind
    {
        let spent = ClaimSpent::of(self);
        self.reservation.sample().complete(CompletionRight::Submission(spent));
    }
}

} // verus!
