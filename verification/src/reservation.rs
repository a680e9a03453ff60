//! The reservations that hold a place in the access word of a texture, and give it back.
use std::sync::Arc;

use vstd::prelude::*;
use vstd::string::*;

#[allow(unused_imports)]
use crate::access::AccessStep;
use crate::access::ExternalTextureAccess;
use crate::sample::ExternalTextureSampleReservationInner;
#[allow(unused_imports)]
use crate::stage::SampleStep;
use crate::stage::{SAMPLE_PENDING, SAMPLE_SUBMITTED};
use crate::submission::ExternalTextureSampleSubmission;
use crate::text::{append_decimal, append_truth};
#[allow(unused_imports)]
use crate::text::{decimal, truth};
use crate::write_hold::WriteHold;

verus! {

/// One pending or submitted scene use of an external texture.
///
/// This is an internal renderer hand-off exposed only so platform backends can
/// keep the texture read reservation alive through GPU completion.
pub struct ExternalTextureSampleReservation {
    inner: Arc<ExternalTextureSampleReservationInner>,
}

impl ExternalTextureSampleReservation {
    /// The sample that this reservation, its clones and its submission share.
    pub closed spec fn inner(&self) -> Arc<ExternalTextureSampleReservationInner> {
        self.inner
    }

    /// The access word that counts this sample.
    pub open spec fn access(&self) -> Arc<ExternalTextureAccess> {
        self.inner().access()
    }

    /// Whether this sample was made pending.
    pub open spec fn starts_pending(&self) -> bool {
        self.inner().stage().starts_in(SAMPLE_PENDING)
    }

    /// Whether this sample was made as one that a submission has claimed.
    pub open spec fn starts_submitted(&self) -> bool {
        self.inner().stage().starts_in(SAMPLE_SUBMITTED)
    }

    /// The debug text of a reservation whose sample is in `stage`.
    pub open spec fn shown(stage: u8) -> Seq<char> {
        "ExternalTextureSampleReservation { state: "@ + decimal(stage as nat) + " }"@
    }

    /// The reservation of a sample that no submission has claimed.
    pub(crate) fn pending(sample: ExternalTextureSampleReservationInner) -> (reservation: Self)
        requires
            sample.stage().starts_in(SAMPLE_PENDING),
        ensures
            reservation.access() == sample.access(),
            reservation.starts_pending(),
    {
        ExternalTextureSampleReservation { inner: Arc::new(sample) }
    }

    /// The reservation of a sample that is submitted from the start.
    pub(crate) fn submitted(sample: ExternalTextureSampleReservationInner) -> (reservation: Self)
        requires
            sample.stage().starts_in(SAMPLE_SUBMITTED),
        ensures
            reservation.access() == sample.access(),
            reservation.starts_submitted(),
    {
        ExternalTextureSampleReservation { inner: Arc::new(sample) }
    }

    /// Returns the sample that this reservation, its clones and its submission share.
    pub(crate) fn sample(&self) -> (sample: &ExternalTextureSampleReservationInner)
        ensures
            *sample == *self.inner(),
        opens_invariants none
        no_unwind
    {
        &self.inner
    }

    /// Claims the scene's pending reservation for one compositor submission.
    pub fn claim_submission(&self) -> (claimed: Option<ExternalTextureSampleSubmission>)
        ensures
            self.inner().stage().decides(SampleStep::Claim, claimed is Some),
            claimed matches Some(submission) ==> submission.reservation() == *self,
        opens_invariants none
        no_unwind
    {
        if self.inner.claim() {
            Some(
                ExternalTextureSampleSubmission::claimed(
                    ExternalTextureSampleReservation { inner: Arc::clone(&self.inner) },
                ),
            )
        } else {
            None
        }
    }

    /// Acquires an independent reservation when the same scene is submitted again.
    pub fn fresh_submission(&self) -> (claimed: Option<ExternalTextureSampleSubmission>)
        ensures
            self.access().decides(AccessStep::ReserveSample, claimed is Some),
            claimed matches Some(submission) ==> {
                &&& submission.reservation().access() == self.access()
                &&& submission.reservation().starts_submitted()
            },
    {
        self.inner.counted_by().try_reserve_submission()
    }

    /// Looks at the stage of the sample.
    pub fn stage(&self) -> (stage: u8)
        ensures
            self.inner().stage().reads(stage),
        opens_invariants none
        no_unwind
    {
        self.inner.look()
    }

    /// Returns the debug text of a reservation whose sample is in `stage`.
    pub fn debug_text_in(stage: u8) -> (text: String)
        ensures
            text@ == Self::shown(stage),
    {
        let mut text = String::from_str("ExternalTextureSampleReservation { state: ");
        append_decimal(&mut text, stage as u64);
        text.append(" }");
        text
    }

    /// Returns the debug text of this reservation.
    pub fn debug_text(&self) -> (text: String)
        ensures
            exists|stage: u8| #[trigger]
                self.inner().stage().reads(stage) && text@ == Self::shown(stage),
    {
        let stage: u8 = self.stage();
        Self::debug_text_in(stage)
    }
}

impl Clone for ExternalTextureSampleReservation {
    /// Another holder of the same sample.
    fn clone(&self) -> (reservation: Self)
        ensures
            reservation == *self,
    {
        ExternalTextureSampleReservation { inner: Arc::clone(&self.inner) }
    }
}

/// Exclusive permission to enqueue a write to an external texture.
///
/// Call [`Self::mark_submitted`] immediately after the write is submitted to
/// the same device queue. Later compositor samples are then ordered after that
/// write. Dropping an unsubmitted reservation safely cancels it.
pub struct ExternalTextureWriteReservation {
    hold: WriteHold,
}

impl ExternalTextureWriteReservation {
    /// The access word in which the write is reserved.
    pub closed spec fn access(&self) -> Arc<ExternalTextureAccess> {
        self.hold.access()
    }

    /// Whether the write is still reserved.
    pub closed spec fn spec_is_active(&self) -> bool {
        self.hold.is_active()
    }

    /// The debug text of a write reservation.
    pub open spec fn shown(&self) -> Seq<char> {
        "ExternalTextureWriteReservation { active: "@ + truth(self.is_active()) + ", .. }"@
    }

    /// The reservation of a write that has been admitted.
    pub(crate) fn granted(hold: WriteHold) -> (reservation: Self)
        ensures
            reservation.access() == hold.access(),
            reservation.is_active() == hold.is_active(),
        opens_invariants none
        no_unwind
    {
        ExternalTextureWriteReservation { hold }
    }

    /// Records that the reserved write has been submitted and releases the queue-order barrier.
    pub fn mark_submitted(self)
        ensures
            self.is_active() ==> self.access().decides(AccessStep::ReleaseWrite, true),
        opens_invariants none
        no_unwind
    {
        let mut reservation = self;
        reservation.release();
    }

    /// Returns whether the write is still reserved.
    #[verifier::when_used_as_spec(spec_is_active)]
    pub fn is_active(&self) -> (active: bool)
        ensures
            active == self.is_active(),
        opens_invariants none
        no_unwind
    {
        self.hold.is_active()
    }

    /// Returns the debug text of this reservation.
    pub fn debug_text(&self) -> (text: String)
        ensures
            text@ == self.shown(),
    {
        let mut text = String::from_str("ExternalTextureWriteReservation { active: ");
        append_truth(&mut text, self.is_active());
        text.append(", .. }");
        text
    }

    /// Gives the write back if it is still reserved, and does nothing otherwise: a release takes
    /// an active hold and ends it.
    fn release(&mut self)
        ensures
            !final(self).is_active(),
            final(self).access() == old(self).access(),
            old(self).is_active() ==> old(self).access().decides(AccessStep::ReleaseWrite, true),
            !old(self).is_active() ==> *final(self) == *old(self),
        opens_invariants none
        no_unwind
    {
        if self.hold.is_active() {
            self.hold.release();
        }
    }
}

impl Drop for ExternalTextureWriteReservation {
    /// Cancels the write, unless it has been submitted.
    fn drop(&mut self)
        ensures
            !final(self).is_active(),
            old(self).is_active() ==> old(self).access().decides(AccessStep::ReleaseWrite, true),
            !old(self).is_active() ==> *final(self) == *old(self),
        opens_invariants none
        no_unwind
    {
        self.release();
    }
}

} // verus!
