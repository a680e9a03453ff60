//! What the answers of the public calls tell, of every texture and every answer.
//!
//! A call `f(x)` that returned `r` is written `call_ensures(f, (x,), r)`. The laws speak of the
//! samples and the write that the word, or of the stage that the sample, was found with when the
//! call took its step.
use vstd::prelude::*;

use crate::access::{max_samples, sample_count, write_reserved, AccessStep};
use crate::handle::ExternalTextureHandle;
use crate::read_only::{only_looks, Flag};
use crate::reservation::{ExternalTextureSampleReservation, ExternalTextureWriteReservation};
use crate::stage::{SampleStep, SAMPLE_PENDING};
use crate::submission::ExternalTextureSampleSubmission;
use crate::wgpu_context::WgpuExternalContext;
use std::sync::atomic::{AtomicBool, Ordering};

verus! {

/// A write is granted exactly where no sample and no other write is reserved, however many samples
/// there are.
pub proof fn writes_are_granted_exactly_on_free_textures(
    texture: ExternalTextureHandle,
    reserved: Option<ExternalTextureWriteReservation>,
)
    requires
        call_ensures(ExternalTextureHandle::try_reserve_write, (&texture,), reserved),
    ensures
        match reserved {
            Some(reservation) => reservation.is_active() && reservation.access()
                == texture.access() && exists|found: u64| #[trigger]
                texture.access().answers(AccessStep::ReserveWrite, Ok(found)) && sample_count(found)
                    == 0 && !write_reserved(found),
            None => exists|found: u64| #[trigger]
                texture.access().answers(AccessStep::ReserveWrite, Err(found)) && (sample_count(
                    found,
                ) > 0 || write_reserved(found)),
        },
{
    let answer = choose|answer: Result<u64, u64>|
        {
            &&& #[trigger] texture.access().answers(AccessStep::ReserveWrite, answer)
            &&& AccessStep::ReserveWrite.fits(answer)
            &&& reserved is Some <==> answer is Ok
        };
    match answer {
        Ok(found) => {
            assert(texture.access().answers(AccessStep::ReserveWrite, Ok(found)));
        },
        Err(found) => {
            assert(texture.access().answers(AccessStep::ReserveWrite, Err(found)));
        },
    }
}

/// A sample is granted exactly where no write is reserved and the count has room.
pub proof fn samples_are_granted_exactly_where_no_write_is_reserved(
    texture: ExternalTextureHandle,
    reserved: Option<ExternalTextureSampleReservation>,
)
    requires
        call_ensures(ExternalTextureHandle::try_reserve_sample, (&texture,), reserved),
    ensures
        match reserved {
            Some(reservation) => reservation.access() == texture.access() && exists|found: u64|
                #[trigger]
                texture.access().answers(AccessStep::ReserveSample, Ok(found)) && !write_reserved(
                    found,
                ) && sample_count(found) < max_samples(),
            None => exists|found: u64| #[trigger]
                texture.access().answers(AccessStep::ReserveSample, Err(found)) && (write_reserved(
                    found,
                ) || sample_count(found) == max_samples()),
        },
{
    let answer = choose|answer: Result<u64, u64>|
        {
            &&& #[trigger] texture.access().answers(AccessStep::ReserveSample, answer)
            &&& AccessStep::ReserveSample.fits(answer)
            &&& reserved is Some <==> answer is Ok
        };
    match answer {
        Ok(found) => {
            assert(texture.access().answers(AccessStep::ReserveSample, Ok(found)));
        },
        Err(found) => {
            assert(texture.access().answers(AccessStep::ReserveSample, Err(found)));
        },
    }
}

/// A claim is admitted exactly where its sample was pending, and gives out that very sample.
pub proof fn claims_are_admitted_exactly_on_pending_samples(
    reservation: ExternalTextureSampleReservation,
    claimed: Option<ExternalTextureSampleSubmission>,
)
    requires
        call_ensures(
            ExternalTextureSampleReservation::claim_submission,
            (&reservation,),
            claimed,
        ),
    ensures
        match claimed {
            Some(submission) => submission.reservation() == reservation
                && reservation.inner().stage().answers(SampleStep::Claim, Ok(SAMPLE_PENDING)),
            None => exists|found: u8| #[trigger]
                reservation.inner().stage().answers(SampleStep::Claim, Err(found)) && found
                    != SAMPLE_PENDING,
        },
{
    let stage = reservation.inner().stage();
    let answer = choose|answer: Result<u8, u8>|
        {
            &&& #[trigger] stage.answers(SampleStep::Claim, answer)
            &&& SampleStep::Claim.fits(answer)
            &&& claimed is Some <==> answer is Ok
        };
    match answer {
        Ok(found) => {
            assert(stage.answers(SampleStep::Claim, Ok(found)));
        },
        Err(found) => {
            assert(stage.answers(SampleStep::Claim, Err(found)));
        },
    }
}

/// A fresh submission is granted exactly where a sample is: where no write is reserved and the
/// count has room, whatever the stage of the reservation that it repeats.
pub proof fn fresh_submissions_are_granted_as_samples_are(
    reservation: ExternalTextureSampleReservation,
    claimed: Option<ExternalTextureSampleSubmission>,
)
    requires
        call_ensures(
            ExternalTextureSampleReservation::fresh_submission,
            (&reservation,),
            claimed,
        ),
    ensures
        match claimed {
            Some(submission) => submission.reservation().access() == reservation.access()
                && submission.reservation().starts_submitted() && exists|found: u64| #[trigger]
                reservation.access().answers(AccessStep::ReserveSample, Ok(found))
                    && !write_reserved(found) && sample_count(found) < max_samples(),
            None => exists|found: u64| #[trigger]
                reservation.access().answers(AccessStep::ReserveSample, Err(found)) && (
                write_reserved(found) || sample_count(found) == max_samples()),
        },
{
    let answer = choose|answer: Result<u64, u64>|
        {
            &&& #[trigger] reservation.access().answers(AccessStep::ReserveSample, answer)
            &&& AccessStep::ReserveSample.fits(answer)
            &&& claimed is Some <==> answer is Ok
        };
    match answer {
        Ok(found) => {
            assert(reservation.access().answers(AccessStep::ReserveSample, Ok(found)));
        },
        Err(found) => {
            assert(reservation.access().answers(AccessStep::ReserveSample, Err(found)));
        },
    }
}

/// Whether a device is lost is told by a load of the flag of its context.
pub proof fn losses_are_told_by_a_look(context: WgpuExternalContext, lost: bool)
    requires
        call_ensures(WgpuExternalContext::is_device_lost, (&context,), lost),
    ensures
        call_ensures(AtomicBool::load, (&*context.device_lost(), Ordering::Relaxed), lost),
{
    assert(context.observes(lost));
    context.observations_are_looks(lost);
}

/// Any two functions that a flag can be looked at with find the same: what is found does not
/// depend on who looks.
pub proof fn looks_find_the_same<
    L: Fn(&AtomicBool, Ordering) -> bool,
    M: Fn(&AtomicBool, Ordering) -> bool,
>(look: L, other: M, flag: AtomicBool, set: bool)
    requires
        only_looks::<AtomicBool, L>(look),
        only_looks::<AtomicBool, M>(other),
    ensures
        call_ensures(look, (&flag, Ordering::Relaxed), set) <==> call_ensures(
            other,
            (&flag, Ordering::Relaxed),
            set,
        ),
{
    if flag.reads(set) {
    } else {
    }
}

} // verus!
