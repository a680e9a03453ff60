//! The access protocol of one texture, and what it guarantees in every interleaving.
//!
//! A texture has one access word and any number of sample reservations, each with a stage of its
//! own. Threads change them by atomic steps alone: by an [`AccessStep`] on the word or by a
//! [`SampleStep`] on a stage. This module models what the threads do as a sequence of
//! [`ProtocolEvent`]s that take these very steps, and shows what holds after every such sequence.
//!
//! The model lets a sample or a write be released only where one is owed or active. In the code
//! that is a matter of ownership: a sample is released against an
//! [`OwedRelease`](crate::stage::OwedRelease), which a first completion yields, and a write
//! against an active [`WriteHold`](crate::write_hold::WriteHold), which an admitted write yields.
//! That the shared word holds what the steps of all threads have left in it is an assumption of
//! the model, as the verifier knows nothing of what is inside an atomic.
use vstd::prelude::*;

use crate::access::{max_samples, sample_count, write_bit, write_reserved, AccessStep};
use crate::access::EXTERNAL_TEXTURE_IDLE;
use crate::stage::{SampleStep, SAMPLE_COMPLETE, SAMPLE_PENDING, SAMPLE_SUBMITTED};

verus! {

/// Everything that the protocol of one texture depends on.
pub struct ProtocolState {
    /// The access word.
    pub word: u64,
    /// The stage of each sample reservation that was ever granted, in the order of the grants.
    pub stages: Seq<u8>,
    /// The number of samples that have been completed and are yet to be taken off the count.
    pub releasing: nat,
    /// The number of write reservations that are active.
    pub writers: nat,
}

/// One atomic step of one thread.
pub enum ProtocolEvent {
    /// An attempt to reserve a sample.
    ReserveSample,
    /// An attempt to reserve a sample for a submission.
    ReserveSubmission,
    /// An attempt to reserve the write.
    ReserveWrite,
    /// An attempt to claim a sample for a submission.
    Claim(int),
    /// The completion of a sample, by a submission or by the last holder of the reservation.
    Complete(int),
    /// The release that the first completion of a sample is followed by.
    ReleaseSample,
    /// The release of an active write reservation, submitted or dropped.
    ReleaseWrite,
}

/// The number of samples that are not complete.
pub open spec fn open_samples(stages: Seq<u8>) -> nat
    decreases stages.len(),
{
    if stages.len() == 0 {
        0
    } else {
        open_samples(stages.drop_last()) + if stages.last() == SAMPLE_COMPLETE {
            0nat
        } else {
            1nat
        }
    }
}

impl ProtocolState {
    /// The state of a new texture.
    pub open spec fn initial() -> Self {
        ProtocolState {
            word: EXTERNAL_TEXTURE_IDLE,
            stages: Seq::empty(),
            releasing: 0,
            writers: 0,
        }
    }

    /// Whether a thread can take the step `event` in this state: a sample that it names has been
    /// granted, a sample that it releases was completed and not released yet, and a write that it
    /// releases is active.
    pub open spec fn enables(self, event: ProtocolEvent) -> bool {
        match event {
            ProtocolEvent::ReserveSample
            | ProtocolEvent::ReserveSubmission
            | ProtocolEvent::ReserveWrite => true,
            ProtocolEvent::Claim(sample) | ProtocolEvent::Complete(sample) => 0 <= sample
                < self.stages.len(),
            ProtocolEvent::ReleaseSample => self.releasing > 0,
            ProtocolEvent::ReleaseWrite => self.writers > 0,
        }
    }

    /// The state after `event`. A refused attempt changes nothing.
    pub open spec fn after(self, event: ProtocolEvent) -> Self {
        match event {
            ProtocolEvent::ReserveSample => match AccessStep::ReserveSample.next(self.word) {
                Some(word) => ProtocolState {
                    word,
                    stages: self.stages.push(SAMPLE_PENDING),
                    ..self
                },
                None => self,
            },
            ProtocolEvent::ReserveSubmission => match AccessStep::ReserveSample.next(self.word) {
                Some(word) => ProtocolState {
                    word,
                    stages: self.stages.push(SAMPLE_SUBMITTED),
                    ..self
                },
                None => self,
            },
            ProtocolEvent::ReserveWrite => match AccessStep::ReserveWrite.next(self.word) {
                Some(word) => ProtocolState { word, writers: self.writers + 1, ..self },
                None => self,
            },
            ProtocolEvent::Claim(sample) => match SampleStep::Claim.next(self.stages[sample]) {
                Some(stage) => ProtocolState { stages: self.stages.update(sample, stage), ..self },
                None => self,
            },
            ProtocolEvent::Complete(sample) => match SampleStep::Complete.next(
                self.stages[sample],
            ) {
                Some(stage) => ProtocolState {
                    stages: self.stages.update(sample, stage),
                    releasing: self.releasing + if self.stages[sample] != SAMPLE_COMPLETE {
                        1nat
                    } else {
                        0nat
                    },
                    ..self
                },
                None => self,
            },
            ProtocolEvent::ReleaseSample => match AccessStep::ReleaseSample.next(self.word) {
                Some(word) => ProtocolState {
                    word,
                    releasing: (self.releasing - 1) as nat,
                    ..self
                },
                None => self,
            },
            ProtocolEvent::ReleaseWrite => match AccessStep::ReleaseWrite.next(self.word) {
                Some(word) => ProtocolState { word, writers: (self.writers - 1) as nat, ..self },
                None => self,
            },
        }
    }

    /// Whether threads can take the steps `events` one after the other, from this state on.
    pub open spec fn enables_all(self, events: Seq<ProtocolEvent>) -> bool
        decreases events.len(),
    {
        events.len() > 0 ==> {
            &&& self.enables_all(events.drop_last())
            &&& self.after_all(events.drop_last()).enables(events.last())
        }
    }

    /// The state after all of `events`.
    pub open spec fn after_all(self, events: Seq<ProtocolEvent>) -> Self
        decreases events.len(),
    {
        if events.len() == 0 {
            self
        } else {
            self.after_all(events.drop_last()).after(events.last())
        }
    }

    /// The samples that the word has to count: those that are not complete, and those that are
    /// and have not been taken off yet.
    pub open spec fn held_samples(self) -> nat {
        open_samples(self.stages) + self.releasing
    }

    /// The invariant. Every stage is one of the three, and the word is either the write bit alone,
    /// for one writer and no sample, or the number of the samples that are held, for no writer.
    pub open spec fn wf(self) -> bool {
        &&& forall|sample: int|
            0 <= sample < self.stages.len() ==> #[trigger] self.stages[sample] <= SAMPLE_COMPLETE
        &&& if self.writers == 0 {
            &&& self.word == self.held_samples()
            &&& self.held_samples() <= max_samples()
        } else {
            &&& self.writers == 1
            &&& self.word == write_bit()
            &&& self.held_samples() == 0
        }
    }
}

proof fn lemma_open_samples_push(stages: Seq<u8>, stage: u8)
    ensures
        open_samples(stages.push(stage)) == open_samples(stages) + if stage == SAMPLE_COMPLETE {
            0nat
        } else {
            1nat
        },
{
    assert(stages.push(stage).drop_last() == stages);
}

proof fn lemma_open_samples_update(stages: Seq<u8>, sample: int, stage: u8)
    requires
        0 <= sample < stages.len(),
    ensures
        open_samples(stages.update(sample, stage)) + if stages[sample] == SAMPLE_COMPLETE {
            0nat
        } else {
            1nat
        } == open_samples(stages) + if stage == SAMPLE_COMPLETE {
            0nat
        } else {
            1nat
        },
    decreases stages.len(),
{
    let updated = stages.update(sample, stage);
    if sample == stages.len() - 1 {
        assert(updated.drop_last() == stages.drop_last());
    } else {
        assert(updated.drop_last() == stages.drop_last().update(sample, stage));
        lemma_open_samples_update(stages.drop_last(), sample, stage);
    }
}

proof fn lemma_open_samples_at_least_one(stages: Seq<u8>, sample: int)
    requires
        0 <= sample < stages.len(),
        stages[sample] != SAMPLE_COMPLETE,
    ensures
        open_samples(stages) >= 1,
    decreases stages.len(),
{
    if sample < stages.len() - 1 {
        assert(stages.drop_last()[sample] == stages[sample]);
        lemma_open_samples_at_least_one(stages.drop_last(), sample);
    }
}

proof fn lemma_open_samples_none(stages: Seq<u8>)
    requires
        forall|sample: int|
            0 <= sample < stages.len() ==> #[trigger] stages[sample] == SAMPLE_COMPLETE,
    ensures
        open_samples(stages) == 0,
    decreases stages.len(),
{
    if stages.len() > 0 {
        assert(stages.last() == stages[stages.len() - 1]);
        assert forall|sample: int| 0 <= sample < stages.drop_last().len() implies #[trigger]
            stages.drop_last()[sample] == SAMPLE_COMPLETE by {
            assert(stages.drop_last()[sample] == stages[sample]);
        }
        lemma_open_samples_none(stages.drop_last());
    }
}

/// A new texture is well formed.
pub proof fn initial_is_wf()
    ensures
        ProtocolState::initial().wf(),
{
}

/// A new texture is free: a write and a sample are both admitted.
pub proof fn new_textures_are_free()
    ensures
        AccessStep::ReserveWrite.next(ProtocolState::initial().word) is Some,
        AccessStep::ReserveSample.next(ProtocolState::initial().word) is Some,
{
}

/// Every step of every thread keeps the invariant.
pub proof fn steps_keep_wf(state: ProtocolState, event: ProtocolEvent)
    requires
        state.wf(),
        state.enables(event),
    ensures
        state.after(event).wf(),
{
    match event {
        ProtocolEvent::ReserveSample => {
            lemma_open_samples_push(state.stages, SAMPLE_PENDING);
        },
        ProtocolEvent::ReserveSubmission => {
            lemma_open_samples_push(state.stages, SAMPLE_SUBMITTED);
        },
        ProtocolEvent::ReserveWrite => {},
        ProtocolEvent::Claim(sample) => {
            lemma_open_samples_update(state.stages, sample, SAMPLE_SUBMITTED);
        },
        ProtocolEvent::Complete(sample) => {
            lemma_open_samples_update(state.stages, sample, SAMPLE_COMPLETE);
        },
        ProtocolEvent::ReleaseSample => {},
        ProtocolEvent::ReleaseWrite => {},
    }
}

/// Whatever the threads do, and in whatever order, the invariant holds after it.
pub proof fn runs_keep_wf(state: ProtocolState, events: Seq<ProtocolEvent>)
    requires
        state.wf(),
        state.enables_all(events),
    ensures
        state.after_all(events).wf(),
    decreases events.len(),
{
    if events.len() > 0 {
        runs_keep_wf(state, events.drop_last());
        steps_keep_wf(state.after_all(events.drop_last()), events.last());
    }
}

/// Scene samples and external writes are mutually exclusive: after any steps from a new texture
/// there is at most one writer, and while there is one no sample is open.
pub proof fn samples_and_writes_exclude_each_other(events: Seq<ProtocolEvent>)
    requires
        ProtocolState::initial().enables_all(events),
    ensures
        ProtocolState::initial().after_all(events).writers <= 1,
        ProtocolState::initial().after_all(events).writers == 1 ==> forall|sample: int|
            0 <= sample < ProtocolState::initial().after_all(events).stages.len()
                ==> #[trigger] ProtocolState::initial().after_all(events).stages[sample]
                == SAMPLE_COMPLETE,
{
    let state = ProtocolState::initial().after_all(events);
    initial_is_wf();
    runs_keep_wf(ProtocolState::initial(), events);
    if state.writers == 1 {
        assert forall|sample: int| 0 <= sample < state.stages.len() implies #[trigger]
            state.stages[sample] == SAMPLE_COMPLETE by {
            if state.stages[sample] != SAMPLE_COMPLETE {
                lemma_open_samples_at_least_one(state.stages, sample);
            }
        }
    }
}

/// A write is refused exactly while a sample is held, by a scene or by a submission that is still
/// sampling, or another write is active; and where it is granted it becomes the only writer.
pub proof fn writes_are_refused_exactly_while_in_use(state: ProtocolState)
    requires
        state.wf(),
    ensures
        AccessStep::ReserveWrite.next(state.word) is None <==> state.held_samples() > 0
            || state.writers > 0,
        AccessStep::ReserveWrite.next(state.word) is Some ==> state.after(
            ProtocolEvent::ReserveWrite,
        ).writers == 1,
{
}

/// While one reservation, pending or submitted, is not complete, every write is refused.
pub proof fn an_open_sample_refuses_writes(state: ProtocolState, sample: int)
    requires
        state.wf(),
        0 <= sample < state.stages.len(),
        state.stages[sample] != SAMPLE_COMPLETE,
    ensures
        AccessStep::ReserveWrite.next(state.word) is None,
        state.after(ProtocolEvent::ReserveWrite) == state,
{
    lemma_open_samples_at_least_one(state.stages, sample);
}

/// A sample is refused exactly while a write is active or the count is full.
pub proof fn samples_are_refused_exactly_while_written(state: ProtocolState)
    requires
        state.wf(),
    ensures
        AccessStep::ReserveSample.next(state.word) is None <==> state.writers > 0
            || state.held_samples() == max_samples(),
{
}

/// While a write is active every sample is refused, however many are attempted and whatever else
/// the threads do, until that write is released.
pub proof fn active_writes_refuse_samples_until_released(
    state: ProtocolState,
    events: Seq<ProtocolEvent>,
)
    requires
        state.wf(),
        state.writers == 1,
        state.enables_all(events),
        forall|i: int| 0 <= i < events.len() ==> !(#[trigger] events[i] is ReleaseWrite),
    ensures
        state.after_all(events).writers == 1,
        write_reserved(state.after_all(events).word),
        AccessStep::ReserveSample.next(state.after_all(events).word) is None,
        AccessStep::ReserveWrite.next(state.after_all(events).word) is None,
    decreases events.len(),
{
    runs_keep_wf(state, events);
    if events.len() > 0 {
        assert forall|i: int| 0 <= i < events.drop_last().len() implies !(
        #[trigger] events.drop_last()[i] is ReleaseWrite) by {
            assert(events.drop_last()[i] == events[i]);
        }
        active_writes_refuse_samples_until_released(state, events.drop_last());
        assert(events.last() == events[events.len() - 1]);
    }
}

/// A sample that is not complete stays held, and every write is refused, whatever claims and
/// repeated submissions are attempted and whatever happens to other samples, until it is completed
/// itself.
pub proof fn open_samples_refuse_writes_until_completed(
    state: ProtocolState,
    events: Seq<ProtocolEvent>,
    sample: int,
)
    requires
        state.wf(),
        0 <= sample < state.stages.len(),
        state.stages[sample] != SAMPLE_COMPLETE,
        state.enables_all(events),
        forall|i: int|
            0 <= i < events.len() ==> #[trigger] events[i] != ProtocolEvent::Complete(sample),
    ensures
        sample < state.after_all(events).stages.len(),
        state.after_all(events).stages[sample] != SAMPLE_COMPLETE,
        AccessStep::ReserveWrite.next(state.after_all(events).word) is None,
    decreases events.len(),
{
    runs_keep_wf(state, events);
    if events.len() > 0 {
        assert forall|i: int| 0 <= i < events.drop_last().len() implies #[trigger]
            events.drop_last()[i] != ProtocolEvent::Complete(sample) by {
            assert(events.drop_last()[i] == events[i]);
        }
        open_samples_refuse_writes_until_completed(state, events.drop_last(), sample);
        assert(events.last() == events[events.len() - 1]);
    }
    an_open_sample_refuses_writes(state.after_all(events), sample);
}

/// A refused attempt leaves everything as it was.
pub proof fn refusals_change_nothing(state: ProtocolState, sample: int)
    ensures
        AccessStep::ReserveSample.next(state.word) is None ==> state.after(
            ProtocolEvent::ReserveSample,
        ) == state,
        AccessStep::ReserveSample.next(state.word) is None ==> state.after(
            ProtocolEvent::ReserveSubmission,
        ) == state,
        AccessStep::ReserveWrite.next(state.word) is None ==> state.after(
            ProtocolEvent::ReserveWrite,
        ) == state,
        SampleStep::Claim.next(state.stages[sample]) is None ==> state.after(
            ProtocolEvent::Claim(sample),
        ) == state,
{
}

/// A release always finds what it releases: a sample is taken off a count that is not zero while
/// no write is reserved, and a write is taken off a word that is the write bit alone.
pub proof fn releases_find_what_they_release(state: ProtocolState)
    requires
        state.wf(),
    ensures
        state.enables(ProtocolEvent::ReleaseSample) ==> !write_reserved(state.word)
            && sample_count(state.word) > 0,
        state.enables(ProtocolEvent::ReleaseWrite) ==> state.word == write_bit(),
{
}

/// A sample is given back once: completing it again owes no second release and changes nothing,
/// whoever completes it and whatever happened in between.
pub proof fn samples_are_released_once(
    state: ProtocolState,
    sample: int,
    between: Seq<ProtocolEvent>,
)
    requires
        0 <= sample < state.stages.len(),
        state.after(ProtocolEvent::Complete(sample)).enables_all(between),
    ensures
        ({
            let later = state.after(ProtocolEvent::Complete(sample)).after_all(between);
            later.after(ProtocolEvent::Complete(sample)) == later
        }),
{
    let completed = state.after(ProtocolEvent::Complete(sample));
    stages_never_go_back(completed, between, sample);
    let later = completed.after_all(between);
    assert(later.stages.update(sample, SAMPLE_COMPLETE) == later.stages);
}

/// The number of a stage never decreases, and no reservation is forgotten.
pub proof fn stages_never_go_back(state: ProtocolState, events: Seq<ProtocolEvent>, sample: int)
    requires
        0 <= sample < state.stages.len(),
        state.enables_all(events),
    ensures
        state.after_all(events).stages.len() >= state.stages.len(),
        state.stages[sample] <= SAMPLE_COMPLETE ==> state.stages[sample] <= state.after_all(
            events,
        ).stages[sample] <= SAMPLE_COMPLETE,
    decreases events.len(),
{
    if events.len() > 0 {
        stages_never_go_back(state, events.drop_last(), sample);
    }
}

/// A reservation is claimed for one submission at most: once a claim has been admitted, or the
/// sample is complete, every later claim is refused.
pub proof fn samples_are_claimed_once(
    state: ProtocolState,
    sample: int,
    between: Seq<ProtocolEvent>,
)
    requires
        state.wf(),
        0 <= sample < state.stages.len(),
        state.after(ProtocolEvent::Claim(sample)).enables_all(between),
    ensures
        SampleStep::Claim.next(
            state.after(ProtocolEvent::Claim(sample)).after_all(between).stages[sample],
        ) is None,
{
    stages_never_go_back(state.after(ProtocolEvent::Claim(sample)), between, sample);
}

/// A claim changes neither the word nor the number of samples that are held: the submission keeps
/// the sample reserved.
pub proof fn claims_keep_the_sample_held(state: ProtocolState, sample: int)
    requires
        state.wf(),
        0 <= sample < state.stages.len(),
    ensures
        state.after(ProtocolEvent::Claim(sample)).word == state.word,
        state.after(ProtocolEvent::Claim(sample)).held_samples() == state.held_samples(),
{
    lemma_open_samples_update(state.stages, sample, SAMPLE_SUBMITTED);
}

/// A reservation that is granted is a sample of its own: it can be claimed, and neither its claim
/// nor its completion changes the stage of another sample.
pub proof fn granted_samples_are_independent(state: ProtocolState, other: int)
    requires
        AccessStep::ReserveSample.next(state.word) is Some,
        0 <= other < state.stages.len(),
    ensures
        ({
            let fresh = state.stages.len() as int;
            let granted = state.after(ProtocolEvent::ReserveSample);
            let claimed = granted.after(ProtocolEvent::Claim(fresh));
            let completed = claimed.after(ProtocolEvent::Complete(fresh));
            &&& granted.stages.len() == fresh + 1
            &&& SampleStep::Claim.next(granted.stages[fresh]) is Some
            &&& claimed.stages[fresh] == SAMPLE_SUBMITTED
            &&& completed.stages[fresh] == SAMPLE_COMPLETE
            &&& granted.stages[other] == state.stages[other]
            &&& claimed.stages[other] == state.stages[other]
            &&& completed.stages[other] == state.stages[other]
        }),
{
}

/// A sample that is reserved for a submission is one that is reserved and claimed at once.
pub proof fn fresh_submissions_are_claimed_reservations(state: ProtocolState)
    requires
        AccessStep::ReserveSample.next(state.word) is Some,
    ensures
        state.after(ProtocolEvent::ReserveSubmission) == state.after(
            ProtocolEvent::ReserveSample,
        ).after(ProtocolEvent::Claim(state.stages.len() as int)),
{
    assert(state.stages.push(SAMPLE_PENDING).update(state.stages.len() as int, SAMPLE_SUBMITTED)
        == state.stages.push(SAMPLE_SUBMITTED));
}

/// Dropping a reservation cancels it: a sample that is granted, claimed or not, completed and
/// released leaves the word as it was, and so does a write that is granted and released.
pub proof fn dropped_reservations_are_cancelled(state: ProtocolState)
    requires
        state.wf(),
    ensures
        AccessStep::ReserveSample.next(state.word) is Some ==> ({
            let fresh = state.stages.len() as int;
            let granted = state.after(ProtocolEvent::ReserveSample);
            let dropped = granted.after(ProtocolEvent::Complete(fresh)).after(
                ProtocolEvent::ReleaseSample,
            );
            let submitted = granted.after(ProtocolEvent::Claim(fresh)).after(
                ProtocolEvent::Complete(fresh),
            ).after(ProtocolEvent::ReleaseSample);
            &&& dropped.word == state.word
            &&& dropped.held_samples() == state.held_samples()
            &&& submitted.word == state.word
            &&& submitted.held_samples() == state.held_samples()
        }),
        AccessStep::ReserveWrite.next(state.word) is Some ==> state.after(
            ProtocolEvent::ReserveWrite,
        ).after(ProtocolEvent::ReleaseWrite) == state,
{
    if AccessStep::ReserveSample.next(state.word) is Some {
        let fresh = state.stages.len() as int;
        let granted = state.after(ProtocolEvent::ReserveSample);
        lemma_open_samples_push(state.stages, SAMPLE_PENDING);
        lemma_open_samples_update(granted.stages, fresh, SAMPLE_COMPLETE);
        lemma_open_samples_update(granted.stages, fresh, SAMPLE_SUBMITTED);
        lemma_open_samples_update(
            granted.after(ProtocolEvent::Claim(fresh)).stages,
            fresh,
            SAMPLE_COMPLETE,
        );
    }
}

/// Once every sample has been completed and released and no write is active, the texture is idle
/// again, and both a write and a sample are admitted.
pub proof fn all_given_back_is_idle(state: ProtocolState)
    requires
        state.wf(),
        state.writers == 0,
        state.releasing == 0,
        forall|sample: int|
            0 <= sample < state.stages.len() ==> #[trigger] state.stages[sample]
                == SAMPLE_COMPLETE,
    ensures
        state.word == EXTERNAL_TEXTURE_IDLE,
        AccessStep::ReserveWrite.next(state.word) is Some,
        AccessStep::ReserveSample.next(state.word) is Some,
{
    lemma_open_samples_none(state.stages);
}

/// A write that is submitted or dropped frees the texture at once: a sample and another write are
/// admitted, and there is no write left to release a second time.
pub proof fn released_writes_free_the_texture(state: ProtocolState)
    requires
        state.wf(),
        state.enables(ProtocolEvent::ReleaseWrite),
    ensures
        state.after(ProtocolEvent::ReleaseWrite).word == EXTERNAL_TEXTURE_IDLE,
        AccessStep::ReserveSample.next(state.after(ProtocolEvent::ReleaseWrite).word) is Some,
        AccessStep::ReserveWrite.next(state.after(ProtocolEvent::ReleaseWrite).word) is Some,
        !state.after(ProtocolEvent::ReleaseWrite).enables(ProtocolEvent::ReleaseWrite),
{
}

} // verus!
