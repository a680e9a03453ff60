//! The worker that drives the queue-completion callbacks of one device: how it is woken, and what
//! it does next.
use std::sync::mpsc::{sync_channel, Receiver, SyncSender, TrySendError};

use vstd::prelude::*;

verus! {

/// The sending half of a bounded channel, `std::sync::mpsc::SyncSender`.
#[verifier::external_type_specification]
#[verifier::external_body]
#[verifier::reject_recursive_types(T)]
pub struct ExSyncSender<T>(SyncSender<T>);

/// The receiving half of a channel, `std::sync::mpsc::Receiver`.
#[verifier::external_type_specification]
#[verifier::external_body]
#[verifier::reject_recursive_types(T)]
pub struct ExReceiver<T>(Receiver<T>);

/// Why a value was not sent, `std::sync::mpsc::TrySendError`.
#[verifier::external_type_specification]
#[verifier::external_body]
#[verifier::reject_recursive_types(T)]
pub struct ExTrySendError<T>(TrySendError<T>);

/// `std::sync::mpsc::sync_channel`, which makes a channel that holds `bound` values. It allocates
/// room for all of them, so a large bound is left out. Nothing is claimed of the two halves.
pub assume_specification<T>[ sync_channel::<T> ](bound: usize) -> (halves: (
    SyncSender<T>,
    Receiver<T>,
))
    requires
        bound <= 1,
;

/// `std::sync::mpsc::SyncSender::try_send`, which puts a value into the channel if there is room
/// and a receiver, and returns it otherwise, without waiting. Whether there is rests on the
/// receiver, so nothing is claimed of the result.
pub assume_specification<T>[ SyncSender::<T>::try_send ](sender: &SyncSender<T>, value: T) -> (sent:
    Result<(), TrySendError<T>>);

/// `std::sync::mpsc::SyncSender::clone`, which makes another sender into the same channel: what
/// holds of the one holds of the other.
pub assume_specification<T>[ <SyncSender<T> as Clone>::clone ](sender: &SyncSender<T>) -> (other:
    SyncSender<T>)
    ensures
        other == *sender,
;

/// The number of wakes that are kept for the worker while it is busy.
///
/// A single queued wake is enough: a blocking poll drains all work submitted before it begins,
/// and a racing submit can enqueue the next wake after the receiver consumes this one.
pub const COMPLETION_WAKE_CAPACITY: usize = 1;

/// How long the worker waits between a wake and its poll, in microseconds.
///
/// This lets the producer finish registering callbacks and gives another same-device submitter a
/// short opportunity to enqueue its ordered work before the blocking poll.
pub const COMPLETION_SETTLE_MICROS: u64 = 500;

/// Wakes the one device-wide worker that drives WGPU queue-completion callbacks away from the
/// paint path.
pub struct WgpuCompletionPoller {
    wake: SyncSender<()>,
}

impl WgpuCompletionPoller {
    /// Whether this poller and `requests` are the two halves of one channel for a single wake.
    pub closed spec fn wakes(&self, requests: Receiver<()>) -> bool {
        call_ensures(sync_channel::<()>, (COMPLETION_WAKE_CAPACITY,), (self.wake, requests))
    }

    /// Whether a wake has been offered to the worker.
    pub closed spec fn requested(&self) -> bool {
        exists|sent: Result<(), TrySendError<()>>|
            call_ensures(SyncSender::<()>::try_send, (&self.wake, ()), sent)
    }

    /// Makes a poller and the wakes that its worker is to receive.
    pub fn channel() -> (halves: (Self, Receiver<()>))
        ensures
            halves.0.wakes(halves.1),
    {
        let (wake, requests) = sync_channel(COMPLETION_WAKE_CAPACITY);
        (WgpuCompletionPoller { wake }, requests)
    }

    /// Offers the worker a wake, and does not wait. A wake that is already queued serves as well.
    pub fn request(&self)
        ensures
            self.requested(),
    {
        let _sent = self.wake.try_send(());
    }
}

impl Clone for WgpuCompletionPoller {
    /// Another poller that wakes the same worker.
    fn clone(&self) -> (poller: Self)
        ensures
            poller == *self,
    {
        WgpuCompletionPoller { wake: self.wake.clone() }
    }
}

/// What the worker is about to do.
#[derive(Clone, Copy, Debug, PartialEq, Eq, Structural)]
pub enum CompletionPhase {
    /// To wait for a wake.
    Waiting,
    /// To let producers settle, for [`COMPLETION_SETTLE_MICROS`].
    Settling,
    /// To poll the device until the work that was submitted is done.
    Polling,
    /// To record that the device is lost.
    Reporting,
    /// To end.
    Stopped,
}

/// What came of what the worker did.
#[derive(Clone, Copy, Debug, PartialEq, Eq, Structural)]
pub enum CompletionEvent {
    /// A wake was received.
    Woken,
    /// Nobody is left to send a wake.
    Closed,
    /// The producers had their time.
    Settled,
    /// The poll succeeded.
    PollSucceeded,
    /// The poll failed.
    PollFailed,
    /// The loss of the device is recorded.
    LossRecorded,
}

impl CompletionPhase {
    /// What the worker does after `event`. An event that does not come of this phase is ignored.
    pub open spec fn spec_after(self, event: CompletionEvent) -> Self {
        match (self, event) {
            (CompletionPhase::Waiting, CompletionEvent::Woken) => CompletionPhase::Settling,
            (CompletionPhase::Waiting, CompletionEvent::Closed) => CompletionPhase::Stopped,
            (CompletionPhase::Settling, CompletionEvent::Settled) => CompletionPhase::Polling,
            (CompletionPhase::Polling, CompletionEvent::PollSucceeded) => CompletionPhase::Waiting,
            (CompletionPhase::Polling, CompletionEvent::PollFailed) => CompletionPhase::Reporting,
            (CompletionPhase::Reporting, CompletionEvent::LossRecorded) => CompletionPhase::Waiting,
            _ => self,
        }
    }

    /// Returns what the worker does after `event`.
    #[verifier::when_used_as_spec(spec_after)]
    pub fn after(self, event: CompletionEvent) -> (phase: Self)
        ensures
            phase == self.after(event),
    {
        match self {
            CompletionPhase::Waiting => match event {
                CompletionEvent::Woken => CompletionPhase::Settling,
                CompletionEvent::Closed => CompletionPhase::Stopped,
                _ => self,
            },
            CompletionPhase::Settling => match event {
                CompletionEvent::Settled => CompletionPhase::Polling,
                _ => self,
            },
            CompletionPhase::Polling => match event {
                CompletionEvent::PollSucceeded => CompletionPhase::Waiting,
                CompletionEvent::PollFailed => CompletionPhase::Reporting,
                _ => self,
            },
            CompletionPhase::Reporting => match event {
                CompletionEvent::LossRecorded => CompletionPhase::Waiting,
                _ => self,
            },
            CompletionPhase::Stopped => self,
        }
    }

    /// A device is reported lost exactly after a poll of it has failed.
    pub proof fn losses_are_reported_exactly_after_failed_polls(self, event: CompletionEvent)
        requires
            self != CompletionPhase::Reporting,
        ensures
            self.after(event) == CompletionPhase::Reporting <==> self == CompletionPhase::Polling
                && event == CompletionEvent::PollFailed,
    {
    }

    /// The worker ends exactly when it waits for a wake and nobody is left to send one; neither a
    /// failed poll nor a lost device ends it.
    pub proof fn the_worker_ends_exactly_when_closed(self, event: CompletionEvent)
        requires
            self != CompletionPhase::Stopped,
        ensures
            self.after(event) == CompletionPhase::Stopped <==> self == CompletionPhase::Waiting
                && event == CompletionEvent::Closed,
    {
    }
}

/// The worker, the wake that is queued for it, and the work that it has to poll for.
pub struct CompletionState {
    /// What the worker is about to do.
    pub phase: CompletionPhase,
    /// Whether a wake is queued.
    pub queued: bool,
    /// The number of submissions that a wake was requested for and no poll has begun after.
    pub unserved: nat,
}

/// A step of the worker or of a producer.
pub enum CompletionStep {
    /// A producer submits work and requests a poll.
    Request,
    /// The worker receives the queued wake.
    Receive,
    /// The worker begins to poll.
    BeginPoll,
    /// The worker goes on after a poll.
    Continue(CompletionEvent),
}

impl CompletionState {
    /// A worker that waits, with nothing to do.
    pub open spec fn initial() -> Self {
        CompletionState { phase: CompletionPhase::Waiting, queued: false, unserved: 0 }
    }

    /// Whether `step` can be taken: a wake can be received where one is queued, and the worker
    /// goes on with what came of the poll or of the report.
    pub open spec fn enables(self, step: CompletionStep) -> bool {
        match step {
            CompletionStep::Request => true,
            CompletionStep::Receive => self.phase == CompletionPhase::Waiting && self.queued,
            CompletionStep::BeginPoll => self.phase == CompletionPhase::Settling,
            CompletionStep::Continue(event) => event == CompletionEvent::PollSucceeded || event
                == CompletionEvent::PollFailed || event == CompletionEvent::LossRecorded,
        }
    }

    /// The state after `step`. A request finds room for its wake or finds one queued; a poll
    /// serves all that was submitted before it begins.
    pub open spec fn after(self, step: CompletionStep) -> Self {
        match step {
            CompletionStep::Request => CompletionState {
                queued: true,
                unserved: self.unserved + 1,
                ..self
            },
            CompletionStep::Receive => CompletionState {
                phase: self.phase.after(CompletionEvent::Woken),
                queued: false,
                ..self
            },
            CompletionStep::BeginPoll => CompletionState {
                phase: self.phase.after(CompletionEvent::Settled),
                unserved: 0,
                ..self
            },
            CompletionStep::Continue(event) => CompletionState {
                phase: self.phase.after(event),
                ..self
            },
        }
    }

    /// Whether threads can take `steps` one after the other, from this state on.
    pub open spec fn enables_all(self, steps: Seq<CompletionStep>) -> bool
        decreases steps.len(),
    {
        steps.len() > 0 ==> {
            &&& self.enables_all(steps.drop_last())
            &&& self.after_all(steps.drop_last()).enables(steps.last())
        }
    }

    /// The state after all of `steps`.
    pub open spec fn after_all(self, steps: Seq<CompletionStep>) -> Self
        decreases steps.len(),
    {
        if steps.len() == 0 {
            self
        } else {
            self.after_all(steps.drop_last()).after(steps.last())
        }
    }
}

/// A single queued wake is enough: as long as a submission waits for its poll, a wake is queued or
/// the worker is about to poll, so no request is lost however the threads interleave.
pub proof fn no_request_is_lost(steps: Seq<CompletionStep>)
    requires
        CompletionState::initial().enables_all(steps),
    ensures
        ({
            let state = CompletionState::initial().after_all(steps);
            state.unserved > 0 ==> state.queued || state.phase == CompletionPhase::Settling
        }),
    decreases steps.len(),
{
    if steps.len() > 0 {
        no_request_is_lost(steps.drop_last());
    }
}

} // verus!
