//! The atomic stage of one sample: who may submit it, and who gives it back.
//!
//! The stage is out of reach of every other module. It is changed by [`update_stage`] alone,
//! against a right that the step uses up, and every function that could change it promises not to
//! unwind and to open no invariant, which no operation of the standard library's atomics does.
use std::sync::atomic::{AtomicU8, Ordering};

use vstd::prelude::*;

use crate::rights::{ClaimSpent, LastHolder};

verus! {

/// The stage of a sample that a scene holds and no submission has claimed.
pub const SAMPLE_PENDING: u8 = 0;

/// The stage of a sample that one compositor submission has claimed.
pub const SAMPLE_SUBMITTED: u8 = 1;

/// The stage of a sample that has been given back.
pub const SAMPLE_COMPLETE: u8 = 2;

/// A change of the stage of a sample.
#[derive(Clone, Copy, Debug, PartialEq, Eq, Structural)]
pub enum SampleStep {
    /// From pending to submitted; refused in any other stage.
    Claim,
    /// To complete, whatever the stage.
    Complete,
    /// None: refused in every stage, with the stage that was found as the answer.
    Look,
}

impl SampleStep {
    /// The stage that this step leaves behind where it finds `stage`, if it is admitted there.
    pub open spec fn next(self, stage: u8) -> Option<u8> {
        match self {
            SampleStep::Claim => if stage == SAMPLE_PENDING {
                Some(SAMPLE_SUBMITTED)
            } else {
                None
            },
            SampleStep::Complete => Some(SAMPLE_COMPLETE),
            SampleStep::Look => None,
        }
    }

    /// Whether `answer` can be the answer to this step: the stage that was found, as `Ok` exactly
    /// if the step is admitted there.
    pub open spec fn fits(self, answer: Result<u8, u8>) -> bool {
        match answer {
            Ok(found) => self.next(found) is Some,
            Err(found) => self.next(found) is None,
        }
    }

    /// Computes the stage that this step leaves behind where it finds `stage`, or `None` where
    /// the step is refused.
    pub fn apply(self, stage: u8) -> (next: Option<u8>)
        ensures
            next == self.next(stage),
        opens_invariants none
        no_unwind
    {
        match self {
            SampleStep::Claim => {
                if stage == SAMPLE_PENDING {
                    Some(SAMPLE_SUBMITTED)
                } else {
                    None
                }
            },
            SampleStep::Complete => Some(SAMPLE_COMPLETE),
            SampleStep::Look => None,
        }
    }
}

/// The right to complete a sample: of the submission that has claimed it, or of the last holder.
pub enum CompletionRight {
    /// Of the submission, when it ends.
    Submission(ClaimSpent),
    /// Of the last holder.
    Last(LastHolder),
}

/// The right to take one step on a stage. It cannot be copied, and the step uses it up.
pub enum StageRight {
    /// To claim, which the stage itself refuses to all but the first.
    Claim,
    /// To complete.
    Complete(CompletionRight),
    /// To look, which changes nothing.
    Look,
}

impl StageRight {
    /// The step that this is the right to.
    pub open spec fn spec_step(&self) -> SampleStep {
        match *self {
            StageRight::Claim => SampleStep::Claim,
            StageRight::Complete(_) => SampleStep::Complete,
            StageRight::Look => SampleStep::Look,
        }
    }

    /// Returns the step that this is the right to.
    #[verifier::when_used_as_spec(spec_step)]
    pub fn step(&self) -> (step: SampleStep)
        ensures
            step == self.step(),
        opens_invariants none
        no_unwind
    {
        match self {
            StageRight::Claim => SampleStep::Claim,
            StageRight::Complete(_) => SampleStep::Complete,
            StageRight::Look => SampleStep::Look,
        }
    }

    /// Computes the stage that the step leaves behind where it finds `stage`, or `None` where the
    /// step is refused.
    fn apply(&self, stage: u8) -> (next: Option<u8>)
        ensures
            next == self.step().next(stage),
        opens_invariants none
        no_unwind
    {
        self.step().apply(stage)
    }
}

/// Takes one step on the stage of a sample, at once with respect to every other step.
///
/// Calls `std::sync::atomic::AtomicU8::fetch_update`, which applies a function to the stage until
/// no other thread interferes, and returns the stage that it found: as `Ok` where the function
/// gave a new stage, which it has then stored, and as `Err` where the function gave none. Which
/// stage is found rests on the other threads, so nothing more is said of it.
#[verifier::external_body]
fn update_stage(stage: &AtomicU8, right: StageRight) -> (answer: Result<u8, u8>)
    ensures
        right.step().fits(answer),
    opens_invariants none
    no_unwind
{
    stage.fetch_update(Ordering::AcqRel, Ordering::Acquire, |found| right.apply(found))
}

/// The stage of one sample, shared by all who hold the sample.
pub struct SampleStage {
    state: AtomicU8,
}

/// The one release that the first completion of a sample owes. It comes from that completion
/// alone, cannot be copied, and is used up by the release.
pub struct OwedRelease {
    found: u8,
}

impl OwedRelease {
    /// Whether this release is owed by a completion of `stage` that did not find it complete.
    pub closed spec fn is_owed_by(&self, stage: SampleStage) -> bool {
        &&& stage.answers(SampleStep::Complete, Ok(self.found))
        &&& self.found != SAMPLE_COMPLETE
    }
}

impl SampleStage {
    /// Whether this stage was made as `stage`.
    pub closed spec fn starts_in(&self, stage: u8) -> bool {
        call_ensures(AtomicU8::new, (stage,), self.state)
    }

    /// Whether `stage` is one that a look at this very stage has found.
    pub closed spec fn reads(&self, stage: u8) -> bool {
        self.answers(SampleStep::Look, Err(stage))
    }

    /// Whether `answer` is one that `step` has given on this very stage.
    pub closed spec fn answers(&self, step: SampleStep, answer: Result<u8, u8>) -> bool {
        exists|right: StageRight|
            right.step() == step && #[trigger] call_ensures(
                update_stage,
                (&self.state, right),
                answer,
            )
    }

    /// Whether `step` has been taken on this very stage and was admitted, or refused, as
    /// `admitted` says: there is an answer to it that says the same, truly of the stage that it
    /// found.
    pub open spec fn decides(&self, step: SampleStep, admitted: bool) -> bool {
        exists|answer: Result<u8, u8>|
            {
                &&& #[trigger] self.answers(step, answer)
                &&& step.fits(answer)
                &&& admitted <==> answer is Ok
            }
    }

    /// Whether this very stage has been completed, and was or was not complete before, as `first`
    /// says.
    pub open spec fn completes(&self, first: bool) -> bool {
        exists|found: u8|
            {
                &&& #[trigger] self.answers(SampleStep::Complete, Ok(found))
                &&& first <==> found != SAMPLE_COMPLETE
            }
    }

    /// Makes the stage of a new sample.
    pub(crate) fn new(stage: u8) -> (made: Self)
        ensures
            made.starts_in(stage),
    {
        SampleStage { state: AtomicU8::new(stage) }
    }

    /// Looks at the stage.
    pub(crate) fn load(&self) -> (stage: u8)
        ensures
            self.reads(stage),
        opens_invariants none
        no_unwind
    {
        let right = StageRight::Look;
        assert(right.step() == SampleStep::Look);
        match update_stage(&self.state, right) {
            Ok(found) => found,
            Err(found) => found,
        }
    }

    /// Claims a pending sample, and returns whether it was pending.
    pub(crate) fn claim(&self) -> (claimed: bool)
        ensures
            self.decides(SampleStep::Claim, claimed),
        opens_invariants none
        no_unwind
    {
        let right = StageRight::Claim;
        assert(right.step() == SampleStep::Claim);
        let answer = update_stage(&self.state, right);
        assert(self.answers(SampleStep::Claim, answer));
        match answer {
            Ok(_) => true,
            Err(_) => false,
        }
    }

    /// Completes the sample, and returns the release that this owes, exactly if the sample was not
    /// complete before.
    pub(crate) fn complete(&self, right: CompletionRight) -> (owed: Option<OwedRelease>)
        ensures
            self.completes(owed is Some),
            owed matches Some(release) ==> release.is_owed_by(*self),
        opens_invariants none
        no_unwind
    {
        let right = StageRight::Complete(right);
        assert(right.step() == SampleStep::Complete);
        match update_stage(&self.state, right) {
            Ok(found) => {
                assert(self.answers(SampleStep::Complete, Ok(found)));
                if found != SAMPLE_COMPLETE {
                    Some(OwedRelease { found })
                } else {
                    None
                }
            },
            Err(_) => None,
        }
    }
}

} // verus!
