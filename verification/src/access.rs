//! The atomic word by which the samples and the writes of one texture exclude each other.
//!
//! The highest bit of the word is set while a write is reserved. The other bits count the samples
//! that are reserved. A step that would mix the two, or overflow the count, is refused.
//!
//! The word itself is out of reach of every other module. Within this one it is changed by
//! [`update_word`] alone, against a right that the step uses up, and every function that could
//! change it promises not to unwind and to open no invariant, which no operation of the standard
//! library's atomics does. So a function takes as many steps as it is given rights.
use std::sync::atomic::{AtomicU64, Ordering};
use std::sync::Arc;

use vstd::prelude::*;

use crate::ids::{number_after, IssueRight};
use crate::reserve::Attempt;
use crate::rights::EndedHold;
use crate::sample::ExternalTextureSampleReservationInner;
use crate::stage::{OwedRelease, SampleStage};
use crate::write_hold::WriteHold;

verus! {

pub const EXTERNAL_TEXTURE_WRITE_RESERVED: u64 = 1 << 63;

pub const EXTERNAL_TEXTURE_SAMPLE_COUNT: u64 = !EXTERNAL_TEXTURE_WRITE_RESERVED;

/// The word of a texture that nobody has reserved.
pub const EXTERNAL_TEXTURE_IDLE: u64 = 0;

/// The weight of the write bit.
pub open spec fn write_bit() -> nat {
    0x8000_0000_0000_0000
}

/// The largest number of samples that one word can count.
pub open spec fn max_samples() -> nat {
    0x7fff_ffff_ffff_ffff
}

/// Whether the word says that a write is reserved.
pub open spec fn write_reserved(word: u64) -> bool {
    word >= write_bit()
}

/// The number of samples that the word says are reserved.
pub open spec fn sample_count(word: u64) -> nat {
    if write_reserved(word) {
        (word - write_bit()) as nat
    } else {
        word as nat
    }
}

/// A change of the word of a texture.
#[derive(Clone, Copy, Debug, PartialEq, Eq, Structural)]
pub enum AccessStep {
    /// One more sample, unless a write is reserved or the count is full.
    ReserveSample,
    /// The write, unless anything is reserved.
    ReserveWrite,
    /// One sample less.
    ReleaseSample,
    /// No write any more.
    ReleaseWrite,
}

impl AccessStep {
    /// The word that this step leaves behind where it finds `word`, if it is admitted there.
    pub open spec fn next(self, word: u64) -> Option<u64> {
        match self {
            AccessStep::ReserveSample => if write_reserved(word) || sample_count(word)
                == max_samples() {
                None
            } else {
                Some((word + 1) as u64)
            },
            AccessStep::ReserveWrite => if word == EXTERNAL_TEXTURE_IDLE {
                Some(write_bit() as u64)
            } else {
                None
            },
            AccessStep::ReleaseSample => Some(
                if word == 0 {
                    u64::MAX
                } else {
                    (word - 1) as u64
                },
            ),
            AccessStep::ReleaseWrite => Some(sample_count(word) as u64),
        }
    }

    /// Whether `answer` can be the answer to this step: the word that was found, as `Ok` exactly
    /// if the step is admitted there.
    pub open spec fn fits(self, answer: Result<u64, u64>) -> bool {
        match answer {
            Ok(found) => self.next(found) is Some,
            Err(found) => self.next(found) is None,
        }
    }

    /// Computes the word that this step leaves behind where it finds `word`, or `None` where the
    /// step is refused.
    pub fn apply(self, word: u64) -> (next: Option<u64>)
        ensures
            next == self.next(word),
        opens_invariants none
        no_unwind
    {
        proof {
            lemma_word_bits(word);
        }
        match self {
            AccessStep::ReserveSample => {
                if word & EXTERNAL_TEXTURE_WRITE_RESERVED != 0 || word
                    & EXTERNAL_TEXTURE_SAMPLE_COUNT == EXTERNAL_TEXTURE_SAMPLE_COUNT {
                    None
                } else {
                    Some(word + 1)
                }
            },
            AccessStep::ReserveWrite => {
                if word == EXTERNAL_TEXTURE_IDLE {
                    Some(EXTERNAL_TEXTURE_WRITE_RESERVED)
                } else {
                    None
                }
            },
            AccessStep::ReleaseSample => Some(
                if word == 0 {
                    u64::MAX
                } else {
                    word - 1
                },
            ),
            AccessStep::ReleaseWrite => Some(word & !EXTERNAL_TEXTURE_WRITE_RESERVED),
        }
    }
}

/// A reservation changes only its own part of the word: a sample that is admitted adds one to the
/// count and leaves no write reserved, and a write that is admitted leaves a write and no sample.
pub proof fn reservations_change_only_their_part(word: u64)
    ensures
        AccessStep::ReserveSample.next(word) matches Some(reserved) ==> sample_count(reserved)
            == sample_count(word) + 1 && !write_reserved(reserved) && !write_reserved(word),
        AccessStep::ReserveWrite.next(word) matches Some(reserved) ==> write_reserved(reserved)
            && sample_count(reserved) == 0 && !write_reserved(word) && sample_count(word) == 0,
{
}

/// A write is refused where anything is reserved, and a sample where a write is.
pub proof fn reservations_are_refused_where_they_would_mix(word: u64)
    ensures
        sample_count(word) > 0 || write_reserved(word) ==> AccessStep::ReserveWrite.next(
            word,
        ) is None,
        write_reserved(word) ==> AccessStep::ReserveSample.next(word) is None,
{
}

/// A release undoes a reservation: it leaves the word as the reservation found it.
pub proof fn releases_undo_reservations(word: u64)
    ensures
        AccessStep::ReserveSample.next(word) matches Some(reserved)
            ==> AccessStep::ReleaseSample.next(reserved) == Some(word),
        AccessStep::ReserveWrite.next(word) matches Some(reserved)
            ==> AccessStep::ReleaseWrite.next(reserved) == Some(word),
{
}

/// A release changes only what it releases: where samples are counted it takes one off and
/// reserves no write, and where a write is reserved it keeps the count.
pub proof fn releases_change_only_their_part(word: u64)
    ensures
        sample_count(word) > 0 ==> (AccessStep::ReleaseSample.next(word) matches Some(released)
            && sample_count(released) == sample_count(word) - 1 && write_reserved(released)
            == write_reserved(word)),
        AccessStep::ReleaseWrite.next(word) matches Some(released) && sample_count(released)
            == sample_count(word) && !write_reserved(released),
{
}

/// The bits of a word, as numbers.
proof fn lemma_word_bits(word: u64)
    ensures
        EXTERNAL_TEXTURE_WRITE_RESERVED == write_bit(),
        EXTERNAL_TEXTURE_SAMPLE_COUNT == max_samples(),
        word & EXTERNAL_TEXTURE_WRITE_RESERVED != 0 <==> write_reserved(word),
        word & EXTERNAL_TEXTURE_SAMPLE_COUNT == sample_count(word),
        word & !EXTERNAL_TEXTURE_WRITE_RESERVED == sample_count(word),
{
    assert(1u64 << 63 == 0x8000_0000_0000_0000u64) by (bit_vector);
    assert(!0x8000_0000_0000_0000u64 == 0x7fff_ffff_ffff_ffffu64) by (bit_vector);
    assert(word & 0x8000_0000_0000_0000u64 != 0 <==> word >= 0x8000_0000_0000_0000u64)
        by (bit_vector);
    assert(word & 0x7fff_ffff_ffff_ffffu64 == if word >= 0x8000_0000_0000_0000u64 {
        word - 0x8000_0000_0000_0000u64
    } else {
        word as int
    }) by (bit_vector);
}

/// The right to change a word once. It cannot be copied, and the change uses it up.
pub enum WordRight {
    /// To reserve, for one attempt.
    Reserve(Attempt),
    /// To give a sample back that its first completion owes.
    ReleaseSample(OwedRelease),
    /// To give a write back whose hold has ended.
    ReleaseWrite(EndedHold),
    /// To issue an identifier.
    Issue(IssueRight),
}

impl WordRight {
    /// Whether this is the right to take `step`.
    pub open spec fn permits(&self, step: AccessStep) -> bool {
        match *self {
            WordRight::Reserve(attempt) => attempt.step() == step,
            WordRight::ReleaseSample(_) => step == AccessStep::ReleaseSample,
            WordRight::ReleaseWrite(_) => step == AccessStep::ReleaseWrite,
            WordRight::Issue(_) => false,
        }
    }

    /// The word that the change leaves behind where it finds `word`, if it is admitted there.
    pub open spec fn next(&self, word: u64) -> Option<u64> {
        match *self {
            WordRight::Reserve(attempt) => attempt.step().next(word),
            WordRight::ReleaseSample(_) => AccessStep::ReleaseSample.next(word),
            WordRight::ReleaseWrite(_) => AccessStep::ReleaseWrite.next(word),
            WordRight::Issue(_) => Some(number_after(word)),
        }
    }

    /// Whether `answer` can be the answer to the change: the word that was found, as `Ok` exactly
    /// if the change is admitted there.
    pub open spec fn fits(&self, answer: Result<u64, u64>) -> bool {
        match answer {
            Ok(found) => self.next(found) is Some,
            Err(found) => self.next(found) is None,
        }
    }

    /// Computes the word that the change leaves behind where it finds `word`, or `None` where it
    /// is refused.
    fn apply(&self, word: u64) -> (next: Option<u64>)
        ensures
            next == self.next(word),
        opens_invariants none
        no_unwind
    {
        match self {
            WordRight::Reserve(attempt) => attempt.step().apply(word),
            WordRight::ReleaseSample(_) => AccessStep::ReleaseSample.apply(word),
            WordRight::ReleaseWrite(_) => AccessStep::ReleaseWrite.apply(word),
            WordRight::Issue(_) => Some(
                if word == u64::MAX {
                    0
                } else {
                    word + 1
                },
            ),
        }
    }
}

/// Changes a word once, as `right` says, at once with respect to every other change.
///
/// Calls `std::sync::atomic::AtomicU64::fetch_update`, which applies a function to the word until
/// no other thread interferes, and returns the word that it found: as `Ok` where the function
/// gave a new word, which it has then stored, and as `Err` where the function gave none. Which
/// word is found rests on the other threads, so nothing more is said of it.
#[verifier::external_body]
pub(crate) fn update_word(word: &AtomicU64, right: WordRight) -> (answer: Result<u64, u64>)
    ensures
        right.fits(answer),
    opens_invariants none
    no_unwind
{
    word.fetch_update(Ordering::AcqRel, Ordering::Acquire, |found| right.apply(found))
}

/// The access word of one texture, shared by its handles and its reservations.
pub struct ExternalTextureAccess {
    state: AtomicU64,
}

impl ExternalTextureAccess {
    /// Whether the word was made with nothing reserved.
    pub closed spec fn starts_idle(&self) -> bool {
        call_ensures(AtomicU64::new, (EXTERNAL_TEXTURE_IDLE,), self.state)
    }

    /// Whether `answer` is one that `step` has given on this very word.
    pub closed spec fn answers(&self, step: AccessStep, answer: Result<u64, u64>) -> bool {
        exists|right: WordRight|
            right.permits(step) && #[trigger] call_ensures(
                update_word,
                (&self.state, right),
                answer,
            )
    }

    /// Whether `step` has been taken on this very word and was admitted, or refused, as `admitted`
    /// says: there is an answer to it that says the same, truly of the word that it found.
    pub open spec fn decides(&self, step: AccessStep, admitted: bool) -> bool {
        exists|answer: Result<u64, u64>|
            {
                &&& #[trigger] self.answers(step, answer)
                &&& step.fits(answer)
                &&& admitted <==> answer is Ok
            }
    }

    /// Takes the one step of `attempt`, and counts a sample in `stage` if it is admitted.
    pub(crate) fn reserve_sample(
        self: &Arc<Self>,
        stage: SampleStage,
        attempt: Attempt,
    ) -> (reserved: Option<ExternalTextureSampleReservationInner>)
        requires
            attempt.step() == AccessStep::ReserveSample,
        ensures
            self.decides(AccessStep::ReserveSample, reserved is Some),
            reserved matches Some(sample) ==> sample.access() == *self && sample.stage() == stage,
        opens_invariants none
        no_unwind
    {
        let right = WordRight::Reserve(attempt);
        assert(right.permits(AccessStep::ReserveSample));
        let answer = update_word(&self.state, right);
        assert(self.answers(AccessStep::ReserveSample, answer));
        match answer {
            Ok(found) => Some(
                ExternalTextureSampleReservationInner::counted(Arc::clone(self), stage, found),
            ),
            Err(_) => None,
        }
    }

    /// Takes the one step of `attempt`, and holds the write if it is admitted.
    pub(crate) fn reserve_write(self: &Arc<Self>, attempt: Attempt) -> (reserved: Option<WriteHold>)
        requires
            attempt.step() == AccessStep::ReserveWrite,
        ensures
            self.decides(AccessStep::ReserveWrite, reserved is Some),
            reserved matches Some(hold) ==> hold.access() == *self && hold.is_active(),
        opens_invariants none
        no_unwind
    {
        let right = WordRight::Reserve(attempt);
        assert(right.permits(AccessStep::ReserveWrite));
        let answer = update_word(&self.state, right);
        assert(self.answers(AccessStep::ReserveWrite, answer));
        match answer {
            Ok(found) => Some(WriteHold::granted(Arc::clone(self), found)),
            Err(_) => None,
        }
    }

    /// Gives one reserved sample back: a sample that this word counts, against the release that
    /// its first completion owes.
    pub(crate) fn release_sample(
        &self,
        sample: &ExternalTextureSampleReservationInner,
        owed: OwedRelease,
    )
        requires
            *sample.access() == *self,
            owed.is_owed_by(sample.stage()),
        ensures
            self.decides(AccessStep::ReleaseSample, true),
        opens_invariants none
        no_unwind
    {
        let right = WordRight::ReleaseSample(owed);
        assert(right.permits(AccessStep::ReleaseSample));
        let answer = update_word(&self.state, right);
        assert(self.answers(AccessStep::ReleaseSample, answer));
    }

    /// Gives the reserved write back, against the hold of it that has ended.
    pub(crate) fn release_write(&self, ended: EndedHold)
        requires
            *ended.access() == *self,
        ensures
            self.decides(AccessStep::ReleaseWrite, true),
        opens_invariants none
        no_unwind
    {
        let right = WordRight::ReleaseWrite(ended);
        assert(right.permits(AccessStep::ReleaseWrite));
        let answer = update_word(&self.state, right);
        assert(self.answers(AccessStep::ReleaseWrite, answer));
    }
}

impl Default for ExternalTextureAccess {
    /// The word of a texture that nobody has reserved.
    fn default() -> (access: Self)
        ensures
            access.starts_idle(),
    {
        ExternalTextureAccess { state: AtomicU64::new(EXTERNAL_TEXTURE_IDLE) }
    }
}

} // verus!
