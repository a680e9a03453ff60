//! The identifiers that tell textures apart, and the source that issues them.
//!
//! The counter of a source is out of reach of every other module, and is changed by
//! [`update_word`] alone.
use std::sync::atomic::AtomicU64;

use vstd::prelude::*;
use vstd::string::*;

use crate::access::{update_word, WordRight};
use crate::text::append_decimal;
#[allow(unused_imports)]
use crate::text::decimal;

verus! {

/// A process-local identifier for an externally owned texture.
#[derive(Clone, Copy, Debug, PartialEq, Eq, Hash, PartialOrd, Ord, Structural)]
pub struct ExternalTextureId(u64);

impl ExternalTextureId {
    /// The number of this identifier.
    pub closed spec fn spec_as_u64(self) -> u64 {
        self.0
    }

    /// The debug text of an identifier.
    pub open spec fn shown(self) -> Seq<char> {
        "ExternalTextureId("@ + decimal(self.as_u64() as nat) + ")"@
    }

    /// Returns the numeric process-local identifier.
    #[verifier::when_used_as_spec(spec_as_u64)]
    pub fn as_u64(self) -> (number: u64)
        ensures
            number == self.as_u64(),
    {
        self.0
    }

    /// Appends the debug text of this identifier.
    pub(crate) fn append_debug_text(self, text: &mut String)
        ensures
            final(text)@ == old(text)@ + self.shown(),
    {
        text.append("ExternalTextureId(");
        append_decimal(text, self.0);
        text.append(")");
        assert(text@ == old(text)@ + self.shown());
    }

    /// Two identifiers are the same exactly if their numbers are.
    pub proof fn identifiers_match_by_number(self, other: Self)
        ensures
            self == other <==> self.as_u64() == other.as_u64(),
    {
    }
}

/// The number of the first identifier.
pub const FIRST_EXTERNAL_TEXTURE_ID: u64 = 1;

/// The right to issue one identifier. Only a source makes one, and it cannot be copied.
pub struct IssueRight {
    once: bool,
}

/// The source of texture identifiers. A process keeps one, and shares it.
pub struct ExternalTextureIds {
    next: AtomicU64,
}

impl ExternalTextureIds {
    /// Whether the counter was made with the first identifier as the next one.
    pub closed spec fn starts_at_first(&self) -> bool {
        call_ensures(AtomicU64::new, (FIRST_EXTERNAL_TEXTURE_ID,), self.next)
    }

    /// Whether `number` is what the counter held when one was added to it.
    pub closed spec fn counts(&self, number: u64) -> bool {
        exists|right: WordRight|
            right is Issue && #[trigger] call_ensures(
                update_word,
                (&self.next, right),
                Ok::<u64, u64>(number),
            )
    }

    /// Whether `id` was issued by this very source.
    pub open spec fn issues(&self, id: ExternalTextureId) -> bool {
        self.counts(id.as_u64())
    }

    /// Makes a source that has issued nothing.
    pub fn new() -> (ids: Self)
        ensures
            ids.starts_at_first(),
    {
        ExternalTextureIds { next: AtomicU64::new(FIRST_EXTERNAL_TEXTURE_ID) }
    }

    /// Issues the next identifier.
    pub fn issue(&self) -> (id: ExternalTextureId)
        ensures
            self.issues(id),
        opens_invariants none
        no_unwind
    {
        let right = WordRight::Issue(IssueRight { once: true });
        assert(right is Issue);
        match update_word(&self.next, right) {
            Ok(number) => ExternalTextureId(number),
            Err(number) => ExternalTextureId(number),
        }
    }
}

/// The number that an atomic addition of one leaves behind where it finds `number`.
pub open spec fn number_after(number: u64) -> u64 {
    if number == u64::MAX {
        0
    } else {
        (number + 1) as u64
    }
}

/// What a counter that starts with the first number holds after `issued` additions, each of which
/// finds what the one before it has left.
pub open spec fn counter_after(issued: nat) -> u64
    decreases issued,
{
    if issued == 0 {
        FIRST_EXTERNAL_TEXTURE_ID
    } else {
        number_after(counter_after((issued - 1) as nat))
    }
}

/// A counter that starts with the first number runs through all of them.
pub proof fn counter_counts_up(issued: nat)
    ensures
        counter_after(issued) == (FIRST_EXTERNAL_TEXTURE_ID + issued) % (u64::MAX + 1),
    decreases issued,
{
    if issued > 0 {
        counter_counts_up((issued - 1) as nat);
    }
}

/// A counter that one is added to again and again does not hold a number twice before it has
/// been through all of them.
pub proof fn issued_numbers_differ(earlier: nat, later: nat)
    requires
        earlier < later,
        later - earlier <= u64::MAX,
    ensures
        counter_after(earlier) != counter_after(later),
{
    counter_counts_up(earlier);
    counter_counts_up(later);
    let size = u64::MAX + 1;
    let a = FIRST_EXTERNAL_TEXTURE_ID + earlier;
    let b = FIRST_EXTERNAL_TEXTURE_ID + later;
    if a % size == b % size {
        vstd::arithmetic::div_mod::lemma_fundamental_div_mod(a, size);
        vstd::arithmetic::div_mod::lemma_fundamental_div_mod(b, size);
        let turns = b / size - a / size;
        assert(b - a == size * turns) by (nonlinear_arith)
            requires
                b - a == size * (b / size) - size * (a / size),
                turns == b / size - a / size,
        ;
        assert(turns >= 1 || turns <= 0);
    }
}

/// Before the counter has been through all numbers, a later addition finds a greater one, and none
/// finds zero.
pub proof fn issued_numbers_grow(earlier: nat, later: nat)
    requires
        earlier < later,
        FIRST_EXTERNAL_TEXTURE_ID + later <= u64::MAX,
    ensures
        FIRST_EXTERNAL_TEXTURE_ID <= counter_after(earlier) < counter_after(later),
{
    counter_counts_up(earlier);
    counter_counts_up(later);
}

} // verus!
