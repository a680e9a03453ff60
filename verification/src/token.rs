//! The token that ties external GPU resources to one device and one recovery generation.
use vstd::prelude::*;
use vstd::string::*;

use crate::text::append_decimal;
#[allow(unused_imports)]
use crate::text::decimal;

verus! {

/// Identifies one GPU device and its recovery generation.
///
/// External GPU resources are only valid while this token matches the token
/// exposed by the window that will present them. Device recovery increments
/// the generation so clients can discard resources created on the lost device.
#[derive(Clone, Copy, Debug, PartialEq, Eq, Hash, Structural)]
pub struct ExternalGpuDeviceToken {
    identity: u64,
    generation: u64,
}

impl ExternalGpuDeviceToken {
    /// The token of `identity` in its recovery generation `generation`.
    pub closed spec fn spec_new(identity: u64, generation: u64) -> Self {
        ExternalGpuDeviceToken { identity, generation }
    }

    /// The stable identity of the device context.
    pub closed spec fn spec_identity(self) -> u64 {
        self.identity
    }

    /// The recovery generation of the device context.
    pub closed spec fn spec_generation(self) -> u64 {
        self.generation
    }

    /// The same identity, one recovery later; the last generation has no successor and stays.
    pub open spec fn spec_next_generation(self) -> Self {
        Self::spec_new(
            self.identity(),
            if self.generation() == u64::MAX {
                u64::MAX
            } else {
                (self.generation() + 1) as u64
            },
        )
    }

    /// The debug text of a token.
    pub open spec fn shown(self) -> Seq<char> {
        "ExternalGpuDeviceToken { identity: "@ + decimal(self.identity() as nat) + ", generation: "@
            + decimal(self.generation() as nat) + " }"@
    }

    /// Creates a device token. Platform renderers should allocate identities
    /// that are unique for the lifetime of the process.
    #[verifier::when_used_as_spec(spec_new)]
    pub fn new(identity: u64, generation: u64) -> (token: Self)
        ensures
            token == Self::new(identity, generation),
            token.identity() == identity,
            token.generation() == generation,
    {
        ExternalGpuDeviceToken { identity, generation }
    }

    /// Returns the stable identity of the shared device context.
    #[verifier::when_used_as_spec(spec_identity)]
    pub fn identity(self) -> (identity: u64)
        ensures
            identity == self.identity(),
    {
        self.identity
    }

    /// Returns the current device-recovery generation.
    #[verifier::when_used_as_spec(spec_generation)]
    pub fn generation(self) -> (generation: u64)
        ensures
            generation == self.generation(),
    {
        self.generation
    }

    /// Returns this identity's next recovery generation.
    #[verifier::when_used_as_spec(spec_next_generation)]
    pub fn next_generation(self) -> (token: Self)
        ensures
            token == self.next_generation(),
            token.identity() == self.identity(),
            token.generation() == if self.generation() == u64::MAX {
                u64::MAX as int
            } else {
                self.generation() + 1
            },
    {
        ExternalGpuDeviceToken {
            identity: self.identity,
            generation: self.generation.saturating_add(1),
        }
    }

    /// Appends the debug text of this token.
    pub(crate) fn append_debug_text(self, text: &mut String)
        ensures
            final(text)@ == old(text)@ + self.shown(),
    {
        text.append("ExternalGpuDeviceToken { identity: ");
        append_decimal(text, self.identity);
        text.append(", generation: ");
        append_decimal(text, self.generation);
        text.append(" }");
        assert(text@ == old(text)@ + self.shown());
    }

    /// A token is what [`Self::new`] makes of its identity and its generation.
    pub proof fn token_is_its_parts(self, identity: u64, generation: u64)
        ensures
            Self::new(identity, generation).identity() == identity,
            Self::new(identity, generation).generation() == generation,
            Self::new(self.identity(), self.generation()) == self,
    {
    }

    /// Two tokens match exactly if they name the same device in the same generation.
    pub proof fn tokens_match_by_parts(self, other: Self)
        ensures
            self == other <==> self.identity() == other.identity() && self.generation()
                == other.generation(),
    {
    }

    /// Recovery keeps the device and invalidates what was made before it: the new token differs
    /// from the old one in every generation but the last.
    pub proof fn recovery_changes_the_token(self)
        requires
            self.generation() < u64::MAX,
        ensures
            self.next_generation() != self,
            self.next_generation().identity() == self.identity(),
            self.next_generation().generation() > self.generation(),
    {
    }

    /// The token after `recoveries` recoveries.
    pub open spec fn recovered(self, recoveries: nat) -> Self
        decreases recoveries,
    {
        if recoveries == 0 {
            self
        } else {
            self.recovered((recoveries - 1) as nat).next_generation()
        }
    }

    /// No number of recoveries brings an earlier generation back: the generation counts the
    /// recoveries, up to the largest one.
    pub proof fn generations_count_recoveries(self, recoveries: nat)
        ensures
            self.recovered(recoveries).identity() == self.identity(),
            self.recovered(recoveries).generation() == if self.generation() + recoveries
                <= u64::MAX {
                self.generation() + recoveries
            } else {
                u64::MAX as int
            },
        decreases recoveries,
    {
        if recoveries > 0 {
            self.generations_count_recoveries((recoveries - 1) as nat);
        }
    }
}

} // verus!
