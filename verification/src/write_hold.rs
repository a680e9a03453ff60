//! The hold of one write on the access word of a texture.
use std::sync::Arc;

use vstd::prelude::*;

#[allow(unused_imports)]
use crate::access::AccessStep;
use crate::access::ExternalTextureAccess;
use crate::rights::EndedHold;

verus! {

/// The hold of one write on the access word. Only an admitted write makes one, it cannot be
/// copied, and the step that releases the write ends it.
pub struct WriteHold {
    access: Arc<ExternalTextureAccess>,
    active: bool,
}

impl WriteHold {
    /// The access word in which the write is reserved.
    pub closed spec fn access(&self) -> Arc<ExternalTextureAccess> {
        self.access
    }

    /// Whether the write is still reserved.
    pub closed spec fn spec_is_active(&self) -> bool {
        self.active
    }

    /// The hold of a write that was admitted where the word was `found`.
    pub(crate) fn granted(access: Arc<ExternalTextureAccess>, found: u64) -> (hold: Self)
        requires
            access.answers(AccessStep::ReserveWrite, Ok(found)),
        ensures
            hold.access() == access,
            hold.is_active(),
        opens_invariants none
        no_unwind
    {
        WriteHold { access, active: true }
    }

    /// Returns whether the write is still reserved.
    #[verifier::when_used_as_spec(spec_is_active)]
    pub fn is_active(&self) -> (active: bool)
        ensures
            active == self.is_active(),
        opens_invariants none
        no_unwind
    {
        self.active
    }

    /// Marks the write as no longer reserved by this hold.
    pub(crate) fn deactivate(&mut self)
        ensures
            !final(self).is_active(),
            final(self).access() == old(self).access(),
        opens_invariants none
        no_unwind
    {
        self.active = false;
    }

    /// Gives the write back.
    pub(crate) fn release(&mut self)
        requires
            old(self).is_active(),
        ensures
            !final(self).is_active(),
            final(self).access() == old(self).access(),
            old(self).access().decides(AccessStep::ReleaseWrite, true),
        opens_invariants none
        no_unwind
    {
        let ended = EndedHold::of(self);
        self.access.release_write(ended);
    }
}

impl Drop for WriteHold {
    /// Gives the write back, unless it has been given back.
    fn drop(&mut self)
        ensures
            !final(self).is_active(),
            old(self).is_active() ==> old(self).access().decides(AccessStep::ReleaseWrite, true),
        opens_invariants none
        no_unwind
    {
        if self.active {
            self.release();
        }
    }
}

} // verus!
