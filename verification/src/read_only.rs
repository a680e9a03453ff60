//! Shared flags that can be looked at and not changed.
use std::sync::atomic::{AtomicBool, Ordering};
use std::sync::Arc;

use vstd::prelude::*;

verus! {

/// What it is to look at a flag.
pub trait Flag {
    /// Whether `set` is what a look at this very flag has found.
    spec fn reads(&self, set: bool) -> bool;
}

impl Flag for AtomicBool {
    /// A look at an atomic flag is a relaxed load of it.
    open spec fn reads(&self, set: bool) -> bool {
        call_ensures(AtomicBool::load, (self, Ordering::Relaxed), set)
    }
}

/// Whether `look` does nothing but look: what it finds is exactly what a look finds. Of a function
/// it can be shown one way alone, that what it returns satisfies its contract. So the other way
/// leaves no function but the one that [`Flag::reads`] speaks of.
pub open spec fn only_looks<T: Flag, L: Fn(&T, Ordering) -> bool>(look: L) -> bool {
    &&& forall|flag: &T| call_requires(look, (flag, Ordering::Relaxed))
    &&& forall|flag: &T, set: bool|
        call_ensures(look, (flag, Ordering::Relaxed), set) <==> #[trigger] flag.reads(set)
}

/// A load does nothing but look.
pub proof fn loads_only_look()
    ensures
        only_looks::<AtomicBool, _>(AtomicBool::load),
{
}

/// A shared flag that can only be looked at. Nothing is known of its type but how to look at it,
/// so nothing else can be done to it.
pub struct ReadOnly<T> {
    flag: Arc<T>,
}

impl<T: Flag> ReadOnly<T> {
    /// The flag.
    pub closed spec fn flag(&self) -> Arc<T> {
        self.flag
    }

    /// Shares a flag for looking at.
    pub(crate) fn new(flag: Arc<T>) -> (shared: Self)
        ensures
            shared.flag() == flag,
        opens_invariants none
        no_unwind
    {
        ReadOnly { flag }
    }

    /// Looks at the flag.
    pub(crate) fn look<L: Fn(&T, Ordering) -> bool>(&self, look: L) -> (set: bool)
        requires
            only_looks::<T, L>(look),
        ensures
            self.flag().reads(set),
    {
        look(&self.flag, Ordering::Relaxed)
    }

    /// Another share of the same flag.
    pub(crate) fn share(&self) -> (shared: Self)
        ensures
            shared == *self,
        opens_invariants none
        no_unwind
    {
        ReadOnly { flag: Arc::clone(&self.flag) }
    }
}

} // verus!
