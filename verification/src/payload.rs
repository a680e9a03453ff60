//! The backend-owned values that contexts and handles carry without knowing their types, and
//! references to shared values that do not keep them alive.
use std::any::Any;
use std::sync::{Arc, Weak};

use vstd::prelude::*;

use crate::wgpu_context::WgpuExternalContext;

verus! {

/// A value of any type, behind a `Box<dyn Any + Send + Sync>` of the standard library.
#[verifier::external_body]
pub struct Payload {
    value: Box<dyn Any + Send + Sync>,
}

/// Moves a value to the heap by `Box::new` and coerces the box to a trait object. What a payload
/// [`holds`](Payload::holds) is defined by what goes into this function and comes out of it, so
/// nothing has to be claimed of it here.
#[verifier::external_body]
fn box_value<T: Send + Sync + 'static>(value: T) -> Payload {
    Payload { value: Box::new(value) }
}

/// Calls `<dyn std::any::Any>::downcast_ref`, which returns a reference to the value if it is a
/// `T`, and `None` otherwise. A payload comes from [`box_value`] alone. So a value that is found
/// was wrapped as a `T`, and is the only one that was.
///
/// Two things are left unsaid. That a value of one type is not found as another: a contract cannot
/// compare types. And that a value which was wrapped as a `T` is found: the standard library tells
/// `dyn for<'a> Tr<'a>` from `dyn Tr<'static>`, and the verifier, which ignores lifetimes, does
/// not, so this fails of some `T` as the verifier sees them.
#[verifier::external_body]
fn any_downcast_ref<T: Send + Sync + 'static>(payload: &Payload) -> (found: Option<&T>)
    ensures
        found matches Some(value) ==> payload.holds(*value) && forall|other: T|
            payload.holds(other) ==> other == *value,
{
    payload.value.downcast_ref::<T>()
}

/// Calls `<dyn std::any::Any>::downcast_ref` for the payload of the WGPU backend, a type without
/// lifetimes: the value is found exactly if it was wrapped as one, and is then the only one that
/// was.
#[verifier::external_body]
fn any_downcast_wgpu_context(payload: &Payload) -> (found: Option<&WgpuExternalContext>)
    ensures
        match found {
            Some(value) => payload.holds(*value) && forall|other: WgpuExternalContext|
                payload.holds(other) ==> other == *value,
            None => forall|other: WgpuExternalContext| !payload.holds(other),
        },
{
    payload.value.downcast_ref::<WgpuExternalContext>()
}

impl Payload {
    /// Whether this payload is `value`, wrapped as a `T`, where types that differ in lifetimes
    /// alone count as one.
    pub closed spec fn holds<T: Send + Sync + 'static>(&self, value: T) -> bool {
        call_ensures(box_value::<T>, (value,), *self)
    }

    /// Whether `found` is what a search for a `T` in this very payload has found.
    pub closed spec fn finds<T: Send + Sync + 'static>(&self, found: Option<&T>) -> bool {
        call_ensures(any_downcast_ref::<T>, (self,), found)
    }

    /// Wraps a backend-owned value.
    pub(crate) fn new<T: Send + Sync + 'static>(value: T) -> (payload: Payload)
        ensures
            payload.holds(value),
    {
        box_value(value)
    }

    /// The value, if it is a `T`.
    pub(crate) fn downcast_ref<T: Send + Sync + 'static>(&self) -> (found: Option<&T>)
        ensures
            self.finds(found),
            found matches Some(value) ==> self.holds(*value) && forall|other: T|
                self.holds(other) ==> other == *value,
    {
        any_downcast_ref(self)
    }

    /// The value, if it is the payload of the WGPU backend.
    pub(crate) fn downcast_wgpu_context(&self) -> (found: Option<&WgpuExternalContext>)
        ensures
            match found {
                Some(value) => self.holds(*value) && forall|other: WgpuExternalContext|
                    self.holds(other) ==> other == *value,
                None => forall|other: WgpuExternalContext| !self.holds(other),
            },
    {
        any_downcast_wgpu_context(self)
    }
}

/// A reference to a shared value that does not keep it alive: a `std::sync::Weak`.
#[verifier::external_body]
#[verifier::reject_recursive_types(T)]
pub struct WeakRef<T> {
    weak: Weak<T>,
}

/// Calls `std::sync::Arc::downgrade`, which makes a reference to the same allocation that does not
/// own it. What a reference [`refers_to`](WeakRef::refers_to) is defined by what goes into this
/// function and comes out of it, so nothing has to be claimed of it here.
#[verifier::external_body]
fn arc_downgrade<T>(target: &Arc<T>) -> (weak: WeakRef<T>) {
    WeakRef { weak: Arc::downgrade(target) }
}

/// Calls `std::sync::Weak::upgrade`, which returns an owner of the very value that was referred
/// to, or `None` if that value has been dropped. When that is rests on the other owners, so it is
/// left unsaid.
#[verifier::external_body]
fn weak_upgrade<T>(weak: &WeakRef<T>) -> (found: Option<Arc<T>>)
    ensures
        found matches Some(owner) ==> weak.refers_to(owner) && forall|target: Arc<T>|
            weak.refers_to(target) ==> target == owner,
{
    weak.weak.upgrade()
}

/// Calls `std::sync::Weak::strong_count`, which counts the owners of the value that is referred
/// to. How many there are rests on who has dropped theirs, so it is left unsaid.
#[verifier::external_body]
fn weak_strong_count<T>(weak: &WeakRef<T>) -> (owners: usize) {
    weak.weak.strong_count()
}

impl<T> WeakRef<T> {
    /// Whether this is a reference to `target`.
    pub closed spec fn refers_to(&self, target: Arc<T>) -> bool {
        call_ensures(arc_downgrade::<T>, (&target,), *self)
    }

    /// Whether `found` is what an attempt to own the value again has found.
    pub closed spec fn upgrades_to(&self, found: Option<Arc<T>>) -> bool {
        call_ensures(weak_upgrade::<T>, (self,), found)
    }

    /// Whether `owners` is the number of owners that a count of them has found.
    pub closed spec fn counts(&self, owners: usize) -> bool {
        call_ensures(weak_strong_count::<T>, (self,), owners)
    }

    /// Makes a reference to `target` that does not keep it alive.
    pub(crate) fn new(target: &Arc<T>) -> (weak: WeakRef<T>)
        ensures
            weak.refers_to(*target),
    {
        arc_downgrade(target)
    }

    /// Becomes an owner of the value again, if it has not been dropped.
    pub(crate) fn upgrade(&self) -> (found: Option<Arc<T>>)
        ensures
            self.upgrades_to(found),
            found matches Some(owner) ==> self.refers_to(owner) && forall|target: Arc<T>|
                self.refers_to(target) ==> target == owner,
    {
        weak_upgrade(self)
    }

    /// Counts the owners of the value.
    pub(crate) fn strong_count(&self) -> (owners: usize)
        ensures
            self.counts(owners),
    {
        weak_strong_count(self)
    }
}

impl<T> Clone for WeakRef<T> {
    /// Calls `std::sync::Weak::clone`, which makes another reference to the same allocation: what
    /// holds of the one holds of the other.
    #[verifier::external_body]
    fn clone(&self) -> (weak: Self)
        ensures
            weak == *self,
    {
        WeakRef { weak: self.weak.clone() }
    }
}

} // verus!
