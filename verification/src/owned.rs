//! The owning wrapper: one owner for each resource, and one disposal.
//!
//! A resource counts how often it was disposed of. Its owner disposes of it
//! when the owner goes away, which adds one to that count; since an owner is
//! moved and never copied, and goes away once, the count of an owned resource
//! goes from what it was to one more, on whatever path the owner is left.

use vstd::prelude::*;

verus! {

/// The leave to dispose of a resource. Only an [`Owned`] can make one, and it
/// makes one when it goes away: nothing else can call
/// [`DropInPlace::drop_in_place`], so a resource that has an owner is disposed
/// of by its owner and by nothing else.
pub struct Disposal {
    _owner: (),
}

/// A resource that can be disposed of.
pub trait DropInPlace: Sized {
    /// The number of times the resource was disposed of. A resource type says
    /// here how it counts; for a type that does not say, the count stands at 0
    /// and nothing can be shown of its disposal.
    open spec fn disposals(&self) -> nat {
        0
    }

    /// Disposes of the resource: lets go of everything it holds, and counts
    /// the disposal. Disposal cannot fail and cannot be abandoned half way.
    /// `leave` is the leave of the owner that is going away.
    fn drop_in_place(&mut self, leave: Disposal)
        ensures
            final(self).disposals() == old(self).disposals() + 1,
        opens_invariants none
        no_unwind when true
    ;
}

/// The single owner of a resource. It gives access to the resource for as long
/// as it lives and disposes of the resource when it goes away. It is neither
/// `Copy` nor `Clone`: a resource has one owner and is disposed of once.
pub struct Owned<T: DropInPlace> {
    value: T,
}

impl<T: DropInPlace> View for Owned<T> {
    type V = T;

    closed spec fn view(&self) -> T {
        self.value
    }
}

impl<T: DropInPlace> Owned<T> {
    /// Takes ownership of a resource.
    pub fn from_raw(value: T) -> (owned: Owned<T>)
        ensures
            owned@ == value,
    {
        Owned { value }
    }

    /// Disposes of the resource, once.
    fn release(&mut self)
        ensures
            final(self)@.disposals() == old(self)@.disposals() + 1,
        opens_invariants none
        no_unwind
    {
        self.value.drop_in_place(Disposal { _owner: () });
    }
}

impl<T: DropInPlace> Drop for Owned<T> {
    /// Disposes of the resource when its owner goes away, on whatever path:
    /// exactly one disposal more is counted.
    fn drop(&mut self)
        ensures
            final(self)@.disposals() == old(self)@.disposals() + 1,
        opens_invariants none
        no_unwind
    {
        self.release();
    }
}

impl<T: DropInPlace> std::ops::Deref for Owned<T> {
    type Target = T;

    fn deref(&self) -> (resource: &T)
        ensures
            *resource == self@,
    {
        &self.value
    }
}

impl<T: DropInPlace> std::ops::DerefMut for Owned<T> {
    fn deref_mut(&mut self) -> (resource: &mut T)
        ensures
            *resource == old(self)@,
            final(self)@ == *final(resource),
    {
        &mut self.value
    }
}

} // verus!
