//! Identity brands: zero-size tokens that tie a handle to the object that owns it.
//!
//! A brand is a lifetime that only [`with`] can introduce. The callback given to
//! [`with`] has to accept every possible brand, so inside it the brand is a
//! lifetime that equals no other: two handles branded by different calls cannot
//! be confused, and no handle can leave the call that branded it.

use std::marker::PhantomData;
use vstd::prelude::*;

verus! {

/// A copyable reference to a brand. It carries the brand into every handle that
/// belongs to the branded object.
#[derive(Copy, Clone)]
pub struct IdRef<'id> {
    _marker: PhantomData<&'id mut &'id ()>,
}

impl<'id> IdRef<'id> {
    /// The one value of this type.
    pub closed spec fn mark() -> IdRef<'id> {
        IdRef { _marker: PhantomData }
    }

    /// A brand reference has no content: every value of the type is the same value.
    pub proof fn lemma_single_value(a: IdRef<'id>, b: IdRef<'id>)
        ensures
            a == b,
    {
    }

    /// A reference to the brand `'id`.
    pub fn new() -> (r: IdRef<'id>)
        ensures
            r == Self::mark(),
    {
        IdRef { _marker: PhantomData }
    }
}

/// The brand itself: a token that is neither `Copy` nor `Clone` and that only
/// [`with`] and [`with2`] can make.
pub struct Id<'id> {
    _marker: IdRef<'id>,
}

impl<'id> Id<'id> {
    /// The one value of this type.
    pub closed spec fn token() -> Id<'id> {
        Id { _marker: IdRef::mark() }
    }

    /// The copyable reference to this brand.
    pub fn as_ref(&self) -> (r: IdRef<'id>)
        ensures
            r == IdRef::<'id>::mark(),
    {
        self._marker
    }
}

/// Mints a fresh brand and calls `func` with it once. The result of `func` is
/// handed back unchanged.
pub fn with<R, F: for<'id> FnOnce(Id<'id>) -> R>(func: F) -> (r: R)
    requires
        func.requires((Id::token(),)),
    ensures
        func.ensures((Id::token(),), r),
{
    func(Id { _marker: IdRef::new() })
}

/// Mints two fresh brands, distinct from each other, and calls `func` with them
/// once.
pub fn with2<R, F: for<'id1, 'id2> FnOnce(Id<'id1>, Id<'id2>) -> R>(func: F) -> (r: R)
    requires
        func.requires((Id::token(), Id::token())),
    ensures
        func.ensures((Id::token(), Id::token()), r),
{
    func(Id { _marker: IdRef::new() }, Id { _marker: IdRef::new() })
}

} // verus!
