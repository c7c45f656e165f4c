//! The context: the root of the ownership tree.

use vstd::prelude::*;
use crate::id::{Id, IdRef};
use crate::owned::{Disposal, DropInPlace, Owned};

verus! {

/// A context. Types and constants are made against a context and carry its
/// brand; modules and builders live inside it.
pub struct Context<'cid> {
    _id: Id<'cid>,
    disposals: Ghost<nat>,
}

impl<'cid> DropInPlace for Context<'cid> {
    closed spec fn disposals(&self) -> nat {
        self.disposals@
    }

    /// A context holds nothing of its own: its disposal is counted and that is
    /// all.
    fn drop_in_place(&mut self, leave: Disposal) {
        proof {
            self.disposals@ = self.disposals@ + 1;
        }
    }
}

impl<'cid> Context<'cid> {
    /// The context that the brand `id` stands for, not disposed of.
    pub closed spec fn of(id: Id<'cid>) -> Context<'cid> {
        Context { _id: id, disposals: Ghost(0) }
    }

    /// Makes the context that the brand `_id` stands for. The brand is used up:
    /// no second context can carry it.
    pub fn new(_id: Id<'cid>) -> (context: Owned<Context<'cid>>)
        ensures
            context@ == Context::of(_id),
            context@.disposals() == 0,
    {
        Owned::from_raw(Context { _id, disposals: Ghost(0) })
    }

    /// The brand of this context, for the handles made against it.
    pub fn brand(&self) -> (brand: IdRef<'cid>)
        ensures
            brand == IdRef::<'cid>::mark(),
    {
        self._id.as_ref()
    }
}

} // verus!
