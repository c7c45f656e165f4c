//! The derives-from relation between handle types, widening along it, and
//! narrowing against it.
//!
//! A handle type derives from another if every object that the first can name,
//! the second can name too. Widening changes the static type of a handle and
//! nothing else: the handle that comes out names the object that went in.
//! Narrowing goes the other way and has to look: it succeeds exactly if the
//! object is of the kind that the narrower type stands for.

use vstd::prelude::*;
use crate::llvm::value::KindMismatch;
use crate::opaque::{Handle, Opaque};

verus! {

/// `Self` derives from `Ancestor`: a handle of type `Self` can be widened to one
/// of type `Ancestor`.
pub trait DerivesFrom<Ancestor: Opaque>: Opaque {
    /// The same handle under the more general type.
    fn widen(&self) -> (general: Ancestor)
        ensures
            general.handle() == self.handle(),
    ;
}

/// Marks the derivations that also hold element by element, for a sequence of
/// handles.
pub trait DerivesFromSized<Ancestor: Opaque>: DerivesFrom<Ancestor> {

}

impl<Specific: DerivesFrom<General>, General: Opaque> DerivesFromSized<General> for Specific {

}

/// `Self` derives from `General`, and whether an object that `General` names is
/// one that `Self` names can be told from the dynamic kind of the object.
pub trait DowncastFrom<General: Opaque>: DerivesFrom<General> {
    /// Whether the object of identity `handle` is of the kind that `Self` stands
    /// for.
    spec fn covers(handle: Handle) -> bool;

    /// Every handle of type `Self` names an object of the kind that `Self`
    /// stands for.
    proof fn lemma_covered(&self)
        ensures
            Self::covers(self.handle()),
    ;

    /// The same handle under the narrower type, if the object is of its kind;
    /// else the kind that the object has.
    fn narrow(general: &General) -> (outcome: Result<Self, KindMismatch>)
        ensures
            match outcome {
                Ok(specific) => Self::covers(general.handle()) && specific.handle()
                    == general.handle(),
                Err(mismatch) => !Self::covers(general.handle()) && mismatch.found
                    == general.handle().value().kind(),
            },
    ;
}

/// Widens a handle. The result names the same object as `object`.
pub fn upcast<Specific: DerivesFrom<General>, General: Opaque>(object: &Specific) -> (general:
    General)
    ensures
        general.handle() == object.handle(),
{
    object.widen()
}

/// Narrows a handle after a look at the dynamic kind of the object. Succeeds
/// exactly if the object is of the kind that `Specific` stands for, and then
/// names the same object as `object`; fails with the kind that the object has.
pub fn downcast_checked<Specific: DowncastFrom<General>, General: Opaque>(object: &General) -> (outcome:
    Result<Specific, KindMismatch>)
    ensures
        match outcome {
            Ok(specific) => Specific::covers(object.handle()) && specific.handle()
                == object.handle(),
            Err(mismatch) => !Specific::covers(object.handle()) && mismatch.found
                == object.handle().value().kind(),
        },
{
    Specific::narrow(object)
}

/// Widens each handle of a sequence, keeping the order.
pub fn upcast_all<Specific: DerivesFromSized<General>, General: Opaque>(
    objects: &[Specific],
) -> (generals: Vec<General>)
    ensures
        generals.len() == objects.len(),
        forall|i: int|
            0 <= i < objects.len() ==> (#[trigger] generals[i]).handle() == objects[i].handle(),
{
    let mut generals: Vec<General> = Vec::new();
    let mut i: usize = 0;
    while i < objects.len()
        invariant
            i <= objects.len(),
            generals.len() == i,
            forall|k: int| 0 <= k < i ==> (#[trigger] generals[k]).handle() == objects[k].handle(),
        decreases objects.len() - i,
    {
        generals.push(objects[i].widen());
        i += 1;
    }
    generals
}

/// Widening keeps handles apart and keeps them together: two widened handles
/// name the same object exactly if the handles they came from do.
pub proof fn lemma_upcast_preserves_identity<Specific: DerivesFrom<General>, General: Opaque>(
    v: Specific,
    w: Specific,
    wide_v: General,
    wide_w: General,
)
    requires
        call_ensures(upcast::<Specific, General>, (&v,), wide_v),
        call_ensures(upcast::<Specific, General>, (&w,), wide_w),
    ensures
        wide_v.handle() == v.handle(),
        wide_w.handle() == w.handle(),
        (wide_v.handle() == wide_w.handle()) <==> (v.handle() == w.handle()),
{
}

/// Widening in two steps gives the handle that widening in one step gives.
pub proof fn lemma_upcast_composes<Specific, Middle, General>(
    v: Specific,
    middle: Middle,
    by_steps: General,
    at_once: General,
) where
    Specific: DerivesFrom<Middle> + DerivesFrom<General>,
    Middle: DerivesFrom<General>,
    General: Opaque,

    requires
        call_ensures(upcast::<Specific, Middle>, (&v,), middle),
        call_ensures(upcast::<Middle, General>, (&middle,), by_steps),
        call_ensures(upcast::<Specific, General>, (&v,), at_once),
    ensures
        by_steps.handle() == at_once.handle(),
        by_steps.handle() == v.handle(),
{
}

/// Narrowing what was widened succeeds and gives a handle to the same object.
pub proof fn lemma_downcast_of_upcast<Specific: DowncastFrom<General>, General: Opaque>(
    v: Specific,
    wide: General,
    back: Result<Specific, KindMismatch>,
)
    requires
        call_ensures(upcast::<Specific, General>, (&v,), wide),
        call_ensures(downcast_checked::<Specific, General>, (&wide,), back),
    ensures
        back matches Ok(narrow) && narrow.handle() == v.handle(),
{
    v.lemma_covered();
}

/// Narrowing to a type of another kind fails: where the handle came from a type
/// whose kind excludes that of `Other`, narrowing it to `Other` gives a
/// mismatch that names the kind of the object.
pub proof fn lemma_downcast_to_other_kind<Specific, Other, General>(
    v: Specific,
    wide: General,
    back: Result<Other, KindMismatch>,
) where
    Specific: DowncastFrom<General>,
    Other: DowncastFrom<General>,
    General: Opaque,

    requires
        call_ensures(upcast::<Specific, General>, (&v,), wide),
        call_ensures(downcast_checked::<Other, General>, (&wide,), back),
        forall|handle: Handle| !(Specific::covers(handle) && Other::covers(handle)),
    ensures
        back matches Err(mismatch) && mismatch.found == v.handle().value().kind(),
{
    v.lemma_covered();
}

/// Widening a handle to its own type changes nothing.
pub proof fn lemma_upcast_idempotent<Specific: DerivesFrom<Specific>>(
    v: Specific,
    once: Specific,
    twice: Specific,
)
    requires
        call_ensures(upcast::<Specific, Specific>, (&v,), once),
        call_ensures(upcast::<Specific, Specific>, (&once,), twice),
    ensures
        twice.handle() == once.handle(),
        once.handle() == v.handle(),
{
}

} // verus!
