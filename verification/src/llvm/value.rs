//! Value handles.

use std::marker::PhantomData;
use vstd::prelude::*;
use crate::id::IdRef;
use crate::inheritance::DerivesFrom;
use crate::llvm::raw::{RawValue, ValueKind};
use crate::opaque::{Handle, Opaque};

verus! {

/// The failure of a checked downcast: the value is not of the kind asked for.
#[derive(Clone, Copy, Debug, PartialEq, Eq, Structural)]
pub struct KindMismatch {
    /// The kind that the value has.
    pub found: ValueKind,
}

/// A value of the function `'fid` of the module `'mid` of the context `'cid`,
/// whose type is named by a handle of type `Ty`.
pub struct Value<'cid, 'mid, 'fid, Ty> {
    _context_id: IdRef<'cid>,
    _module_id: IdRef<'mid>,
    _function_id: IdRef<'fid>,
    _type: PhantomData<Ty>,
    raw: RawValue,
}

impl<'cid, 'mid, 'fid, Ty> Opaque for Value<'cid, 'mid, 'fid, Ty> {
    closed spec fn handle(&self) -> Handle {
        Handle::Value(self.raw@)
    }

    fn duplicate(&self) -> (copy: Value<'cid, 'mid, 'fid, Ty>) {
        Value::new(self.raw.duplicate())
    }
}

impl<'cid, 'mid, 'fid, SpecificTy: DerivesFrom<GeneralTy>, GeneralTy: Opaque> DerivesFrom<
    Value<'cid, 'mid, 'fid, GeneralTy>,
> for Value<'cid, 'mid, 'fid, SpecificTy> {
    fn widen(&self) -> (general: Value<'cid, 'mid, 'fid, GeneralTy>) {
        Value::new(self.raw.duplicate())
    }
}

impl<'cid, 'mid, 'fid, Ty> Value<'cid, 'mid, 'fid, Ty> {
    /// The handle of static type `Ty` that names the value `raw`.
    pub(crate) fn new(raw: RawValue) -> (value: Value<'cid, 'mid, 'fid, Ty>)
        ensures
            value.handle() == Handle::Value(raw@),
    {
        Value {
            _context_id: IdRef::new(),
            _module_id: IdRef::new(),
            _function_id: IdRef::new(),
            _type: PhantomData,
            raw,
        }
    }

    /// The identity of the value, without brands and static type.
    pub fn as_raw(&self) -> (raw: RawValue)
        ensures
            self.handle() == Handle::Value(raw@),
    {
        self.raw.duplicate()
    }

    /// The dynamic kind of the value.
    pub fn kind(&self) -> (kind: ValueKind)
        ensures
            self.handle() matches Handle::Value(v) && kind == v.kind(),
    {
        self.raw.kind()
    }

    /// Whether two handles have the same identity, whatever their static
    /// types: two parameters, two results of instructions, two globals or two
    /// functions are compared by their places, two constants by the way they
    /// were made.
    pub fn same<OtherTy>(&self, other: &Value<'cid, 'mid, 'fid, OtherTy>) -> (equal: bool)
        ensures
            equal == (self.handle() == other.handle()),
    {
        self.raw.same(&other.raw)
    }
}

} // verus!
