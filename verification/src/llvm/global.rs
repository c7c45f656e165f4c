//! Globals.

use std::marker::PhantomData;
use vstd::prelude::*;
use crate::id::IdRef;
use crate::inheritance::{DerivesFrom, DowncastFrom};
use crate::llvm::constant::Constant;
use crate::llvm::module::{GlobalModel, ModuleBuilder};
use crate::llvm::raw::{RawValue, ValueKind, ValueModel};
use crate::llvm::ty::PointerType;
use crate::llvm::value::{KindMismatch, Value};
use crate::opaque::{Handle, Misplaced, Opaque};

verus! {

/// A value that is known to be a global of the module `'mid` that holds a `Ty`.
/// As a value it is a pointer to `Ty`.
pub struct Global<'cid, 'mid, Ty> {
    _context_id: IdRef<'cid>,
    _module_id: IdRef<'mid>,
    _type: PhantomData<Ty>,
    index: usize,
}

impl<'cid, 'mid, Ty> Opaque for Global<'cid, 'mid, Ty> {
    closed spec fn handle(&self) -> Handle {
        Handle::Value(ValueModel::Global(self.index as nat))
    }

    fn duplicate(&self) -> (copy: Global<'cid, 'mid, Ty>) {
        Global::new(self.index)
    }
}

impl<'cid, 'mid, SpecificTy: DerivesFrom<GeneralTy>, GeneralTy: Opaque> DerivesFrom<
    Global<'cid, 'mid, GeneralTy>,
> for Global<'cid, 'mid, SpecificTy> {
    fn widen(&self) -> (general: Global<'cid, 'mid, GeneralTy>) {
        Global::new(self.index)
    }
}

impl<'cid, 'mid, 'fid, General: Opaque, Ty> DerivesFrom<General> for Global<'cid, 'mid, Ty> where
    Value<'cid, 'mid, 'fid, PointerType<'cid, Ty>>: DerivesFrom<General>,
 {
    fn widen(&self) -> (general: General) {
        let value: Value<'cid, 'mid, 'fid, PointerType<'cid, Ty>> = self.as_value();
        value.widen()
    }
}

impl<'cid, 'mid, 'fid, Ty: DerivesFrom<Ty>> DowncastFrom<
    Value<'cid, 'mid, 'fid, PointerType<'cid, Ty>>,
> for Global<'cid, 'mid, Ty> {
    /// A global is a global of the module.
    open spec fn covers(handle: Handle) -> bool {
        handle.value().kind() == ValueKind::Global
    }

    proof fn lemma_covered(&self) {
        self.lemma_kind();
    }

    fn narrow(general: &Value<'cid, 'mid, 'fid, PointerType<'cid, Ty>>) -> (outcome: Result<
        Self,
        KindMismatch,
    >) {
        Global::downcast_value(general)
    }
}

impl<'cid, 'mid, Ty> Global<'cid, 'mid, Ty> {
    /// The handle of the global at position `index`.
    pub(crate) fn new(index: usize) -> (global: Global<'cid, 'mid, Ty>)
        ensures
            global.handle() == Handle::Value(ValueModel::Global(index as nat)),
    {
        Global { _context_id: IdRef::new(), _module_id: IdRef::new(), _type: PhantomData, index }
    }

    /// Every handle of this type names a global.
    pub proof fn lemma_kind(self)
        ensures
            self.handle() is Value,
            self.handle().value().kind() == ValueKind::Global,
    {
    }

    /// A handle of this type is its identity and nothing more.
    pub proof fn lemma_handle_is_all(self, other: Self)
        requires
            self.handle() == other.handle(),
        ensures
            self == other,
    {
        IdRef::lemma_single_value(self._context_id, other._context_id);
        IdRef::lemma_single_value(self._module_id, other._module_id);
    }

    /// Gives the global the constant `value` to start with. `module` is the
    /// module that the global belongs to; with another module that has no
    /// global at this position nothing changes and the edit fails.
    pub fn set_initializer(&self, module: &mut ModuleBuilder<'cid, 'mid, '_>, value: &Constant<
        'cid,
        Ty,
    >) -> (outcome: Result<(), Misplaced>)
        ensures
            *final(final(module).symbols) == *final(old(module).symbols),
            match outcome {
                Ok(_) => {
                    &&& self.handle().value() matches ValueModel::Global(position)
                    &&& position < old(module).symbols@.globals.len()
                    &&& value.handle().value() matches ValueModel::Constant(constant)
                    &&& final(module).symbols@ == old(module).symbols@.with_global_at(
                        position as int,
                        GlobalModel {
                            initializer: Some(constant),
                            ..old(module).symbols@.globals[position as int]
                        },
                    )
                },
                Err(_) => {
                    &&& self.handle().value() matches ValueModel::Global(position)
                    &&& position >= old(module).symbols@.globals.len()
                    &&& final(module).symbols@ == old(module).symbols@
                },
            },
    {
        match value.as_raw() {
            RawValue::Constant(shape) => module.set_initializer_at(self.index, shape),
            _ => {
                proof {
                    value.lemma_kind();
                }
                Err(Misplaced)
            },
        }
    }

    /// Narrows a value to a global: succeeds exactly if the value is a global,
    /// and then names the same value.
    pub fn downcast_value<'fid>(value: &Value<'cid, 'mid, 'fid, PointerType<'cid, Ty>>) -> (outcome:
        Result<Global<'cid, 'mid, Ty>, KindMismatch>)
        ensures
            match outcome {
                Ok(global) => global.handle() == value.handle() && value.handle().value().kind()
                    == ValueKind::Global,
                Err(mismatch) => mismatch.found == value.handle().value().kind() && mismatch.found
                    != ValueKind::Global,
            },
    {
        match value.as_raw() {
            RawValue::Global(index) => Ok(Global::new(index)),
            other => Err(KindMismatch { found: other.kind() }),
        }
    }

    /// The global as a plain value of any function of its module: a pointer to
    /// what the global holds.
    pub fn as_value<'fid>(&self) -> (value: Value<'cid, 'mid, 'fid, PointerType<'cid, Ty>>)
        ensures
            value.handle() == self.handle(),
    {
        Value::new(RawValue::Global(self.index))
    }

    /// The identity of the global, without brands and static type.
    pub fn as_raw(&self) -> (raw: RawValue)
        ensures
            self.handle() == Handle::Value(raw@),
    {
        RawValue::Global(self.index)
    }
}

} // verus!
