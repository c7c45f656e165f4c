//! Phi nodes.

use std::marker::PhantomData;
use vstd::prelude::*;
use crate::id::IdRef;
use crate::inheritance::{DerivesFrom, DowncastFrom};
use crate::llvm::block::{BasicBlock, Label};
use crate::llvm::opcode::Opcode;
use crate::llvm::raw::{RawValue, ValueKind, ValueModel};
use crate::llvm::value::{KindMismatch, Value};
use crate::opaque::{Handle, Misplaced, Opaque};

verus! {

/// A value that is known to be the result of a phi instruction.
pub struct Phi<'cid, 'mid, 'fid, Ty> {
    _context_id: IdRef<'cid>,
    _module_id: IdRef<'mid>,
    _function_id: IdRef<'fid>,
    _type: PhantomData<Ty>,
    block: usize,
    index: usize,
}

impl<'cid, 'mid, 'fid, Ty> Opaque for Phi<'cid, 'mid, 'fid, Ty> {
    closed spec fn handle(&self) -> Handle {
        Handle::Value(ValueModel::Instruction(self.block as nat, self.index as nat, Opcode::Phi))
    }

    fn duplicate(&self) -> (copy: Phi<'cid, 'mid, 'fid, Ty>) {
        Phi::new(self.block, self.index)
    }
}

impl<'cid, 'mid, 'fid, SpecificTy: DerivesFrom<GeneralTy>, GeneralTy: Opaque> DerivesFrom<
    Phi<'cid, 'mid, 'fid, GeneralTy>,
> for Phi<'cid, 'mid, 'fid, SpecificTy> {
    fn widen(&self) -> (general: Phi<'cid, 'mid, 'fid, GeneralTy>) {
        Phi::new(self.block, self.index)
    }
}

impl<'cid, 'mid, 'fid, General: Opaque, Ty> DerivesFrom<General> for Phi<
    'cid,
    'mid,
    'fid,
    Ty,
> where Value<'cid, 'mid, 'fid, Ty>: DerivesFrom<General> {
    fn widen(&self) -> (general: General) {
        self.as_value().widen()
    }
}

impl<'cid, 'mid, 'fid, Ty: DerivesFrom<Ty>> DowncastFrom<Value<'cid, 'mid, 'fid, Ty>> for Phi<
    'cid,
    'mid,
    'fid,
    Ty,
> {
    /// A phi is the result of a phi instruction.
    open spec fn covers(handle: Handle) -> bool {
        handle.value().kind() == ValueKind::Instruction(Opcode::Phi)
    }

    proof fn lemma_covered(&self) {
        self.lemma_kind();
    }

    fn narrow(general: &Value<'cid, 'mid, 'fid, Ty>) -> (outcome: Result<Self, KindMismatch>) {
        Phi::downcast_value(general)
    }
}

impl<'cid, 'mid, 'fid, Ty> Phi<'cid, 'mid, 'fid, Ty> {
    /// The handle of the phi instruction at position `index` of block `block`.
    pub(crate) fn new(block: usize, index: usize) -> (phi: Phi<'cid, 'mid, 'fid, Ty>)
        ensures
            phi.handle() == Handle::Value(
                ValueModel::Instruction(block as nat, index as nat, Opcode::Phi),
            ),
    {
        Phi {
            _context_id: IdRef::new(),
            _module_id: IdRef::new(),
            _function_id: IdRef::new(),
            _type: PhantomData,
            block,
            index,
        }
    }

    /// Every handle of this type names the result of a phi instruction.
    pub proof fn lemma_kind(self)
        ensures
            self.handle() is Value,
            self.handle().value().kind() == ValueKind::Instruction(Opcode::Phi),
    {
    }

    /// A handle of this type is its identity and nothing more.
    pub proof fn lemma_handle_is_all(self, other: Self)
        requires
            self.handle() == other.handle(),
        ensures
            self == other,
    {
        IdRef::lemma_single_value(self._context_id, other._context_id);
        IdRef::lemma_single_value(self._module_id, other._module_id);
        IdRef::lemma_single_value(self._function_id, other._function_id);
    }

    /// Records that the phi takes `value` where control arrives from the block
    /// `label`. `block` is the block that the phi stands in; with another block
    /// nothing changes and the edit fails.
    pub fn add_incoming_branch(
        &self,
        block: &mut BasicBlock<'cid, 'mid, 'fid>,
        value: &Value<'cid, 'mid, 'fid, Ty>,
        label: &Label<'fid>,
    ) -> (outcome: Result<(), Misplaced>)
        ensures
            match outcome {
                Ok(_) => old(block)@.holds(self.handle().value()) && final(block)@ == old(
                    block,
                )@.update(
                    self.handle().value()->Instruction_1 as int,
                    old(block)@.instructions[self.handle().value()->Instruction_1 as int].with_edge(
                        value.handle().value(),
                        label@,
                    ),
                ),
                Err(_) => !old(block)@.holds(self.handle().value()) && final(block)@ == old(
                    block,
                )@,
            },
    {
        if block.as_raw() != self.block {
            return Err(Misplaced);
        }
        match block.opcode_at(self.index) {
            Some(Opcode::Phi) => {
                block.add_edge(self.index, value.as_raw(), label.as_raw());
                Ok(())
            },
            _ => Err(Misplaced),
        }
    }

    /// Narrows a value to a phi: succeeds exactly if the value is the result of
    /// a phi instruction, and then names the same value.
    pub fn downcast_value(value: &Value<'cid, 'mid, 'fid, Ty>) -> (outcome: Result<
        Phi<'cid, 'mid, 'fid, Ty>,
        KindMismatch,
    >)
        ensures
            match outcome {
                Ok(phi) => phi.handle() == value.handle() && value.handle().value().kind()
                    == ValueKind::Instruction(Opcode::Phi),
                Err(mismatch) => mismatch.found == value.handle().value().kind() && mismatch.found
                    != ValueKind::Instruction(Opcode::Phi),
            },
    {
        match value.as_raw() {
            RawValue::Instruction(block, index, Opcode::Phi) => Ok(Phi::new(block, index)),
            other => Err(KindMismatch { found: other.kind() }),
        }
    }

    /// The phi as a plain value.
    pub fn as_value(&self) -> (value: Value<'cid, 'mid, 'fid, Ty>)
        ensures
            value.handle() == self.handle(),
    {
        Value::new(RawValue::Instruction(self.block, self.index, Opcode::Phi))
    }

    /// The identity of the phi, without brands and static type.
    pub fn as_raw(&self) -> (raw: RawValue)
        ensures
            self.handle() == Handle::Value(raw@),
    {
        RawValue::Instruction(self.block, self.index, Opcode::Phi)
    }
}

} // verus!
