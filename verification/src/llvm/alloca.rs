//! Stack allocations.

use std::marker::PhantomData;
use vstd::prelude::*;
use crate::id::IdRef;
use crate::inheritance::{DerivesFrom, DowncastFrom};
use crate::llvm::block::BasicBlock;
use crate::llvm::opcode::Opcode;
use crate::llvm::raw::{RawValue, ValueKind, ValueModel};
use crate::llvm::ty::PointerType;
use crate::llvm::value::{KindMismatch, Value};
use crate::opaque::{Handle, Misplaced, Opaque};

verus! {

/// A value that is known to be the result of a stack allocation of a `Ty`. As a
/// value it is a pointer to `Ty`.
pub struct Alloca<'cid, 'mid, 'fid, Ty> {
    _context_id: IdRef<'cid>,
    _module_id: IdRef<'mid>,
    _function_id: IdRef<'fid>,
    _type: PhantomData<Ty>,
    block: usize,
    index: usize,
    array: bool,
}

/// Whether a value of kind `kind` is the result of a stack allocation.
pub open spec fn is_alloca(kind: ValueKind) -> bool {
    kind == ValueKind::Instruction(Opcode::Alloca) || kind == ValueKind::Instruction(
        Opcode::ArrayAlloca,
    )
}

/// The operation of a stack allocation, of one object or of an array.
pub open spec fn alloca_opcode(array: bool) -> Opcode {
    if array {
        Opcode::ArrayAlloca
    } else {
        Opcode::Alloca
    }
}

impl<'cid, 'mid, 'fid, Ty> Opaque for Alloca<'cid, 'mid, 'fid, Ty> {
    closed spec fn handle(&self) -> Handle {
        Handle::Value(
            ValueModel::Instruction(
                self.block as nat,
                self.index as nat,
                alloca_opcode(self.array),
            ),
        )
    }

    fn duplicate(&self) -> (copy: Alloca<'cid, 'mid, 'fid, Ty>) {
        Alloca::new(self.block, self.index, self.array)
    }
}

impl<'cid, 'mid, 'fid, SpecificTy: DerivesFrom<GeneralTy>, GeneralTy: Opaque> DerivesFrom<
    Alloca<'cid, 'mid, 'fid, GeneralTy>,
> for Alloca<'cid, 'mid, 'fid, SpecificTy> {
    fn widen(&self) -> (general: Alloca<'cid, 'mid, 'fid, GeneralTy>) {
        Alloca::new(self.block, self.index, self.array)
    }
}

impl<'cid, 'mid, 'fid, General: Opaque, Ty> DerivesFrom<General> for Alloca<
    'cid,
    'mid,
    'fid,
    Ty,
> where Value<'cid, 'mid, 'fid, PointerType<'cid, Ty>>: DerivesFrom<General> {
    fn widen(&self) -> (general: General) {
        self.as_value().widen()
    }
}

impl<'cid, 'mid, 'fid, Ty: DerivesFrom<Ty>> DowncastFrom<
    Value<'cid, 'mid, 'fid, PointerType<'cid, Ty>>,
> for Alloca<'cid, 'mid, 'fid, Ty> {
    /// A stack allocation is the result of an allocation of one object or of an
    /// array.
    open spec fn covers(handle: Handle) -> bool {
        is_alloca(handle.value().kind())
    }

    proof fn lemma_covered(&self) {
        self.lemma_kind();
    }

    fn narrow(general: &Value<'cid, 'mid, 'fid, PointerType<'cid, Ty>>) -> (outcome: Result<
        Self,
        KindMismatch,
    >) {
        Alloca::downcast_value(general)
    }
}

impl<'cid, 'mid, 'fid, Ty> Alloca<'cid, 'mid, 'fid, Ty> {
    /// The handle of the allocation at position `index` of block `block`.
    pub(crate) fn new(block: usize, index: usize, array: bool) -> (alloca: Alloca<
        'cid,
        'mid,
        'fid,
        Ty,
    >)
        ensures
            alloca.handle() == Handle::Value(
                ValueModel::Instruction(block as nat, index as nat, alloca_opcode(array)),
            ),
    {
        Alloca {
            _context_id: IdRef::new(),
            _module_id: IdRef::new(),
            _function_id: IdRef::new(),
            _type: PhantomData,
            block,
            index,
            array,
        }
    }

    /// Every handle of this type names the result of a stack allocation.
    pub proof fn lemma_kind(self)
        ensures
            self.handle() is Value,
            is_alloca(self.handle().value().kind()),
    {
    }

    /// A handle of this type is its identity and nothing more.
    pub proof fn lemma_handle_is_all(self, other: Self)
        requires
            self.handle() == other.handle(),
        ensures
            self == other,
    {
        IdRef::lemma_single_value(self._context_id, other._context_id);
        IdRef::lemma_single_value(self._module_id, other._module_id);
        IdRef::lemma_single_value(self._function_id, other._function_id);
    }

    /// Asks for the allocation to be aligned to `alignment` bytes. `block` is
    /// the block that the allocation stands in; with another block nothing
    /// changes and the edit fails.
    pub fn set_alignment(&self, block: &mut BasicBlock<'cid, 'mid, 'fid>, alignment: u32) -> (outcome:
        Result<(), Misplaced>)
        ensures
            match outcome {
                Ok(_) => old(block)@.holds(self.handle().value()) && final(block)@ == old(
                    block,
                )@.update(
                    self.handle().value()->Instruction_1 as int,
                    old(block)@.instructions[self.handle().value()->Instruction_1 as int].with_alignment(
                    alignment as nat),
                ),
                Err(_) => !old(block)@.holds(self.handle().value()) && final(block)@ == old(
                    block,
                )@,
            },
    {
        if block.as_raw() != self.block {
            return Err(Misplaced);
        }
        let expected = if self.array {
            Opcode::ArrayAlloca
        } else {
            Opcode::Alloca
        };
        match block.opcode_at(self.index) {
            Some(opcode) => {
                if opcode == expected {
                    block.set_alignment_at(self.index, alignment);
                    Ok(())
                } else {
                    Err(Misplaced)
                }
            },
            None => Err(Misplaced),
        }
    }

    /// Narrows a value to a stack allocation: succeeds exactly if the value is
    /// the result of one, and then names the same value.
    pub fn downcast_value(value: &Value<'cid, 'mid, 'fid, PointerType<'cid, Ty>>) -> (outcome:
        Result<Alloca<'cid, 'mid, 'fid, Ty>, KindMismatch>)
        ensures
            match outcome {
                Ok(alloca) => alloca.handle() == value.handle() && is_alloca(
                    value.handle().value().kind(),
                ),
                Err(mismatch) => mismatch.found == value.handle().value().kind() && !is_alloca(
                    mismatch.found,
                ),
            },
    {
        match value.as_raw() {
            RawValue::Instruction(block, index, Opcode::Alloca) => Ok(
                Alloca::new(block, index, false),
            ),
            RawValue::Instruction(block, index, Opcode::ArrayAlloca) => Ok(
                Alloca::new(block, index, true),
            ),
            other => Err(KindMismatch { found: other.kind() }),
        }
    }

    /// The allocation as a plain value: a pointer to what was allocated.
    pub fn as_value(&self) -> (value: Value<'cid, 'mid, 'fid, PointerType<'cid, Ty>>)
        ensures
            value.handle() == self.handle(),
    {
        Value::new(self.as_raw())
    }

    /// The identity of the allocation, without brands and static type.
    pub fn as_raw(&self) -> (raw: RawValue)
        ensures
            self.handle() == Handle::Value(raw@),
    {
        if self.array {
            RawValue::Instruction(self.block, self.index, Opcode::ArrayAlloca)
        } else {
            RawValue::Instruction(self.block, self.index, Opcode::Alloca)
        }
    }
}

} // verus!
