//! The instruction builder.
//!
//! A [`Builder`] is a cursor. It starts out unpositioned and cannot insert: it
//! has no operation that does. Positioned at the end of a block it becomes a
//! [`PositionedBuilder`], and each of that builder's operations appends exactly
//! one instruction to the block and hands back the value that the instruction
//! computes. Nothing is checked of the
//! instructions themselves: a block may be given a second terminator, and it is
//! left to the code generator to refuse it.

use std::marker::PhantomData;
use vstd::prelude::*;
use crate::inheritance::DerivesFrom;
use crate::llvm::alloca::Alloca;
use crate::llvm::block::{BasicBlock, Label};
use crate::llvm::context::Context;
use crate::llvm::instruction::{count, raw_views, Instruction, InstructionModel};
use crate::llvm::opcode::{BinaryOp, CastOp, Opcode, UnaryOp};
use crate::llvm::phi::Phi;
use crate::llvm::raw::{RawValue, ValueModel};
use crate::llvm::shape::TypeShape;
use crate::llvm::ty::{FunctionType, IntegerType, PointerType, Type};
use crate::llvm::value::Value;
use crate::opaque::{Handle, Opaque};
use crate::owned::{Disposal, DropInPlace, Owned};

verus! {

/// An instruction builder of the context `'cid`. By itself it is positioned
/// nowhere and has no operation that inserts.
pub struct Builder<'cid, 'context> {
    _context: PhantomData<&'context Context<'cid>>,
    disposals: Ghost<nat>,
}

impl<'cid, 'context> DropInPlace for Builder<'cid, 'context> {
    closed spec fn disposals(&self) -> nat {
        self.disposals@
    }

    /// A builder holds nothing of its own: its disposal is counted and that is
    /// all.
    fn drop_in_place(&mut self, leave: Disposal) {
        proof {
            self.disposals@ = self.disposals@ + 1;
        }
    }
}

impl<'cid, 'context> Builder<'cid, 'context> {
    /// The builder as it is made: not disposed of.
    pub closed spec fn unpositioned() -> Builder<'cid, 'context> {
        Builder { _context: PhantomData, disposals: Ghost(0) }
    }

    /// Makes an unpositioned builder in `context`.
    pub fn new(context: &'context Context<'cid>) -> (builder: Owned<Builder<'cid, 'context>>)
        ensures
            builder@ == Builder::<'cid, 'context>::unpositioned(),
            builder@.disposals() == 0,
    {
        Owned::from_raw(Builder { _context: PhantomData, disposals: Ghost(0) })
    }

    /// Positions the builder at the end of `block`. The block and the builder
    /// are left as they are; what the positioned builder inserts goes behind
    /// what the block holds.
    pub fn position_at_end<'mid, 'fid, 'block>(
        &'block mut self,
        block: &'block mut BasicBlock<'cid, 'mid, 'fid>,
    ) -> (positioned: PositionedBuilder<'cid, 'context, 'mid, 'fid, 'block>)
        ensures
            *positioned.block == *old(block),
            *positioned.builder == *old(self),
            *final(block) == *final(positioned.block),
            *final(self) == *final(positioned.builder),
    {
        PositionedBuilder { builder: self, block }
    }
}

/// A builder that is positioned at the end of a block of the function `'fid`.
///
/// It is no more than the builder together with the block: the position is the
/// block that the positioned builder holds, and the builder keeps no record of
/// it. To write the two down as a struct is to position the builder.
pub struct PositionedBuilder<'cid, 'context, 'mid, 'fid, 'block> {
    /// The builder, borrowed for as long as it is positioned.
    pub builder: &'block mut Builder<'cid, 'context>,
    /// The block that the builder inserts into.
    pub block: &'block mut BasicBlock<'cid, 'mid, 'fid>,
}

/// The values that a list of handles names.
pub open spec fn values_named<'cid, 'mid, 'fid, Ty>(
    values: Seq<&Value<'cid, 'mid, 'fid, Ty>>,
) -> Seq<ValueModel> {
    Seq::new(values.len(), |i: int| values[i].handle().value())
}

/// The raw handles of a list of values, in order.
fn raw_list<'cid, 'mid, 'fid, Ty>(values: &[&Value<'cid, 'mid, 'fid, Ty>]) -> (list: Vec<RawValue>)
    ensures
        raw_views(list@) == values_named(values@),
{
    let mut list: Vec<RawValue> = Vec::new();
    let mut i: usize = 0;
    while i < values.len()
        invariant
            i <= values.len(),
            list.len() == i,
            forall|k: int| 0 <= k < i ==> (#[trigger] list[k])@ == values[k].handle().value(),
        decreases values.len() - i,
    {
        list.push(values[i].as_raw());
        i += 1;
    }
    proof {
        assert(raw_views(list@) =~= values_named(values@));
    }
    list
}

/// The shape of the type that `ty` names.
fn shape_of<'cid, Ty: DerivesFrom<Type<'cid>>>(ty: &Ty) -> (shape: TypeShape)
    ensures
        shape@ == ty.handle().shape(),
{
    let root: Type<'cid> = ty.widen();
    root.as_raw()
}

impl<'cid, 'context, 'mid, 'fid, 'block> PositionedBuilder<'cid, 'context, 'mid, 'fid, 'block> {
    /// Whether this builder is `before` after it appended `instruction`: the
    /// block holds one instruction more, and nothing else is different.
    pub open spec fn emitted(self, before: Self, instruction: InstructionModel) -> bool {
        &&& self.block@ == before.block@.push(instruction)
        &&& *self.builder == *before.builder
    }

    /// The value that the next instruction computes, if its operation is
    /// `opcode`: the instruction will stand at the end of the current block.
    pub open spec fn next_value(self, opcode: Opcode) -> Handle {
        Handle::Value(
            ValueModel::Instruction(self.block@.label, self.block@.instructions.len(), opcode),
        )
    }

    /// Appends one instruction and says at which position it stands.
    fn emit(&mut self, instruction: Instruction) -> (index: usize)
        ensures
            final(self).emitted(*old(self), instruction@),
            index == old(self).block@.instructions.len(),
            *final(final(self).block) == *final(old(self).block),
            *final(final(self).builder) == *final(old(self).builder),
    {
        self.block.push(instruction)
    }

    /// Appends one instruction and hands back the value that it computes.
    fn emit_value<Ty>(&mut self, instruction: Instruction) -> (result: Value<'cid, 'mid, 'fid, Ty>)
        ensures
            final(self).emitted(*old(self), instruction@),
            result.handle() == old(self).next_value(instruction@.opcode()),
            *final(final(self).block) == *final(old(self).block),
            *final(final(self).builder) == *final(old(self).builder),
    {
        let label = self.block.as_raw();
        let opcode = instruction.opcode();
        let index = self.emit(instruction);
        Value::new(RawValue::Instruction(label, index, opcode))
    }

    /// Appends an unconditional `br` instruction: control goes to `target`.
    pub fn br(&mut self, target: &Label<'fid>) -> (result: Value<'cid, 'mid, 'fid, Type<'cid>>)
        ensures
            final(self).emitted(*old(self), InstructionModel::Br { target: target@ }),
            result.handle() == old(self).next_value(Opcode::Br),
            *final(final(self).block) == *final(old(self).block),
            *final(final(self).builder) == *final(old(self).builder),
    {
        self.emit_value(Instruction::Br { target: target.as_raw() })
    }

    /// Appends a conditional `br` instruction: control goes to `true_dest` if
    /// `cond` holds and to `false_dest` if not.
    pub fn cond_br(
        &mut self,
        cond: &Value<'cid, 'mid, 'fid, Type<'cid>>,
        true_dest: &Label<'fid>,
        false_dest: &Label<'fid>,
    ) -> (result: Value<'cid, 'mid, 'fid, Type<'cid>>)
        ensures
            final(self).emitted(
                *old(self),
                InstructionModel::CondBr {
                    cond: cond.handle().value(),
                    on_true: true_dest@,
                    on_false: false_dest@,
                },
            ),
            result.handle() == old(self).next_value(Opcode::CondBr),
            *final(final(self).block) == *final(old(self).block),
            *final(final(self).builder) == *final(old(self).builder),
    {
        self.emit_value(
            Instruction::CondBr {
                cond: cond.as_raw(),
                on_true: true_dest.as_raw(),
                on_false: false_dest.as_raw(),
            },
        )
    }

    /// Appends an `add` instruction: the sum of two integers.
    pub fn add(&mut self, lhs: &Value<'cid, 'mid, 'fid, Type<'cid>>, rhs: &Value<'cid, 'mid, 'fid, Type<'cid>>, name: &str) -> (result: Value<'cid, 'mid, 'fid, Type<'cid>>)
        ensures
            final(self).emitted(
                *old(self),
                InstructionModel::Binary {
                    op: BinaryOp::Add,
                    lhs: lhs.handle().value(),
                    rhs: rhs.handle().value(),
                    name: name@,
                },
            ),
            result.handle() == old(self).next_value(Opcode::Binary(BinaryOp::Add)),
            *final(final(self).block) == *final(old(self).block),
            *final(final(self).builder) == *final(old(self).builder),
    {
        self.emit_value(
            Instruction::Binary {
                op: BinaryOp::Add,
                lhs: lhs.as_raw(),
                rhs: rhs.as_raw(),
                name: name.to_owned(),
            },
        )
    }

    /// Appends an `add nsw` instruction: a sum that must not wrap as a signed number.
    pub fn add_nsw(&mut self, lhs: &Value<'cid, 'mid, 'fid, Type<'cid>>, rhs: &Value<'cid, 'mid, 'fid, Type<'cid>>, name: &str) -> (result: Value<'cid, 'mid, 'fid, Type<'cid>>)
        ensures
            final(self).emitted(
                *old(self),
                InstructionModel::Binary {
                    op: BinaryOp::AddNsw,
                    lhs: lhs.handle().value(),
                    rhs: rhs.handle().value(),
                    name: name@,
                },
            ),
            result.handle() == old(self).next_value(Opcode::Binary(BinaryOp::AddNsw)),
            *final(final(self).block) == *final(old(self).block),
            *final(final(self).builder) == *final(old(self).builder),
    {
        self.emit_value(
            Instruction::Binary {
                op: BinaryOp::AddNsw,
                lhs: lhs.as_raw(),
                rhs: rhs.as_raw(),
                name: name.to_owned(),
            },
        )
    }

    /// Appends an `add nuw` instruction: a sum that must not wrap as an unsigned number.
    pub fn add_nuw(&mut self, lhs: &Value<'cid, 'mid, 'fid, Type<'cid>>, rhs: &Value<'cid, 'mid, 'fid, Type<'cid>>, name: &str) -> (result: Value<'cid, 'mid, 'fid, Type<'cid>>)
        ensures
            final(self).emitted(
                *old(self),
                InstructionModel::Binary {
                    op: BinaryOp::AddNuw,
                    lhs: lhs.handle().value(),
                    rhs: rhs.handle().value(),
                    name: name@,
                },
            ),
            result.handle() == old(self).next_value(Opcode::Binary(BinaryOp::AddNuw)),
            *final(final(self).block) == *final(old(self).block),
            *final(final(self).builder) == *final(old(self).builder),
    {
        self.emit_value(
            Instruction::Binary {
                op: BinaryOp::AddNuw,
                lhs: lhs.as_raw(),
                rhs: rhs.as_raw(),
                name: name.to_owned(),
            },
        )
    }

    /// Appends an `fadd` instruction: the sum of two floating-point numbers.
    pub fn fadd(&mut self, lhs: &Value<'cid, 'mid, 'fid, Type<'cid>>, rhs: &Value<'cid, 'mid, 'fid, Type<'cid>>, name: &str) -> (result: Value<'cid, 'mid, 'fid, Type<'cid>>)
        ensures
            final(self).emitted(
                *old(self),
                InstructionModel::Binary {
                    op: BinaryOp::FAdd,
                    lhs: lhs.handle().value(),
                    rhs: rhs.handle().value(),
                    name: name@,
                },
            ),
            result.handle() == old(self).next_value(Opcode::Binary(BinaryOp::FAdd)),
            *final(final(self).block) == *final(old(self).block),
            *final(final(self).builder) == *final(old(self).builder),
    {
        self.emit_value(
            Instruction::Binary {
                op: BinaryOp::FAdd,
                lhs: lhs.as_raw(),
                rhs: rhs.as_raw(),
                name: name.to_owned(),
            },
        )
    }

    /// Appends a `sub` instruction: the difference of two integers.
    pub fn sub(&mut self, lhs: &Value<'cid, 'mid, 'fid, Type<'cid>>, rhs: &Value<'cid, 'mid, 'fid, Type<'cid>>, name: &str) -> (result: Value<'cid, 'mid, 'fid, Type<'cid>>)
        ensures
            final(self).emitted(
                *old(self),
                InstructionModel::Binary {
                    op: BinaryOp::Sub,
                    lhs: lhs.handle().value(),
                    rhs: rhs.handle().value(),
                    name: name@,
                },
            ),
            result.handle() == old(self).next_value(Opcode::Binary(BinaryOp::Sub)),
            *final(final(self).block) == *final(old(self).block),
            *final(final(self).builder) == *final(old(self).builder),
    {
        self.emit_value(
            Instruction::Binary {
                op: BinaryOp::Sub,
                lhs: lhs.as_raw(),
                rhs: rhs.as_raw(),
                name: name.to_owned(),
            },
        )
    }

    /// Appends a `sub nsw` instruction: a difference that must not wrap as a signed number.
    pub fn sub_nsw(&mut self, lhs: &Value<'cid, 'mid, 'fid, Type<'cid>>, rhs: &Value<'cid, 'mid, 'fid, Type<'cid>>, name: &str) -> (result: Value<'cid, 'mid, 'fid, Type<'cid>>)
        ensures
            final(self).emitted(
                *old(self),
                InstructionModel::Binary {
                    op: BinaryOp::SubNsw,
                    lhs: lhs.handle().value(),
                    rhs: rhs.handle().value(),
                    name: name@,
                },
            ),
            result.handle() == old(self).next_value(Opcode::Binary(BinaryOp::SubNsw)),
            *final(final(self).block) == *final(old(self).block),
            *final(final(self).builder) == *final(old(self).builder),
    {
        self.emit_value(
            Instruction::Binary {
                op: BinaryOp::SubNsw,
                lhs: lhs.as_raw(),
                rhs: rhs.as_raw(),
                name: name.to_owned(),
            },
        )
    }

    /// Appends a `sub nuw` instruction: a difference that must not wrap as an unsigned number.
    pub fn sub_nuw(&mut self, lhs: &Value<'cid, 'mid, 'fid, Type<'cid>>, rhs: &Value<'cid, 'mid, 'fid, Type<'cid>>, name: &str) -> (result: Value<'cid, 'mid, 'fid, Type<'cid>>)
        ensures
            final(self).emitted(
                *old(self),
                InstructionModel::Binary {
                    op: BinaryOp::SubNuw,
                    lhs: lhs.handle().value(),
                    rhs: rhs.handle().value(),
                    name: name@,
                },
            ),
            result.handle() == old(self).next_value(Opcode::Binary(BinaryOp::SubNuw)),
            *final(final(self).block) == *final(old(self).block),
            *final(final(self).builder) == *final(old(self).builder),
    {
        self.emit_value(
            Instruction::Binary {
                op: BinaryOp::SubNuw,
                lhs: lhs.as_raw(),
                rhs: rhs.as_raw(),
                name: name.to_owned(),
            },
        )
    }

    /// Appends an `fsub` instruction: the difference of two floating-point numbers.
    pub fn fsub(&mut self, lhs: &Value<'cid, 'mid, 'fid, Type<'cid>>, rhs: &Value<'cid, 'mid, 'fid, Type<'cid>>, name: &str) -> (result: Value<'cid, 'mid, 'fid, Type<'cid>>)
        ensures
            final(self).emitted(
                *old(self),
                InstructionModel::Binary {
                    op: BinaryOp::FSub,
                    lhs: lhs.handle().value(),
                    rhs: rhs.handle().value(),
                    name: name@,
                },
            ),
            result.handle() == old(self).next_value(Opcode::Binary(BinaryOp::FSub)),
            *final(final(self).block) == *final(old(self).block),
            *final(final(self).builder) == *final(old(self).builder),
    {
        self.emit_value(
            Instruction::Binary {
                op: BinaryOp::FSub,
                lhs: lhs.as_raw(),
                rhs: rhs.as_raw(),
                name: name.to_owned(),
            },
        )
    }

    /// Appends a `mul` instruction: the product of two integers.
    pub fn mul(&mut self, lhs: &Value<'cid, 'mid, 'fid, Type<'cid>>, rhs: &Value<'cid, 'mid, 'fid, Type<'cid>>, name: &str) -> (result: Value<'cid, 'mid, 'fid, Type<'cid>>)
        ensures
            final(self).emitted(
                *old(self),
                InstructionModel::Binary {
                    op: BinaryOp::Mul,
                    lhs: lhs.handle().value(),
                    rhs: rhs.handle().value(),
                    name: name@,
                },
            ),
            result.handle() == old(self).next_value(Opcode::Binary(BinaryOp::Mul)),
            *final(final(self).block) == *final(old(self).block),
            *final(final(self).builder) == *final(old(self).builder),
    {
        self.emit_value(
            Instruction::Binary {
                op: BinaryOp::Mul,
                lhs: lhs.as_raw(),
                rhs: rhs.as_raw(),
                name: name.to_owned(),
            },
        )
    }

    /// Appends a `mul nsw` instruction: a product that must not wrap as a signed number.
    pub fn mul_nsw(&mut self, lhs: &Value<'cid, 'mid, 'fid, Type<'cid>>, rhs: &Value<'cid, 'mid, 'fid, Type<'cid>>, name: &str) -> (result: Value<'cid, 'mid, 'fid, Type<'cid>>)
        ensures
            final(self).emitted(
                *old(self),
                InstructionModel::Binary {
                    op: BinaryOp::MulNsw,
                    lhs: lhs.handle().value(),
                    rhs: rhs.handle().value(),
                    name: name@,
                },
            ),
            result.handle() == old(self).next_value(Opcode::Binary(BinaryOp::MulNsw)),
            *final(final(self).block) == *final(old(self).block),
            *final(final(self).builder) == *final(old(self).builder),
    {
        self.emit_value(
            Instruction::Binary {
                op: BinaryOp::MulNsw,
                lhs: lhs.as_raw(),
                rhs: rhs.as_raw(),
                name: name.to_owned(),
            },
        )
    }

    /// Appends a `mul nuw` instruction: a product that must not wrap as an unsigned number.
    pub fn mul_nuw(&mut self, lhs: &Value<'cid, 'mid, 'fid, Type<'cid>>, rhs: &Value<'cid, 'mid, 'fid, Type<'cid>>, name: &str) -> (result: Value<'cid, 'mid, 'fid, Type<'cid>>)
        ensures
            final(self).emitted(
                *old(self),
                InstructionModel::Binary {
                    op: BinaryOp::MulNuw,
                    lhs: lhs.handle().value(),
                    rhs: rhs.handle().value(),
                    name: name@,
                },
            ),
            result.handle() == old(self).next_value(Opcode::Binary(BinaryOp::MulNuw)),
            *final(final(self).block) == *final(old(self).block),
            *final(final(self).builder) == *final(old(self).builder),
    {
        self.emit_value(
            Instruction::Binary {
                op: BinaryOp::MulNuw,
                lhs: lhs.as_raw(),
                rhs: rhs.as_raw(),
                name: name.to_owned(),
            },
        )
    }

    /// Appends an `fmul` instruction: the product of two floating-point numbers.
    pub fn fmul(&mut self, lhs: &Value<'cid, 'mid, 'fid, Type<'cid>>, rhs: &Value<'cid, 'mid, 'fid, Type<'cid>>, name: &str) -> (result: Value<'cid, 'mid, 'fid, Type<'cid>>)
        ensures
            final(self).emitted(
                *old(self),
                InstructionModel::Binary {
                    op: BinaryOp::FMul,
                    lhs: lhs.handle().value(),
                    rhs: rhs.handle().value(),
                    name: name@,
                },
            ),
            result.handle() == old(self).next_value(Opcode::Binary(BinaryOp::FMul)),
            *final(final(self).block) == *final(old(self).block),
            *final(final(self).builder) == *final(old(self).builder),
    {
        self.emit_value(
            Instruction::Binary {
                op: BinaryOp::FMul,
                lhs: lhs.as_raw(),
                rhs: rhs.as_raw(),
                name: name.to_owned(),
            },
        )
    }

    /// Appends a `udiv` instruction: the quotient of two unsigned integers.
    pub fn udiv(&mut self, lhs: &Value<'cid, 'mid, 'fid, Type<'cid>>, rhs: &Value<'cid, 'mid, 'fid, Type<'cid>>, name: &str) -> (result: Value<'cid, 'mid, 'fid, Type<'cid>>)
        ensures
            final(self).emitted(
                *old(self),
                InstructionModel::Binary {
                    op: BinaryOp::UDiv,
                    lhs: lhs.handle().value(),
                    rhs: rhs.handle().value(),
                    name: name@,
                },
            ),
            result.handle() == old(self).next_value(Opcode::Binary(BinaryOp::UDiv)),
            *final(final(self).block) == *final(old(self).block),
            *final(final(self).builder) == *final(old(self).builder),
    {
        self.emit_value(
            Instruction::Binary {
                op: BinaryOp::UDiv,
                lhs: lhs.as_raw(),
                rhs: rhs.as_raw(),
                name: name.to_owned(),
            },
        )
    }

    /// Appends a `udiv exact` instruction: an unsigned quotient that must leave no remainder.
    pub fn udiv_exact(&mut self, lhs: &Value<'cid, 'mid, 'fid, Type<'cid>>, rhs: &Value<'cid, 'mid, 'fid, Type<'cid>>, name: &str) -> (result: Value<'cid, 'mid, 'fid, Type<'cid>>)
        ensures
            final(self).emitted(
                *old(self),
                InstructionModel::Binary {
                    op: BinaryOp::UDivExact,
                    lhs: lhs.handle().value(),
                    rhs: rhs.handle().value(),
                    name: name@,
                },
            ),
            result.handle() == old(self).next_value(Opcode::Binary(BinaryOp::UDivExact)),
            *final(final(self).block) == *final(old(self).block),
            *final(final(self).builder) == *final(old(self).builder),
    {
        self.emit_value(
            Instruction::Binary {
                op: BinaryOp::UDivExact,
                lhs: lhs.as_raw(),
                rhs: rhs.as_raw(),
                name: name.to_owned(),
            },
        )
    }

    /// Appends an `sdiv` instruction: the quotient of two signed integers.
    pub fn sdiv(&mut self, lhs: &Value<'cid, 'mid, 'fid, Type<'cid>>, rhs: &Value<'cid, 'mid, 'fid, Type<'cid>>, name: &str) -> (result: Value<'cid, 'mid, 'fid, Type<'cid>>)
        ensures
            final(self).emitted(
                *old(self),
                InstructionModel::Binary {
                    op: BinaryOp::SDiv,
                    lhs: lhs.handle().value(),
                    rhs: rhs.handle().value(),
                    name: name@,
                },
            ),
            result.handle() == old(self).next_value(Opcode::Binary(BinaryOp::SDiv)),
            *final(final(self).block) == *final(old(self).block),
            *final(final(self).builder) == *final(old(self).builder),
    {
        self.emit_value(
            Instruction::Binary {
                op: BinaryOp::SDiv,
                lhs: lhs.as_raw(),
                rhs: rhs.as_raw(),
                name: name.to_owned(),
            },
        )
    }

    /// Appends an `sdiv exact` instruction: a signed quotient that must leave no remainder.
    pub fn sdiv_exact(&mut self, lhs: &Value<'cid, 'mid, 'fid, Type<'cid>>, rhs: &Value<'cid, 'mid, 'fid, Type<'cid>>, name: &str) -> (result: Value<'cid, 'mid, 'fid, Type<'cid>>)
        ensures
            final(self).emitted(
                *old(self),
                InstructionModel::Binary {
                    op: BinaryOp::SDivExact,
                    lhs: lhs.handle().value(),
                    rhs: rhs.handle().value(),
                    name: name@,
                },
            ),
            result.handle() == old(self).next_value(Opcode::Binary(BinaryOp::SDivExact)),
            *final(final(self).block) == *final(old(self).block),
            *final(final(self).builder) == *final(old(self).builder),
    {
        self.emit_value(
            Instruction::Binary {
                op: BinaryOp::SDivExact,
                lhs: lhs.as_raw(),
                rhs: rhs.as_raw(),
                name: name.to_owned(),
            },
        )
    }

    /// Appends an `fdiv` instruction: the quotient of two floating-point numbers.
    pub fn fdiv(&mut self, lhs: &Value<'cid, 'mid, 'fid, Type<'cid>>, rhs: &Value<'cid, 'mid, 'fid, Type<'cid>>, name: &str) -> (result: Value<'cid, 'mid, 'fid, Type<'cid>>)
        ensures
            final(self).emitted(
                *old(self),
                InstructionModel::Binary {
                    op: BinaryOp::FDiv,
                    lhs: lhs.handle().value(),
                    rhs: rhs.handle().value(),
                    name: name@,
                },
            ),
            result.handle() == old(self).next_value(Opcode::Binary(BinaryOp::FDiv)),
            *final(final(self).block) == *final(old(self).block),
            *final(final(self).builder) == *final(old(self).builder),
    {
        self.emit_value(
            Instruction::Binary {
                op: BinaryOp::FDiv,
                lhs: lhs.as_raw(),
                rhs: rhs.as_raw(),
                name: name.to_owned(),
            },
        )
    }

    /// Appends a `urem` instruction: the remainder of an unsigned division.
    pub fn urem(&mut self, lhs: &Value<'cid, 'mid, 'fid, Type<'cid>>, rhs: &Value<'cid, 'mid, 'fid, Type<'cid>>, name: &str) -> (result: Value<'cid, 'mid, 'fid, Type<'cid>>)
        ensures
            final(self).emitted(
                *old(self),
                InstructionModel::Binary {
                    op: BinaryOp::URem,
                    lhs: lhs.handle().value(),
                    rhs: rhs.handle().value(),
                    name: name@,
                },
            ),
            result.handle() == old(self).next_value(Opcode::Binary(BinaryOp::URem)),
            *final(final(self).block) == *final(old(self).block),
            *final(final(self).builder) == *final(old(self).builder),
    {
        self.emit_value(
            Instruction::Binary {
                op: BinaryOp::URem,
                lhs: lhs.as_raw(),
                rhs: rhs.as_raw(),
                name: name.to_owned(),
            },
        )
    }

    /// Appends an `srem` instruction: the remainder of a signed division.
    pub fn srem(&mut self, lhs: &Value<'cid, 'mid, 'fid, Type<'cid>>, rhs: &Value<'cid, 'mid, 'fid, Type<'cid>>, name: &str) -> (result: Value<'cid, 'mid, 'fid, Type<'cid>>)
        ensures
            final(self).emitted(
                *old(self),
                InstructionModel::Binary {
                    op: BinaryOp::SRem,
                    lhs: lhs.handle().value(),
                    rhs: rhs.handle().value(),
                    name: name@,
                },
            ),
            result.handle() == old(self).next_value(Opcode::Binary(BinaryOp::SRem)),
            *final(final(self).block) == *final(old(self).block),
            *final(final(self).builder) == *final(old(self).builder),
    {
        self.emit_value(
            Instruction::Binary {
                op: BinaryOp::SRem,
                lhs: lhs.as_raw(),
                rhs: rhs.as_raw(),
                name: name.to_owned(),
            },
        )
    }

    /// Appends an `frem` instruction: the remainder of a floating-point division.
    pub fn frem(&mut self, lhs: &Value<'cid, 'mid, 'fid, Type<'cid>>, rhs: &Value<'cid, 'mid, 'fid, Type<'cid>>, name: &str) -> (result: Value<'cid, 'mid, 'fid, Type<'cid>>)
        ensures
            final(self).emitted(
                *old(self),
                InstructionModel::Binary {
                    op: BinaryOp::FRem,
                    lhs: lhs.handle().value(),
                    rhs: rhs.handle().value(),
                    name: name@,
                },
            ),
            result.handle() == old(self).next_value(Opcode::Binary(BinaryOp::FRem)),
            *final(final(self).block) == *final(old(self).block),
            *final(final(self).builder) == *final(old(self).builder),
    {
        self.emit_value(
            Instruction::Binary {
                op: BinaryOp::FRem,
                lhs: lhs.as_raw(),
                rhs: rhs.as_raw(),
                name: name.to_owned(),
            },
        )
    }

    /// Appends a `shl` instruction: a shift to the left.
    pub fn shl(&mut self, lhs: &Value<'cid, 'mid, 'fid, Type<'cid>>, rhs: &Value<'cid, 'mid, 'fid, Type<'cid>>, name: &str) -> (result: Value<'cid, 'mid, 'fid, Type<'cid>>)
        ensures
            final(self).emitted(
                *old(self),
                InstructionModel::Binary {
                    op: BinaryOp::Shl,
                    lhs: lhs.handle().value(),
                    rhs: rhs.handle().value(),
                    name: name@,
                },
            ),
            result.handle() == old(self).next_value(Opcode::Binary(BinaryOp::Shl)),
            *final(final(self).block) == *final(old(self).block),
            *final(final(self).builder) == *final(old(self).builder),
    {
        self.emit_value(
            Instruction::Binary {
                op: BinaryOp::Shl,
                lhs: lhs.as_raw(),
                rhs: rhs.as_raw(),
                name: name.to_owned(),
            },
        )
    }

    /// Appends an `lshr` instruction: a shift to the right that fills with zeros.
    pub fn lshr(&mut self, lhs: &Value<'cid, 'mid, 'fid, Type<'cid>>, rhs: &Value<'cid, 'mid, 'fid, Type<'cid>>, name: &str) -> (result: Value<'cid, 'mid, 'fid, Type<'cid>>)
        ensures
            final(self).emitted(
                *old(self),
                InstructionModel::Binary {
                    op: BinaryOp::LShr,
                    lhs: lhs.handle().value(),
                    rhs: rhs.handle().value(),
                    name: name@,
                },
            ),
            result.handle() == old(self).next_value(Opcode::Binary(BinaryOp::LShr)),
            *final(final(self).block) == *final(old(self).block),
            *final(final(self).builder) == *final(old(self).builder),
    {
        self.emit_value(
            Instruction::Binary {
                op: BinaryOp::LShr,
                lhs: lhs.as_raw(),
                rhs: rhs.as_raw(),
                name: name.to_owned(),
            },
        )
    }

    /// Appends an `ashr` instruction: a shift to the right that fills with the sign bit.
    pub fn ashr(&mut self, lhs: &Value<'cid, 'mid, 'fid, Type<'cid>>, rhs: &Value<'cid, 'mid, 'fid, Type<'cid>>, name: &str) -> (result: Value<'cid, 'mid, 'fid, Type<'cid>>)
        ensures
            final(self).emitted(
                *old(self),
                InstructionModel::Binary {
                    op: BinaryOp::AShr,
                    lhs: lhs.handle().value(),
                    rhs: rhs.handle().value(),
                    name: name@,
                },
            ),
            result.handle() == old(self).next_value(Opcode::Binary(BinaryOp::AShr)),
            *final(final(self).block) == *final(old(self).block),
            *final(final(self).builder) == *final(old(self).builder),
    {
        self.emit_value(
            Instruction::Binary {
                op: BinaryOp::AShr,
                lhs: lhs.as_raw(),
                rhs: rhs.as_raw(),
                name: name.to_owned(),
            },
        )
    }

    /// Appends an `and` instruction: the bitwise and of two integers.
    pub fn and(&mut self, lhs: &Value<'cid, 'mid, 'fid, Type<'cid>>, rhs: &Value<'cid, 'mid, 'fid, Type<'cid>>, name: &str) -> (result: Value<'cid, 'mid, 'fid, Type<'cid>>)
        ensures
            final(self).emitted(
                *old(self),
                InstructionModel::Binary {
                    op: BinaryOp::And,
                    lhs: lhs.handle().value(),
                    rhs: rhs.handle().value(),
                    name: name@,
                },
            ),
            result.handle() == old(self).next_value(Opcode::Binary(BinaryOp::And)),
            *final(final(self).block) == *final(old(self).block),
            *final(final(self).builder) == *final(old(self).builder),
    {
        self.emit_value(
            Instruction::Binary {
                op: BinaryOp::And,
                lhs: lhs.as_raw(),
                rhs: rhs.as_raw(),
                name: name.to_owned(),
            },
        )
    }

    /// Appends an `or` instruction: the bitwise or of two integers.
    pub fn or(&mut self, lhs: &Value<'cid, 'mid, 'fid, Type<'cid>>, rhs: &Value<'cid, 'mid, 'fid, Type<'cid>>, name: &str) -> (result: Value<'cid, 'mid, 'fid, Type<'cid>>)
        ensures
            final(self).emitted(
                *old(self),
                InstructionModel::Binary {
                    op: BinaryOp::Or,
                    lhs: lhs.handle().value(),
                    rhs: rhs.handle().value(),
                    name: name@,
                },
            ),
            result.handle() == old(self).next_value(Opcode::Binary(BinaryOp::Or)),
            *final(final(self).block) == *final(old(self).block),
            *final(final(self).builder) == *final(old(self).builder),
    {
        self.emit_value(
            Instruction::Binary {
                op: BinaryOp::Or,
                lhs: lhs.as_raw(),
                rhs: rhs.as_raw(),
                name: name.to_owned(),
            },
        )
    }

    /// Appends an `xor` instruction: the bitwise exclusive or of two integers.
    pub fn xor(&mut self, lhs: &Value<'cid, 'mid, 'fid, Type<'cid>>, rhs: &Value<'cid, 'mid, 'fid, Type<'cid>>, name: &str) -> (result: Value<'cid, 'mid, 'fid, Type<'cid>>)
        ensures
            final(self).emitted(
                *old(self),
                InstructionModel::Binary {
                    op: BinaryOp::Xor,
                    lhs: lhs.handle().value(),
                    rhs: rhs.handle().value(),
                    name: name@,
                },
            ),
            result.handle() == old(self).next_value(Opcode::Binary(BinaryOp::Xor)),
            *final(final(self).block) == *final(old(self).block),
            *final(final(self).builder) == *final(old(self).builder),
    {
        self.emit_value(
            Instruction::Binary {
                op: BinaryOp::Xor,
                lhs: lhs.as_raw(),
                rhs: rhs.as_raw(),
                name: name.to_owned(),
            },
        )
    }

    /// Appends a `sub 0, <value>` instruction: the negation of an integer.
    pub fn neg(&mut self, value: &Value<'cid, 'mid, 'fid, Type<'cid>>, name: &str) -> (result: Value<'cid, 'mid, 'fid, Type<'cid>>)
        ensures
            final(self).emitted(
                *old(self),
                InstructionModel::Unary {
                    op: UnaryOp::Neg,
                    value: value.handle().value(),
                    name: name@,
                },
            ),
            result.handle() == old(self).next_value(Opcode::Unary(UnaryOp::Neg)),
            *final(final(self).block) == *final(old(self).block),
            *final(final(self).builder) == *final(old(self).builder),
    {
        self.emit_value(
            Instruction::Unary { op: UnaryOp::Neg, value: value.as_raw(), name: name.to_owned() },
        )
    }

    /// Appends an `fneg` instruction: the negation of a floating-point number.
    pub fn fneg(&mut self, value: &Value<'cid, 'mid, 'fid, Type<'cid>>, name: &str) -> (result: Value<'cid, 'mid, 'fid, Type<'cid>>)
        ensures
            final(self).emitted(
                *old(self),
                InstructionModel::Unary {
                    op: UnaryOp::FNeg,
                    value: value.handle().value(),
                    name: name@,
                },
            ),
            result.handle() == old(self).next_value(Opcode::Unary(UnaryOp::FNeg)),
            *final(final(self).block) == *final(old(self).block),
            *final(final(self).builder) == *final(old(self).builder),
    {
        self.emit_value(
            Instruction::Unary { op: UnaryOp::FNeg, value: value.as_raw(), name: name.to_owned() },
        )
    }

    /// Appends an `xor <value>, -1` instruction: the bitwise complement of an integer.
    pub fn not(&mut self, value: &Value<'cid, 'mid, 'fid, Type<'cid>>, name: &str) -> (result: Value<'cid, 'mid, 'fid, Type<'cid>>)
        ensures
            final(self).emitted(
                *old(self),
                InstructionModel::Unary {
                    op: UnaryOp::Not,
                    value: value.handle().value(),
                    name: name@,
                },
            ),
            result.handle() == old(self).next_value(Opcode::Unary(UnaryOp::Not)),
            *final(final(self).block) == *final(old(self).block),
            *final(final(self).builder) == *final(old(self).builder),
    {
        self.emit_value(
            Instruction::Unary { op: UnaryOp::Not, value: value.as_raw(), name: name.to_owned() },
        )
    }
    /// Appends an `icmp` instruction: the comparison of two integers or
    /// pointers under `pred`.
    pub fn icmp(
        &mut self,
        pred: llvm_sys::LLVMIntPredicate,
        lhs: &Value<'cid, 'mid, 'fid, Type<'cid>>,
        rhs: &Value<'cid, 'mid, 'fid, Type<'cid>>,
        name: &str,
    ) -> (result: Value<'cid, 'mid, 'fid, Type<'cid>>)
        ensures
            final(self).emitted(
                *old(self),
                InstructionModel::ICmp {
                    pred,
                    lhs: lhs.handle().value(),
                    rhs: rhs.handle().value(),
                    name: name@,
                },
            ),
            result.handle() == old(self).next_value(Opcode::ICmp),
            *final(final(self).block) == *final(old(self).block),
            *final(final(self).builder) == *final(old(self).builder),
    {
        self.emit_value(
            Instruction::ICmp { pred, lhs: lhs.as_raw(), rhs: rhs.as_raw(), name: name.to_owned() },
        )
    }

    /// Appends an `fcmp` instruction: the comparison of two floating-point
    /// numbers under `pred`.
    pub fn fcmp(
        &mut self,
        pred: llvm_sys::LLVMRealPredicate,
        lhs: &Value<'cid, 'mid, 'fid, Type<'cid>>,
        rhs: &Value<'cid, 'mid, 'fid, Type<'cid>>,
        name: &str,
    ) -> (result: Value<'cid, 'mid, 'fid, Type<'cid>>)
        ensures
            final(self).emitted(
                *old(self),
                InstructionModel::FCmp {
                    pred,
                    lhs: lhs.handle().value(),
                    rhs: rhs.handle().value(),
                    name: name@,
                },
            ),
            result.handle() == old(self).next_value(Opcode::FCmp),
            *final(final(self).block) == *final(old(self).block),
            *final(final(self).builder) == *final(old(self).builder),
    {
        self.emit_value(
            Instruction::FCmp { pred, lhs: lhs.as_raw(), rhs: rhs.as_raw(), name: name.to_owned() },
        )
    }

    /// Appends a `trunc` instruction: an integer cut down to a narrower type. The result has the type `dest_ty`.
    pub fn trunc<Ty: DerivesFrom<Type<'cid>>>(&mut self, value: &Value<'cid, 'mid, 'fid, Type<'cid>>, dest_ty: &Ty, name: &str) -> (result:
        Value<'cid, 'mid, 'fid, Ty>)
        ensures
            final(self).emitted(
                *old(self),
                InstructionModel::Cast {
                    op: CastOp::Trunc,
                    value: value.handle().value(),
                    dest: dest_ty.handle().shape(),
                    name: name@,
                },
            ),
            result.handle() == old(self).next_value(Opcode::Cast(CastOp::Trunc)),
            *final(final(self).block) == *final(old(self).block),
            *final(final(self).builder) == *final(old(self).builder),
    {
        self.emit_value(
            Instruction::Cast {
                op: CastOp::Trunc,
                value: value.as_raw(),
                dest: shape_of(dest_ty),
                name: name.to_owned(),
            },
        )
    }

    /// Appends an `fptrunc` instruction: a floating-point number cut down to a narrower type. The result has the type `dest_ty`.
    pub fn fp_trunc<Ty: DerivesFrom<Type<'cid>>>(&mut self, value: &Value<'cid, 'mid, 'fid, Type<'cid>>, dest_ty: &Ty, name: &str) -> (result:
        Value<'cid, 'mid, 'fid, Ty>)
        ensures
            final(self).emitted(
                *old(self),
                InstructionModel::Cast {
                    op: CastOp::FpTrunc,
                    value: value.handle().value(),
                    dest: dest_ty.handle().shape(),
                    name: name@,
                },
            ),
            result.handle() == old(self).next_value(Opcode::Cast(CastOp::FpTrunc)),
            *final(final(self).block) == *final(old(self).block),
            *final(final(self).builder) == *final(old(self).builder),
    {
        self.emit_value(
            Instruction::Cast {
                op: CastOp::FpTrunc,
                value: value.as_raw(),
                dest: shape_of(dest_ty),
                name: name.to_owned(),
            },
        )
    }

    /// Appends a `zext` instruction: an integer widened with zeros. The result has the type `dest_ty`.
    pub fn zext<Ty: DerivesFrom<Type<'cid>>>(&mut self, value: &Value<'cid, 'mid, 'fid, Type<'cid>>, dest_ty: &Ty, name: &str) -> (result:
        Value<'cid, 'mid, 'fid, Ty>)
        ensures
            final(self).emitted(
                *old(self),
                InstructionModel::Cast {
                    op: CastOp::ZExt,
                    value: value.handle().value(),
                    dest: dest_ty.handle().shape(),
                    name: name@,
                },
            ),
            result.handle() == old(self).next_value(Opcode::Cast(CastOp::ZExt)),
            *final(final(self).block) == *final(old(self).block),
            *final(final(self).builder) == *final(old(self).builder),
    {
        self.emit_value(
            Instruction::Cast {
                op: CastOp::ZExt,
                value: value.as_raw(),
                dest: shape_of(dest_ty),
                name: name.to_owned(),
            },
        )
    }

    /// Appends a `sext` instruction: an integer widened with its sign bit. The result has the type `dest_ty`.
    pub fn sext<Ty: DerivesFrom<Type<'cid>>>(&mut self, value: &Value<'cid, 'mid, 'fid, Type<'cid>>, dest_ty: &Ty, name: &str) -> (result:
        Value<'cid, 'mid, 'fid, Ty>)
        ensures
            final(self).emitted(
                *old(self),
                InstructionModel::Cast {
                    op: CastOp::SExt,
                    value: value.handle().value(),
                    dest: dest_ty.handle().shape(),
                    name: name@,
                },
            ),
            result.handle() == old(self).next_value(Opcode::Cast(CastOp::SExt)),
            *final(final(self).block) == *final(old(self).block),
            *final(final(self).builder) == *final(old(self).builder),
    {
        self.emit_value(
            Instruction::Cast {
                op: CastOp::SExt,
                value: value.as_raw(),
                dest: shape_of(dest_ty),
                name: name.to_owned(),
            },
        )
    }

    /// Appends an `fpext` instruction: a floating-point number widened. The result has the type `dest_ty`.
    pub fn fp_ext<Ty: DerivesFrom<Type<'cid>>>(&mut self, value: &Value<'cid, 'mid, 'fid, Type<'cid>>, dest_ty: &Ty, name: &str) -> (result:
        Value<'cid, 'mid, 'fid, Ty>)
        ensures
            final(self).emitted(
                *old(self),
                InstructionModel::Cast {
                    op: CastOp::FpExt,
                    value: value.handle().value(),
                    dest: dest_ty.handle().shape(),
                    name: name@,
                },
            ),
            result.handle() == old(self).next_value(Opcode::Cast(CastOp::FpExt)),
            *final(final(self).block) == *final(old(self).block),
            *final(final(self).builder) == *final(old(self).builder),
    {
        self.emit_value(
            Instruction::Cast {
                op: CastOp::FpExt,
                value: value.as_raw(),
                dest: shape_of(dest_ty),
                name: name.to_owned(),
            },
        )
    }

    /// Appends an `fptoui` instruction: a floating-point number as an unsigned integer. The result has the type `dest_ty`.
    pub fn fp_to_ui<Ty: DerivesFrom<Type<'cid>>>(&mut self, value: &Value<'cid, 'mid, 'fid, Type<'cid>>, dest_ty: &Ty, name: &str) -> (result:
        Value<'cid, 'mid, 'fid, Ty>)
        ensures
            final(self).emitted(
                *old(self),
                InstructionModel::Cast {
                    op: CastOp::FpToUi,
                    value: value.handle().value(),
                    dest: dest_ty.handle().shape(),
                    name: name@,
                },
            ),
            result.handle() == old(self).next_value(Opcode::Cast(CastOp::FpToUi)),
            *final(final(self).block) == *final(old(self).block),
            *final(final(self).builder) == *final(old(self).builder),
    {
        self.emit_value(
            Instruction::Cast {
                op: CastOp::FpToUi,
                value: value.as_raw(),
                dest: shape_of(dest_ty),
                name: name.to_owned(),
            },
        )
    }

    /// Appends an `fptosi` instruction: a floating-point number as a signed integer. The result has the type `dest_ty`.
    pub fn fp_to_si<Ty: DerivesFrom<Type<'cid>>>(&mut self, value: &Value<'cid, 'mid, 'fid, Type<'cid>>, dest_ty: &Ty, name: &str) -> (result:
        Value<'cid, 'mid, 'fid, Ty>)
        ensures
            final(self).emitted(
                *old(self),
                InstructionModel::Cast {
                    op: CastOp::FpToSi,
                    value: value.handle().value(),
                    dest: dest_ty.handle().shape(),
                    name: name@,
                },
            ),
            result.handle() == old(self).next_value(Opcode::Cast(CastOp::FpToSi)),
            *final(final(self).block) == *final(old(self).block),
            *final(final(self).builder) == *final(old(self).builder),
    {
        self.emit_value(
            Instruction::Cast {
                op: CastOp::FpToSi,
                value: value.as_raw(),
                dest: shape_of(dest_ty),
                name: name.to_owned(),
            },
        )
    }

    /// Appends a `uitofp` instruction: an unsigned integer as a floating-point number. The result has the type `dest_ty`.
    pub fn ui_to_fp<Ty: DerivesFrom<Type<'cid>>>(&mut self, value: &Value<'cid, 'mid, 'fid, Type<'cid>>, dest_ty: &Ty, name: &str) -> (result:
        Value<'cid, 'mid, 'fid, Ty>)
        ensures
            final(self).emitted(
                *old(self),
                InstructionModel::Cast {
                    op: CastOp::UiToFp,
                    value: value.handle().value(),
                    dest: dest_ty.handle().shape(),
                    name: name@,
                },
            ),
            result.handle() == old(self).next_value(Opcode::Cast(CastOp::UiToFp)),
            *final(final(self).block) == *final(old(self).block),
            *final(final(self).builder) == *final(old(self).builder),
    {
        self.emit_value(
            Instruction::Cast {
                op: CastOp::UiToFp,
                value: value.as_raw(),
                dest: shape_of(dest_ty),
                name: name.to_owned(),
            },
        )
    }

    /// Appends an `sitofp` instruction: a signed integer as a floating-point number. The result has the type `dest_ty`.
    pub fn si_to_fp<Ty: DerivesFrom<Type<'cid>>>(&mut self, value: &Value<'cid, 'mid, 'fid, Type<'cid>>, dest_ty: &Ty, name: &str) -> (result:
        Value<'cid, 'mid, 'fid, Ty>)
        ensures
            final(self).emitted(
                *old(self),
                InstructionModel::Cast {
                    op: CastOp::SiToFp,
                    value: value.handle().value(),
                    dest: dest_ty.handle().shape(),
                    name: name@,
                },
            ),
            result.handle() == old(self).next_value(Opcode::Cast(CastOp::SiToFp)),
            *final(final(self).block) == *final(old(self).block),
            *final(final(self).builder) == *final(old(self).builder),
    {
        self.emit_value(
            Instruction::Cast {
                op: CastOp::SiToFp,
                value: value.as_raw(),
                dest: shape_of(dest_ty),
                name: name.to_owned(),
            },
        )
    }

    /// Appends a `ptrtoint` instruction: a pointer as an integer. The result has the type `dest_ty`.
    pub fn ptr_to_int<Ty: DerivesFrom<Type<'cid>>>(&mut self, value: &Value<'cid, 'mid, 'fid, Type<'cid>>, dest_ty: &Ty, name: &str) -> (result:
        Value<'cid, 'mid, 'fid, Ty>)
        ensures
            final(self).emitted(
                *old(self),
                InstructionModel::Cast {
                    op: CastOp::PtrToInt,
                    value: value.handle().value(),
                    dest: dest_ty.handle().shape(),
                    name: name@,
                },
            ),
            result.handle() == old(self).next_value(Opcode::Cast(CastOp::PtrToInt)),
            *final(final(self).block) == *final(old(self).block),
            *final(final(self).builder) == *final(old(self).builder),
    {
        self.emit_value(
            Instruction::Cast {
                op: CastOp::PtrToInt,
                value: value.as_raw(),
                dest: shape_of(dest_ty),
                name: name.to_owned(),
            },
        )
    }

    /// Appends an `inttoptr` instruction: an integer as a pointer. The result has the type `dest_ty`.
    pub fn int_to_ptr<Ty: DerivesFrom<Type<'cid>>>(&mut self, value: &Value<'cid, 'mid, 'fid, Type<'cid>>, dest_ty: &Ty, name: &str) -> (result:
        Value<'cid, 'mid, 'fid, Ty>)
        ensures
            final(self).emitted(
                *old(self),
                InstructionModel::Cast {
                    op: CastOp::IntToPtr,
                    value: value.handle().value(),
                    dest: dest_ty.handle().shape(),
                    name: name@,
                },
            ),
            result.handle() == old(self).next_value(Opcode::Cast(CastOp::IntToPtr)),
            *final(final(self).block) == *final(old(self).block),
            *final(final(self).builder) == *final(old(self).builder),
    {
        self.emit_value(
            Instruction::Cast {
                op: CastOp::IntToPtr,
                value: value.as_raw(),
                dest: shape_of(dest_ty),
                name: name.to_owned(),
            },
        )
    }

    /// Appends a `bitcast` instruction: the same bits under another type. The result has the type `dest_ty`.
    pub fn bitcast<Ty: DerivesFrom<Type<'cid>>>(&mut self, value: &Value<'cid, 'mid, 'fid, Type<'cid>>, dest_ty: &Ty, name: &str) -> (result:
        Value<'cid, 'mid, 'fid, Ty>)
        ensures
            final(self).emitted(
                *old(self),
                InstructionModel::Cast {
                    op: CastOp::BitCast,
                    value: value.handle().value(),
                    dest: dest_ty.handle().shape(),
                    name: name@,
                },
            ),
            result.handle() == old(self).next_value(Opcode::Cast(CastOp::BitCast)),
            *final(final(self).block) == *final(old(self).block),
            *final(final(self).builder) == *final(old(self).builder),
    {
        self.emit_value(
            Instruction::Cast {
                op: CastOp::BitCast,
                value: value.as_raw(),
                dest: shape_of(dest_ty),
                name: name.to_owned(),
            },
        )
    }
    /// Appends a `getelementptr` instruction: the address of the element of
    /// `ptr`, taken as a pointer to `ty`, that `indices` lead to.
    pub fn get_element_ptr(
        &mut self,
        ty: &Type<'cid>,
        ptr: &Value<'cid, 'mid, 'fid, PointerType<'cid, Type<'cid>>>,
        indices: &[&Value<'cid, 'mid, 'fid, IntegerType<'cid>>],
        name: &str,
    ) -> (result: Value<'cid, 'mid, 'fid, PointerType<'cid, Type<'cid>>>)
        ensures
            final(self).emitted(
                *old(self),
                InstructionModel::GetElementPtr {
                    in_bounds: false,
                    ty: ty.handle().shape(),
                    ptr: ptr.handle().value(),
                    indices: values_named(indices@),
                    name: name@,
                },
            ),
            result.handle() == old(self).next_value(Opcode::GetElementPtr),
            *final(final(self).block) == *final(old(self).block),
            *final(final(self).builder) == *final(old(self).builder),
    {
        self.emit_value(
            Instruction::GetElementPtr {
                in_bounds: false,
                ty: shape_of(ty),
                ptr: ptr.as_raw(),
                indices: raw_list(indices),
                name: name.to_owned(),
            },
        )
    }

    /// Appends a `getelementptr inbounds` instruction: as
    /// [`get_element_ptr`](Self::get_element_ptr), for an address that must lie
    /// inside the object that `ptr` points into.
    pub fn get_element_ptr_in_bounds(
        &mut self,
        ty: &Type<'cid>,
        ptr: &Value<'cid, 'mid, 'fid, PointerType<'cid, Type<'cid>>>,
        indices: &[&Value<'cid, 'mid, 'fid, IntegerType<'cid>>],
        name: &str,
    ) -> (result: Value<'cid, 'mid, 'fid, PointerType<'cid, Type<'cid>>>)
        ensures
            final(self).emitted(
                *old(self),
                InstructionModel::GetElementPtr {
                    in_bounds: true,
                    ty: ty.handle().shape(),
                    ptr: ptr.handle().value(),
                    indices: values_named(indices@),
                    name: name@,
                },
            ),
            result.handle() == old(self).next_value(Opcode::GetElementPtrInBounds),
            *final(final(self).block) == *final(old(self).block),
            *final(final(self).builder) == *final(old(self).builder),
    {
        self.emit_value(
            Instruction::GetElementPtr {
                in_bounds: true,
                ty: shape_of(ty),
                ptr: ptr.as_raw(),
                indices: raw_list(indices),
                name: name.to_owned(),
            },
        )
    }

    /// Appends a call of the memory-set intrinsic: `len` bytes from `ptr` on
    /// become `value`; `ptr` is aligned to `align` bytes.
    pub fn memset(
        &mut self,
        ptr: &Value<'cid, 'mid, 'fid, PointerType<'cid, Type<'cid>>>,
        value: &Value<'cid, 'mid, 'fid, Type<'cid>>,
        len: &Value<'cid, 'mid, 'fid, Type<'cid>>,
        align: u32,
    ) -> (result: Value<'cid, 'mid, 'fid, Type<'cid>>)
        ensures
            final(self).emitted(
                *old(self),
                InstructionModel::MemSet {
                    ptr: ptr.handle().value(),
                    value: value.handle().value(),
                    len: len.handle().value(),
                    align: count(align),
                },
            ),
            result.handle() == old(self).next_value(Opcode::MemSet),
            *final(final(self).block) == *final(old(self).block),
            *final(final(self).builder) == *final(old(self).builder),
    {
        self.emit_value(
            Instruction::MemSet {
                ptr: ptr.as_raw(),
                value: value.as_raw(),
                len: len.as_raw(),
                align,
            },
        )
    }

    /// Appends a call of the memory-copy intrinsic: `size` bytes go from `src`
    /// to `dest`, which do not overlap and are aligned to `src_align` and
    /// `dest_align` bytes.
    pub fn memcpy(
        &mut self,
        dest: &Value<'cid, 'mid, 'fid, PointerType<'cid, Type<'cid>>>,
        dest_align: u32,
        src: &Value<'cid, 'mid, 'fid, PointerType<'cid, Type<'cid>>>,
        src_align: u32,
        size: &Value<'cid, 'mid, 'fid, Type<'cid>>,
    ) -> (result: Value<'cid, 'mid, 'fid, Type<'cid>>)
        ensures
            final(self).emitted(
                *old(self),
                InstructionModel::MemCpy {
                    dest: dest.handle().value(),
                    dest_align: count(dest_align),
                    src: src.handle().value(),
                    src_align: count(src_align),
                    size: size.handle().value(),
                },
            ),
            result.handle() == old(self).next_value(Opcode::MemCpy),
            *final(final(self).block) == *final(old(self).block),
            *final(final(self).builder) == *final(old(self).builder),
    {
        self.emit_value(
            Instruction::MemCpy {
                dest: dest.as_raw(),
                dest_align,
                src: src.as_raw(),
                src_align,
                size: size.as_raw(),
            },
        )
    }

    /// Appends a call of the memory-move intrinsic: `size` bytes go from `src`
    /// to `dest`, which may overlap and are aligned to `src_align` and
    /// `dest_align` bytes.
    pub fn memmove(
        &mut self,
        dest: &Value<'cid, 'mid, 'fid, PointerType<'cid, Type<'cid>>>,
        dest_align: u32,
        src: &Value<'cid, 'mid, 'fid, PointerType<'cid, Type<'cid>>>,
        src_align: u32,
        size: &Value<'cid, 'mid, 'fid, Type<'cid>>,
    ) -> (result: Value<'cid, 'mid, 'fid, Type<'cid>>)
        ensures
            final(self).emitted(
                *old(self),
                InstructionModel::MemMove {
                    dest: dest.handle().value(),
                    dest_align: count(dest_align),
                    src: src.handle().value(),
                    src_align: count(src_align),
                    size: size.handle().value(),
                },
            ),
            result.handle() == old(self).next_value(Opcode::MemMove),
            *final(final(self).block) == *final(old(self).block),
            *final(final(self).builder) == *final(old(self).builder),
    {
        self.emit_value(
            Instruction::MemMove {
                dest: dest.as_raw(),
                dest_align,
                src: src.as_raw(),
                src_align,
                size: size.as_raw(),
            },
        )
    }

    /// Appends an `alloca` instruction: room on the stack for one `ty`.
    pub fn alloca<Ty: DerivesFrom<Type<'cid>>>(&mut self, ty: &Ty, name: &str) -> (result: Alloca<
        'cid,
        'mid,
        'fid,
        Ty,
    >)
        ensures
            final(self).emitted(
                *old(self),
                InstructionModel::Alloca {
                    ty: ty.handle().shape(),
                    len: None,
                    name: name@,
                    alignment: 0,
                },
            ),
            result.handle() == old(self).next_value(Opcode::Alloca),
            *final(final(self).block) == *final(old(self).block),
            *final(final(self).builder) == *final(old(self).builder),
    {
        let label = self.block.as_raw();
        let index = self.emit(
            Instruction::Alloca { ty: shape_of(ty), len: None, name: name.to_owned(), alignment: 0 },
        );
        Alloca::new(label, index, false)
    }

    /// Appends an `alloca` instruction with a count: room on the stack for `len`
    /// objects of type `ty`.
    pub fn array_alloca<Ty: DerivesFrom<Type<'cid>>>(
        &mut self,
        ty: &Ty,
        len: &Value<'cid, 'mid, 'fid, Type<'cid>>,
        name: &str,
    ) -> (result: Alloca<'cid, 'mid, 'fid, Ty>)
        ensures
            final(self).emitted(
                *old(self),
                InstructionModel::Alloca {
                    ty: ty.handle().shape(),
                    len: Some(len.handle().value()),
                    name: name@,
                    alignment: 0,
                },
            ),
            result.handle() == old(self).next_value(Opcode::ArrayAlloca),
            *final(final(self).block) == *final(old(self).block),
            *final(final(self).builder) == *final(old(self).builder),
    {
        let label = self.block.as_raw();
        let index = self.emit(
            Instruction::Alloca {
                ty: shape_of(ty),
                len: Some(len.as_raw()),
                name: name.to_owned(),
                alignment: 0,
            },
        );
        Alloca::new(label, index, true)
    }

    /// Appends a `load` instruction: the `ty` that `ptr` points to.
    pub fn load<Ty: DerivesFrom<Type<'cid>>>(
        &mut self,
        ty: &Ty,
        ptr: &Value<'cid, 'mid, 'fid, PointerType<'cid, Type<'cid>>>,
        name: &str,
    ) -> (result: Value<'cid, 'mid, 'fid, Ty>)
        ensures
            final(self).emitted(
                *old(self),
                InstructionModel::Load {
                    ty: ty.handle().shape(),
                    ptr: ptr.handle().value(),
                    name: name@,
                },
            ),
            result.handle() == old(self).next_value(Opcode::Load),
            *final(final(self).block) == *final(old(self).block),
            *final(final(self).builder) == *final(old(self).builder),
    {
        self.emit_value(
            Instruction::Load { ty: shape_of(ty), ptr: ptr.as_raw(), name: name.to_owned() },
        )
    }

    /// Appends a `store` instruction: `value` goes where `ptr` points.
    pub fn store(
        &mut self,
        value: &Value<'cid, 'mid, 'fid, Type<'cid>>,
        ptr: &Value<'cid, 'mid, 'fid, PointerType<'cid, Type<'cid>>>,
    )
        ensures
            final(self).emitted(
                *old(self),
                InstructionModel::Store { value: value.handle().value(), ptr: ptr.handle().value() },
            ),
            *final(final(self).block) == *final(old(self).block),
            *final(final(self).builder) == *final(old(self).builder),
    {
        let _ = self.emit(Instruction::Store { value: value.as_raw(), ptr: ptr.as_raw() });
    }

    /// Appends a `phi` instruction of type `ty`, without incoming edges yet.
    pub fn phi<Ty: DerivesFrom<Type<'cid>>>(&mut self, ty: &Ty, name: &str) -> (result: Phi<
        'cid,
        'mid,
        'fid,
        Ty,
    >)
        ensures
            final(self).emitted(
                *old(self),
                InstructionModel::Phi {
                    ty: ty.handle().shape(),
                    incoming: Seq::empty(),
                    name: name@,
                },
            ),
            result.handle() == old(self).next_value(Opcode::Phi),
            *final(final(self).block) == *final(old(self).block),
            *final(final(self).builder) == *final(old(self).builder),
    {
        let label = self.block.as_raw();
        let incoming: Vec<(RawValue, usize)> = Vec::new();
        proof {
            assert(crate::llvm::instruction::edge_views(incoming@) =~= Seq::empty());
        }
        let index = self.emit(
            Instruction::Phi { ty: shape_of(ty), incoming, name: name.to_owned() },
        );
        Phi::new(label, index)
    }

    /// Appends a `call` instruction: `func`, taken as a function of signature
    /// `ty`, is called with `args`.
    pub fn call(
        &mut self,
        ty: &FunctionType<'cid>,
        func: &Value<'cid, 'mid, 'fid, Type<'cid>>,
        args: &[&Value<'cid, 'mid, 'fid, Type<'cid>>],
        name: &str,
    ) -> (result: Value<'cid, 'mid, 'fid, Type<'cid>>)
        ensures
            final(self).emitted(
                *old(self),
                InstructionModel::Call {
                    ty: ty.handle().shape(),
                    func: func.handle().value(),
                    args: values_named(args@),
                    name: name@,
                },
            ),
            result.handle() == old(self).next_value(Opcode::Call),
            *final(final(self).block) == *final(old(self).block),
            *final(final(self).builder) == *final(old(self).builder),
    {
        self.emit_value(
            Instruction::Call {
                ty: ty.as_raw(),
                func: func.as_raw(),
                args: raw_list(args),
                name: name.to_owned(),
            },
        )
    }

    /// Appends a `ret` instruction: the function returns `value`.
    pub fn ret(&mut self, value: &Value<'cid, 'mid, 'fid, Type<'cid>>)
        ensures
            final(self).emitted(
                *old(self),
                InstructionModel::Ret { value: Some(value.handle().value()) },
            ),
            *final(final(self).block) == *final(old(self).block),
            *final(final(self).builder) == *final(old(self).builder),
    {
        let _ = self.emit(Instruction::Ret { value: Some(value.as_raw()) });
    }

    /// Appends a `ret void` instruction: the function returns without a value.
    pub fn ret_void(&mut self)
        ensures
            final(self).emitted(*old(self), InstructionModel::Ret { value: None }),
            *final(final(self).block) == *final(old(self).block),
            *final(final(self).builder) == *final(old(self).builder),
    {
        let _ = self.emit(Instruction::Ret { value: None });
    }

    /// Appends an `unreachable` instruction: control never gets here.
    pub fn unreachable(&mut self)
        ensures
            final(self).emitted(*old(self), InstructionModel::Unreachable),
            *final(final(self).block) == *final(old(self).block),
            *final(final(self).builder) == *final(old(self).builder),
    {
        let _ = self.emit(Instruction::Unreachable);
    }

    /// The label of the block that the builder inserts into.
    pub fn get_position(&self) -> (label: Label<'fid>)
        ensures
            label@ == old(self.block)@.label,
    {
        self.block.label()
    }

    /// Moves the builder to the end of `block`. The block that the builder
    /// leaves keeps every instruction it was given, and the builder is left as
    /// it is.
    pub fn position_at_end(&mut self, block: &'block mut BasicBlock<'cid, 'mid, 'fid>)
        ensures
            *final(self).block == *old(block),
            *final(self).builder == *old(self).builder,
            *final(final(self).block) == *final(block),
            *final(final(self).builder) == *final(old(self).builder),
            *final(old(self).block) == *old(self).block,
    {
        self.block = block;
    }
}

} // verus!
