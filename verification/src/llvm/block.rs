//! Basic blocks and their labels.
//!
//! A [`BasicBlock`] is the mutable view of a block: it owns the instructions and
//! whoever holds it may insert. A [`Label`] is the identity of the block, which
//! any number of branches may name.

use vstd::prelude::*;
use crate::id::IdRef;
use crate::llvm::instruction::{instruction_views, Instruction, InstructionModel};
use crate::llvm::opcode::Opcode;
use crate::llvm::raw::{RawValue, ValueModel};

verus! {

/// The identity of a block of the function `'fid`: a branch target.
#[derive(Clone, Copy)]
pub struct Label<'fid> {
    _function_id: IdRef<'fid>,
    index: usize,
}

impl<'fid> View for Label<'fid> {
    type V = nat;

    /// The position of the block in its function.
    closed spec fn view(&self) -> nat {
        self.index as nat
    }
}

impl<'fid> Label<'fid> {
    /// The label of the block at position `index`.
    pub(crate) fn new(index: usize) -> (label: Label<'fid>)
        ensures
            label@ == index,
    {
        Label { _function_id: IdRef::new(), index }
    }

    /// The position of the block in its function.
    pub fn as_raw(&self) -> (index: usize)
        ensures
            index == self@,
    {
        self.index
    }
}

/// A block of the function `'fid`, with its instructions.
pub struct BasicBlock<'cid, 'mid, 'fid> {
    _context_id: IdRef<'cid>,
    _module_id: IdRef<'mid>,
    _function_id: IdRef<'fid>,
    label: usize,
    name: String,
    instructions: Vec<Instruction>,
}

/// The mathematical value of a [`BasicBlock`].
pub struct BlockModel {
    /// The position of the block in its function.
    pub label: nat,
    /// The name given to the block.
    pub name: Seq<char>,
    /// The instructions, first to last.
    pub instructions: Seq<InstructionModel>,
}

impl BlockModel {
    /// The block with one more instruction at its end.
    pub open spec fn push(self, instruction: InstructionModel) -> BlockModel {
        BlockModel { instructions: self.instructions.push(instruction), ..self }
    }

    /// Whether `value` is the result of an instruction of this block.
    pub open spec fn holds(self, value: ValueModel) -> bool {
        value matches ValueModel::Instruction(block, index, opcode) && block == self.label && index
            < self.instructions.len() && self.instructions[index as int].opcode() == opcode
    }

    /// The block with the instruction at `index` replaced.
    pub open spec fn update(self, index: int, instruction: InstructionModel) -> BlockModel {
        BlockModel { instructions: self.instructions.update(index, instruction), ..self }
    }
}

impl<'cid, 'mid, 'fid> View for BasicBlock<'cid, 'mid, 'fid> {
    type V = BlockModel;

    closed spec fn view(&self) -> BlockModel {
        BlockModel {
            label: self.label as nat,
            name: self.name@,
            instructions: instruction_views(self.instructions@),
        }
    }
}

impl<'cid, 'mid, 'fid> BasicBlock<'cid, 'mid, 'fid> {
    /// An empty block at position `label`.
    pub(crate) fn new(label: usize, name: &str) -> (block: BasicBlock<'cid, 'mid, 'fid>)
        ensures
            block@ == (BlockModel {
                label: label as nat,
                name: name@,
                instructions: Seq::empty(),
            }),
    {
        let block = BasicBlock {
            _context_id: IdRef::new(),
            _module_id: IdRef::new(),
            _function_id: IdRef::new(),
            label,
            name: name.to_owned(),
            instructions: Vec::new(),
        };
        proof {
            assert(instruction_views(block.instructions@) =~= Seq::empty());
        }
        block
    }

    /// Appends an instruction and says at which position it stands.
    pub(crate) fn push(&mut self, instruction: Instruction) -> (index: usize)
        ensures
            index == old(self)@.instructions.len(),
            final(self)@ == old(self)@.push(instruction@),
    {
        let index = self.instructions.len();
        self.instructions.push(instruction);
        proof {
            assert(instruction_views(self.instructions@) =~= instruction_views(
                old(self).instructions@,
            ).push(instruction@));
        }
        index
    }

    /// Gives the phi at `index` one more incoming edge. Anything else that
    /// stands at `index` is left as it is.
    pub(crate) fn add_edge(&mut self, index: usize, value: RawValue, block: usize)
        requires
            index < old(self)@.instructions.len(),
        ensures
            final(self)@ == old(self)@.update(
                index as int,
                old(self)@.instructions[index as int].with_edge(value@, block as nat),
            ),
    {
        let ghost before = self.instructions@[index as int];
        match &mut self.instructions[index] {
            Instruction::Phi { incoming, .. } => {
                incoming.push((value, block));
            },
            _ => {},
        }
        proof {
            let after = self.instructions@[index as int];
            if before is Phi {
                assert(after@->Phi_incoming =~= before@->Phi_incoming.push((value@, block as nat)));
            }
            assert(instruction_views(self.instructions@) =~= instruction_views(
                old(self).instructions@,
            ).update(index as int, before@.with_edge(value@, block as nat)));
        }
    }

    /// Sets the alignment of the stack allocation at `index`. Anything else
    /// that stands at `index` is left as it is.
    pub(crate) fn set_alignment_at(&mut self, index: usize, alignment: u32)
        requires
            index < old(self)@.instructions.len(),
        ensures
            final(self)@ == old(self)@.update(
                index as int,
                old(self)@.instructions[index as int].with_alignment(alignment as nat),
            ),
    {
        let ghost before = self.instructions@[index as int];
        match &mut self.instructions[index] {
            Instruction::Alloca { alignment: slot, .. } => {
                *slot = alignment;
            },
            _ => {},
        }
        proof {
            assert(instruction_views(self.instructions@) =~= instruction_views(
                old(self).instructions@,
            ).update(index as int, before@.with_alignment(alignment as nat)));
        }
    }

    /// The operation of the instruction at `index`, if there is one.
    pub fn opcode_at(&self, index: usize) -> (found: Option<Opcode>)
        ensures
            match found {
                Some(opcode) => index < self@.instructions.len() && opcode
                    == self@.instructions[index as int].opcode(),
                None => index >= self@.instructions.len(),
            },
    {
        if index < self.instructions.len() {
            Some(self.instructions[index].opcode())
        } else {
            None
        }
    }

    /// The position of the block in its function.
    pub fn as_raw(&self) -> (index: usize)
        ensures
            index == self@.label,
    {
        self.label
    }

    /// The label of the block.
    pub fn label(&self) -> (label: Label<'fid>)
        ensures
            label@ == self@.label,
    {
        Label::new(self.label)
    }

    /// The name given to the block.
    pub fn name(&self) -> (name: &str)
        ensures
            name@ == self@.name,
    {
        self.name.as_str()
    }

    /// The number of instructions in the block.
    pub fn len(&self) -> (count: usize)
        ensures
            count == self@.instructions.len(),
    {
        self.instructions.len()
    }

    /// The instruction at `index`, if there is one.
    pub fn instruction(&self, index: usize) -> (found: Option<&Instruction>)
        ensures
            match found {
                Some(instruction) => index < self@.instructions.len() && instruction@
                    == self@.instructions[index as int],
                None => index >= self@.instructions.len(),
            },
    {
        if index < self.instructions.len() {
            Some(&self.instructions[index])
        } else {
            None
        }
    }
}

} // verus!
