//! Instructions as a block records them.

use vstd::prelude::*;
use crate::llvm::opcode::{BinaryOp, CastOp, Opcode, UnaryOp};
use crate::llvm::raw::{RawValue, ValueModel};
use crate::llvm::shape::{TypeModel, TypeShape};

verus! {

/// One instruction of a block. Values are named by their raw handles, blocks by
/// their positions in the function.
#[allow(inconsistent_fields)]
pub enum Instruction {
    /// Control goes to `target`.
    Br { target: usize },
    /// Control goes to `on_true` if `cond` holds and to `on_false` if not.
    CondBr { cond: RawValue, on_true: usize, on_false: usize },
    /// `op` of `lhs` and `rhs`.
    Binary { op: BinaryOp, lhs: RawValue, rhs: RawValue, name: String },
    /// `op` of `value`.
    Unary { op: UnaryOp, value: RawValue, name: String },
    /// The comparison of the integers or pointers `lhs` and `rhs` under `pred`.
    ICmp { pred: llvm_sys::LLVMIntPredicate, lhs: RawValue, rhs: RawValue, name: String },
    /// The comparison of the floating-point numbers `lhs` and `rhs` under
    /// `pred`.
    FCmp { pred: llvm_sys::LLVMRealPredicate, lhs: RawValue, rhs: RawValue, name: String },
    /// `value` taken to the type `dest` by `op`.
    Cast { op: CastOp, value: RawValue, dest: TypeShape, name: String },
    /// The address of the element of `ptr`, taken as a pointer to `ty`, that
    /// `indices` lead to; with `in_bounds`, an address that must lie inside the
    /// object that `ptr` points into.
    GetElementPtr {
        in_bounds: bool,
        ty: TypeShape,
        ptr: RawValue,
        indices: Vec<RawValue>,
        name: String,
    },
    /// `len` bytes from `ptr` on become `value`; `ptr` is aligned to `align`
    /// bytes.
    MemSet { ptr: RawValue, value: RawValue, len: RawValue, align: u32 },
    /// `size` bytes go from `src` to `dest`, which do not overlap.
    MemCpy { dest: RawValue, dest_align: u32, src: RawValue, src_align: u32, size: RawValue },
    /// `size` bytes go from `src` to `dest`, which may overlap.
    MemMove { dest: RawValue, dest_align: u32, src: RawValue, src_align: u32, size: RawValue },
    /// Room on the stack for one `ty`, or for `len` of them where a length is
    /// given, aligned to `alignment` bytes unless that is 0.
    Alloca { ty: TypeShape, len: Option<RawValue>, name: String, alignment: u32 },
    /// The `ty` that `ptr` points to.
    Load { ty: TypeShape, ptr: RawValue, name: String },
    /// `value` goes where `ptr` points.
    Store { value: RawValue, ptr: RawValue },
    /// The value of type `ty` that belongs to the block from which control
    /// arrived: `incoming` pairs each such block with its value.
    Phi { ty: TypeShape, incoming: Vec<(RawValue, usize)>, name: String },
    /// A call of `func`, taken as a function of signature `ty`, with `args`.
    Call { ty: TypeShape, func: RawValue, args: Vec<RawValue>, name: String },
    /// The function returns `value`, or nothing where none is given.
    Ret { value: Option<RawValue> },
    /// Control never gets here.
    Unreachable,
}

/// The mathematical value of an [`Instruction`].
#[allow(inconsistent_fields)]
pub enum InstructionModel {
    Br { target: nat },
    CondBr { cond: ValueModel, on_true: nat, on_false: nat },
    Binary { op: BinaryOp, lhs: ValueModel, rhs: ValueModel, name: Seq<char> },
    Unary { op: UnaryOp, value: ValueModel, name: Seq<char> },
    ICmp { pred: llvm_sys::LLVMIntPredicate, lhs: ValueModel, rhs: ValueModel, name: Seq<char> },
    FCmp { pred: llvm_sys::LLVMRealPredicate, lhs: ValueModel, rhs: ValueModel, name: Seq<char> },
    Cast { op: CastOp, value: ValueModel, dest: TypeModel, name: Seq<char> },
    GetElementPtr {
        in_bounds: bool,
        ty: TypeModel,
        ptr: ValueModel,
        indices: Seq<ValueModel>,
        name: Seq<char>,
    },
    MemSet { ptr: ValueModel, value: ValueModel, len: ValueModel, align: nat },
    MemCpy { dest: ValueModel, dest_align: nat, src: ValueModel, src_align: nat, size: ValueModel },
    MemMove { dest: ValueModel, dest_align: nat, src: ValueModel, src_align: nat, size: ValueModel },
    Alloca { ty: TypeModel, len: Option<ValueModel>, name: Seq<char>, alignment: nat },
    Load { ty: TypeModel, ptr: ValueModel, name: Seq<char> },
    Store { value: ValueModel, ptr: ValueModel },
    Phi { ty: TypeModel, incoming: Seq<(ValueModel, nat)>, name: Seq<char> },
    Call { ty: TypeModel, func: ValueModel, args: Seq<ValueModel>, name: Seq<char> },
    Ret { value: Option<ValueModel> },
    Unreachable,
}

/// A number of 32 bits as a natural number.
pub open spec fn count(n: u32) -> nat {
    n as nat
}

/// A position as a natural number.
pub open spec fn place(n: usize) -> nat {
    n as nat
}

/// The values of a list of raw handles, one by one.
pub open spec fn raw_views(values: Seq<RawValue>) -> Seq<ValueModel> {
    Seq::new(values.len(), |i: int| values[i]@)
}

/// The values of a list of incoming edges, one by one.
pub open spec fn edge_views(edges: Seq<(RawValue, usize)>) -> Seq<(ValueModel, nat)> {
    Seq::new(edges.len(), |i: int| (edges[i].0@, place(edges[i].1)))
}

/// The value of a raw handle that may be missing.
pub open spec fn optional_view(value: Option<RawValue>) -> Option<ValueModel> {
    match value {
        Some(raw) => Some(raw@),
        None => None,
    }
}

impl View for Instruction {
    type V = InstructionModel;

    open spec fn view(&self) -> InstructionModel {
        match self {
            Instruction::Br { target } => InstructionModel::Br { target: place(*target) },
            Instruction::CondBr { cond, on_true, on_false } => InstructionModel::CondBr {
                cond: cond@,
                on_true: place(*on_true),
                on_false: place(*on_false),
            },
            Instruction::Binary { op, lhs, rhs, name } => InstructionModel::Binary {
                op: *op,
                lhs: lhs@,
                rhs: rhs@,
                name: name@,
            },
            Instruction::Unary { op, value, name } => InstructionModel::Unary {
                op: *op,
                value: value@,
                name: name@,
            },
            Instruction::ICmp { pred, lhs, rhs, name } => InstructionModel::ICmp {
                pred: *pred,
                lhs: lhs@,
                rhs: rhs@,
                name: name@,
            },
            Instruction::FCmp { pred, lhs, rhs, name } => InstructionModel::FCmp {
                pred: *pred,
                lhs: lhs@,
                rhs: rhs@,
                name: name@,
            },
            Instruction::Cast { op, value, dest, name } => InstructionModel::Cast {
                op: *op,
                value: value@,
                dest: dest@,
                name: name@,
            },
            Instruction::GetElementPtr {
                in_bounds,
                ty,
                ptr,
                indices,
                name,
            } => InstructionModel::GetElementPtr {
                in_bounds: *in_bounds,
                ty: ty@,
                ptr: ptr@,
                indices: raw_views(indices@),
                name: name@,
            },
            Instruction::MemSet { ptr, value, len, align } => InstructionModel::MemSet {
                ptr: ptr@,
                value: value@,
                len: len@,
                align: count(*align),
            },
            Instruction::MemCpy {
                dest,
                dest_align,
                src,
                src_align,
                size,
            } => InstructionModel::MemCpy {
                dest: dest@,
                dest_align: count(*dest_align),
                src: src@,
                src_align: count(*src_align),
                size: size@,
            },
            Instruction::MemMove {
                dest,
                dest_align,
                src,
                src_align,
                size,
            } => InstructionModel::MemMove {
                dest: dest@,
                dest_align: count(*dest_align),
                src: src@,
                src_align: count(*src_align),
                size: size@,
            },
            Instruction::Alloca { ty, len, name, alignment } => InstructionModel::Alloca {
                ty: ty@,
                len: optional_view(*len),
                name: name@,
                alignment: count(*alignment),
            },
            Instruction::Load { ty, ptr, name } => InstructionModel::Load {
                ty: ty@,
                ptr: ptr@,
                name: name@,
            },
            Instruction::Store { value, ptr } => InstructionModel::Store {
                value: value@,
                ptr: ptr@,
            },
            Instruction::Phi { ty, incoming, name } => InstructionModel::Phi {
                ty: ty@,
                incoming: edge_views(incoming@),
                name: name@,
            },
            Instruction::Call { ty, func, args, name } => InstructionModel::Call {
                ty: ty@,
                func: func@,
                args: raw_views(args@),
                name: name@,
            },
            Instruction::Ret { value } => InstructionModel::Ret { value: optional_view(*value) },
            Instruction::Unreachable => InstructionModel::Unreachable,
        }
    }
}

/// The values of a sequence of instructions, one by one.
pub open spec fn instruction_views(instructions: Seq<Instruction>) -> Seq<InstructionModel> {
    Seq::new(instructions.len(), |i: int| instructions[i]@)
}

impl InstructionModel {
    /// The operation of the instruction.
    pub open spec fn opcode(self) -> Opcode {
        match self {
            InstructionModel::Br { .. } => Opcode::Br,
            InstructionModel::CondBr { .. } => Opcode::CondBr,
            InstructionModel::Binary { op, .. } => Opcode::Binary(op),
            InstructionModel::Unary { op, .. } => Opcode::Unary(op),
            InstructionModel::ICmp { .. } => Opcode::ICmp,
            InstructionModel::FCmp { .. } => Opcode::FCmp,
            InstructionModel::Cast { op, .. } => Opcode::Cast(op),
            InstructionModel::GetElementPtr { in_bounds, .. } => if in_bounds {
                Opcode::GetElementPtrInBounds
            } else {
                Opcode::GetElementPtr
            },
            InstructionModel::MemSet { .. } => Opcode::MemSet,
            InstructionModel::MemCpy { .. } => Opcode::MemCpy,
            InstructionModel::MemMove { .. } => Opcode::MemMove,
            InstructionModel::Alloca { len, .. } => if len is Some {
                Opcode::ArrayAlloca
            } else {
                Opcode::Alloca
            },
            InstructionModel::Load { .. } => Opcode::Load,
            InstructionModel::Store { .. } => Opcode::Store,
            InstructionModel::Phi { .. } => Opcode::Phi,
            InstructionModel::Call { .. } => Opcode::Call,
            InstructionModel::Ret { value } => if value is Some {
                Opcode::Ret
            } else {
                Opcode::RetVoid
            },
            InstructionModel::Unreachable => Opcode::Unreachable,
        }
    }

    /// A phi with one more incoming edge at the end; any other instruction as it
    /// is.
    pub open spec fn with_edge(self, value: ValueModel, block: nat) -> InstructionModel {
        match self {
            InstructionModel::Phi { ty, incoming, name } => InstructionModel::Phi {
                ty,
                incoming: incoming.push((value, block)),
                name,
            },
            other => other,
        }
    }

    /// A stack allocation with another alignment; any other instruction as it
    /// is.
    pub open spec fn with_alignment(self, alignment: nat) -> InstructionModel {
        match self {
            InstructionModel::Alloca { ty, len, name, .. } => InstructionModel::Alloca {
                ty,
                len,
                name,
                alignment,
            },
            other => other,
        }
    }
}

impl Instruction {
    /// The operation of the instruction.
    pub fn opcode(&self) -> (opcode: Opcode)
        ensures
            opcode == self@.opcode(),
    {
        match self {
            Instruction::Br { .. } => Opcode::Br,
            Instruction::CondBr { .. } => Opcode::CondBr,
            Instruction::Binary { op, .. } => Opcode::Binary(*op),
            Instruction::Unary { op, .. } => Opcode::Unary(*op),
            Instruction::ICmp { .. } => Opcode::ICmp,
            Instruction::FCmp { .. } => Opcode::FCmp,
            Instruction::Cast { op, .. } => Opcode::Cast(*op),
            Instruction::GetElementPtr { in_bounds, .. } => if *in_bounds {
                Opcode::GetElementPtrInBounds
            } else {
                Opcode::GetElementPtr
            },
            Instruction::MemSet { .. } => Opcode::MemSet,
            Instruction::MemCpy { .. } => Opcode::MemCpy,
            Instruction::MemMove { .. } => Opcode::MemMove,
            Instruction::Alloca { len, .. } => if len.is_some() {
                Opcode::ArrayAlloca
            } else {
                Opcode::Alloca
            },
            Instruction::Load { .. } => Opcode::Load,
            Instruction::Store { .. } => Opcode::Store,
            Instruction::Phi { .. } => Opcode::Phi,
            Instruction::Call { .. } => Opcode::Call,
            Instruction::Ret { value } => if value.is_some() {
                Opcode::Ret
            } else {
                Opcode::RetVoid
            },
            Instruction::Unreachable => Opcode::Unreachable,
        }
    }

    /// The name given to the result of the instruction when it was inserted;
    /// empty for an instruction that takes no name.
    pub fn name(&self) -> (name: &str)
        ensures
            name@ == self@.name(),
    {
        match self {
            Instruction::Binary { name, .. } => name.as_str(),
            Instruction::Unary { name, .. } => name.as_str(),
            Instruction::ICmp { name, .. } => name.as_str(),
            Instruction::FCmp { name, .. } => name.as_str(),
            Instruction::Cast { name, .. } => name.as_str(),
            Instruction::GetElementPtr { name, .. } => name.as_str(),
            Instruction::Alloca { name, .. } => name.as_str(),
            Instruction::Load { name, .. } => name.as_str(),
            Instruction::Phi { name, .. } => name.as_str(),
            Instruction::Call { name, .. } => name.as_str(),
            _ => no_name(),
        }
    }
}

impl InstructionModel {
    /// The name given to the result of the instruction when it was inserted;
    /// empty for an instruction that takes no name.
    pub open spec fn name(self) -> Seq<char> {
        match self {
            InstructionModel::Binary { name, .. } => name,
            InstructionModel::Unary { name, .. } => name,
            InstructionModel::ICmp { name, .. } => name,
            InstructionModel::FCmp { name, .. } => name,
            InstructionModel::Cast { name, .. } => name,
            InstructionModel::GetElementPtr { name, .. } => name,
            InstructionModel::Alloca { name, .. } => name,
            InstructionModel::Load { name, .. } => name,
            InstructionModel::Phi { name, .. } => name,
            InstructionModel::Call { name, .. } => name,
            _ => Seq::empty(),
        }
    }
}

/// The empty name.
pub fn no_name() -> (name: &'static str)
    ensures
        name@ == Seq::<char>::empty(),
{
    proof {
        reveal_strlit("");
        assert(""@ =~= Seq::<char>::empty());
    }
    ""
}

} // verus!
