//! The operations of instructions.

use vstd::prelude::*;

verus! {

/// An operation that takes two values of one type and gives a value of that
/// type.
#[derive(Clone, Copy, Debug, PartialEq, Eq, Structural)]
pub enum BinaryOp {
    Add,
    AddNsw,
    AddNuw,
    FAdd,
    Sub,
    SubNsw,
    SubNuw,
    FSub,
    Mul,
    MulNsw,
    MulNuw,
    FMul,
    UDiv,
    UDivExact,
    SDiv,
    SDivExact,
    FDiv,
    URem,
    SRem,
    FRem,
    Shl,
    LShr,
    AShr,
    And,
    Or,
    Xor,
}

/// An operation that takes one value and gives a value of the same type.
#[derive(Clone, Copy, Debug, PartialEq, Eq, Structural)]
pub enum UnaryOp {
    Neg,
    FNeg,
    Not,
}

/// An operation that takes a value to another type.
#[derive(Clone, Copy, Debug, PartialEq, Eq, Structural)]
pub enum CastOp {
    Trunc,
    FpTrunc,
    ZExt,
    SExt,
    FpExt,
    FpToUi,
    FpToSi,
    UiToFp,
    SiToFp,
    PtrToInt,
    IntToPtr,
    BitCast,
}

/// The operation of an instruction.
#[derive(Clone, Copy, Debug, PartialEq, Eq, Structural)]
pub enum Opcode {
    Br,
    CondBr,
    Binary(BinaryOp),
    Unary(UnaryOp),
    ICmp,
    FCmp,
    Cast(CastOp),
    GetElementPtr,
    GetElementPtrInBounds,
    MemSet,
    MemCpy,
    MemMove,
    Alloca,
    ArrayAlloca,
    Load,
    Store,
    Phi,
    Call,
    Ret,
    RetVoid,
    Unreachable,
}

} // verus!
