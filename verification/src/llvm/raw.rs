//! Raw handles: the identity of a value, stripped of its brands and of its
//! static type.
//!
//! A value is a parameter of its function, the result of an instruction, a
//! constant of its context, or a global or a function of its module. The raw
//! handle says which one, and so carries the dynamic kind that a checked
//! downcast tests.
//!
//! A constant is known by how it was made: by the constructor and the
//! arguments. Nothing is worked out of them. Two constants that were made in
//! different ways are two constants here, even where a code generator would
//! make one constant of both: the 8-bit constant made from -1 and the one made
//! from the bits `0xFF` are such a pair, and so are the all-zero value and the
//! null pointer of one pointer type.

use vstd::prelude::*;
use crate::llvm::opcode::Opcode;
use crate::llvm::shape::{TypeModel, TypeShape};

verus! {

/// How a constant was made: the constructor, and the arguments as they were
/// given.
pub enum ConstantShape {
    /// An integer constant: the width of its type, the bits given for it, and
    /// whether they are sign-extended to the width.
    Integer(u32, u64, bool),
    /// A double-precision constant, by its bit pattern.
    Real(u64),
    /// The all-zero value of a type.
    Null(TypeShape),
    /// The null pointer of a pointer type.
    NullPointer(TypeShape),
    /// A byte string, and whether it is left without a terminating zero byte.
    String(Vec<u8>, bool),
}

/// The mathematical value of a [`ConstantShape`].
pub enum ConstantModel {
    Integer(nat, u64, bool),
    Real(u64),
    Null(TypeModel),
    NullPointer(TypeModel),
    String(Seq<u8>, bool),
}

impl View for ConstantShape {
    type V = ConstantModel;

    open spec fn view(&self) -> ConstantModel {
        match self {
            ConstantShape::Integer(bits, value, sign_extend) => ConstantModel::Integer(
                *bits as nat,
                *value,
                *sign_extend,
            ),
            ConstantShape::Real(bits) => ConstantModel::Real(*bits),
            ConstantShape::Null(ty) => ConstantModel::Null(ty@),
            ConstantShape::NullPointer(ty) => ConstantModel::NullPointer(ty@),
            ConstantShape::String(data, bare) => ConstantModel::String(data@, *bare),
        }
    }
}

/// A copy of a byte string.
pub fn copy_bytes(data: &[u8]) -> (copy: Vec<u8>)
    ensures
        copy@ == data@,
{
    let mut copy: Vec<u8> = Vec::new();
    let mut i: usize = 0;
    while i < data.len()
        invariant
            i <= data.len(),
            copy@ == data@.take(i as int),
        decreases data.len() - i,
    {
        copy.push(data[i]);
        i += 1;
        proof {
            assert(copy@ =~= data@.take(i as int));
        }
    }
    proof {
        assert(data@.take(data.len() as int) =~= data@);
    }
    copy
}

/// Whether two byte strings hold the same bytes.
pub fn same_bytes(a: &[u8], b: &[u8]) -> (equal: bool)
    ensures
        equal == (a@ == b@),
{
    if a.len() != b.len() {
        return false;
    }
    let mut i: usize = 0;
    while i < a.len()
        invariant
            i <= a.len(),
            a.len() == b.len(),
            forall|k: int| 0 <= k < i ==> a[k] == b[k],
        decreases a.len() - i,
    {
        if a[i] != b[i] {
            return false;
        }
        i += 1;
    }
    proof {
        assert(a@ =~= b@);
    }
    true
}

impl ConstantShape {
    /// A copy of this constant: made in the same way.
    pub fn duplicate(&self) -> (copy: ConstantShape)
        ensures
            copy@ == self@,
    {
        match self {
            ConstantShape::Integer(bits, value, sign_extend) => ConstantShape::Integer(
                *bits,
                *value,
                *sign_extend,
            ),
            ConstantShape::Real(bits) => ConstantShape::Real(*bits),
            ConstantShape::Null(ty) => ConstantShape::Null(ty.duplicate()),
            ConstantShape::NullPointer(ty) => ConstantShape::NullPointer(ty.duplicate()),
            ConstantShape::String(data, bare) => ConstantShape::String(
                copy_bytes(data.as_slice()),
                *bare,
            ),
        }
    }

    /// Whether two constants were made in the same way: by the same
    /// constructor from the same arguments. Constants that were made in
    /// different ways compare as different, whatever they stand for.
    pub fn same(&self, other: &ConstantShape) -> (equal: bool)
        ensures
            equal == (self@ == other@),
    {
        match (self, other) {
            (ConstantShape::Integer(ba, va, sa), ConstantShape::Integer(bb, vb, sb)) => {
                *ba == *bb && *va == *vb && *sa == *sb
            },
            (ConstantShape::Real(a), ConstantShape::Real(b)) => *a == *b,
            (ConstantShape::Null(a), ConstantShape::Null(b)) => a.same(b),
            (ConstantShape::NullPointer(a), ConstantShape::NullPointer(b)) => a.same(b),
            (ConstantShape::String(da, ba), ConstantShape::String(db, bb)) => {
                *ba == *bb && same_bytes(da.as_slice(), db.as_slice())
            },
            _ => false,
        }
    }
}

/// The identity of a value: its place in the ownership tree or, for a
/// constant, the way it was made.
pub enum RawValue {
    /// A parameter of the function, by its position.
    Parameter(usize),
    /// The result of an instruction: the block it stands in, its position in
    /// that block, and its operation.
    Instruction(usize, usize, Opcode),
    /// A constant of the context, by the way it was made.
    Constant(ConstantShape),
    /// A global of the module, by its position among the globals.
    Global(usize),
    /// A function of the module, by its position among the functions.
    Function(usize),
}

/// The mathematical value of a [`RawValue`].
pub enum ValueModel {
    Parameter(nat),
    Instruction(nat, nat, Opcode),
    Constant(ConstantModel),
    Global(nat),
    Function(nat),
}

/// The dynamic kind of a value: what a checked downcast asks for.
#[derive(Clone, Copy, Debug, PartialEq, Eq, Structural)]
pub enum ValueKind {
    Parameter,
    Instruction(Opcode),
    Constant,
    Global,
    Function,
}

impl ValueModel {
    /// The dynamic kind of the value.
    pub open spec fn kind(self) -> ValueKind {
        match self {
            ValueModel::Parameter(_) => ValueKind::Parameter,
            ValueModel::Instruction(_, _, opcode) => ValueKind::Instruction(opcode),
            ValueModel::Constant(_) => ValueKind::Constant,
            ValueModel::Global(_) => ValueKind::Global,
            ValueModel::Function(_) => ValueKind::Function,
        }
    }
}

impl View for RawValue {
    type V = ValueModel;

    open spec fn view(&self) -> ValueModel {
        match self {
            RawValue::Parameter(position) => ValueModel::Parameter(*position as nat),
            RawValue::Instruction(block, index, opcode) => ValueModel::Instruction(
                *block as nat,
                *index as nat,
                *opcode,
            ),
            RawValue::Constant(shape) => ValueModel::Constant(shape@),
            RawValue::Global(position) => ValueModel::Global(*position as nat),
            RawValue::Function(position) => ValueModel::Function(*position as nat),
        }
    }
}

impl RawValue {
    /// A copy of this handle with the same value.
    pub fn duplicate(&self) -> (copy: RawValue)
        ensures
            copy@ == self@,
    {
        match self {
            RawValue::Parameter(position) => RawValue::Parameter(*position),
            RawValue::Instruction(block, index, opcode) => RawValue::Instruction(
                *block,
                *index,
                *opcode,
            ),
            RawValue::Constant(shape) => RawValue::Constant(shape.duplicate()),
            RawValue::Global(position) => RawValue::Global(*position),
            RawValue::Function(position) => RawValue::Function(*position),
        }
    }

    /// Whether two handles have the same identity: the same place in the
    /// ownership tree or, for constants, the same way of making.
    pub fn same(&self, other: &RawValue) -> (equal: bool)
        ensures
            equal == (self@ == other@),
    {
        match (self, other) {
            (RawValue::Parameter(a), RawValue::Parameter(b)) => *a == *b,
            (RawValue::Instruction(ba, ia, oa), RawValue::Instruction(bb, ib, ob)) => {
                *ba == *bb && *ia == *ib && *oa == *ob
            },
            (RawValue::Constant(a), RawValue::Constant(b)) => a.same(b),
            (RawValue::Global(a), RawValue::Global(b)) => *a == *b,
            (RawValue::Function(a), RawValue::Function(b)) => *a == *b,
            _ => false,
        }
    }

    /// The dynamic kind of the value.
    pub fn kind(&self) -> (kind: ValueKind)
        ensures
            kind == self@.kind(),
    {
        match self {
            RawValue::Parameter(_) => ValueKind::Parameter,
            RawValue::Instruction(_, _, opcode) => ValueKind::Instruction(*opcode),
            RawValue::Constant(_) => ValueKind::Constant,
            RawValue::Global(_) => ValueKind::Global,
            RawValue::Function(_) => ValueKind::Function,
        }
    }
}

} // verus!
