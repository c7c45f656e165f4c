//! Constants.
//!
//! A constant is made against a context, not a function: it is a value of every
//! function of every module of that context.

use std::marker::PhantomData;
use vstd::prelude::*;
use crate::id::IdRef;
use crate::inheritance::{DerivesFrom, DowncastFrom};
use crate::llvm::context::Context;
use crate::llvm::raw::{copy_bytes, ConstantModel, ConstantShape, RawValue, ValueKind, ValueModel};
use crate::llvm::shape::TypeModel;
use crate::llvm::ty::{ArrayType, IntegerType, PointerType, Type};
use crate::llvm::value::{KindMismatch, Value};
use crate::opaque::{Handle, Opaque};

verus! {

/// A value that is known to be a constant of the context `'cid`.
pub struct Constant<'cid, Ty> {
    _context: IdRef<'cid>,
    _type: PhantomData<Ty>,
    shape: ConstantShape,
}

/// The bits of a signed number, extended with its sign to 64 bits.
pub open spec fn sign_extended(value: int) -> u64 {
    if value >= 0 {
        value as u64
    } else {
        (value + 0x1_0000_0000_0000_0000) as u64
    }
}

/// The width of the integer type that a handle names; 0 for any other handle.
pub open spec fn integer_width(handle: Handle) -> nat {
    match handle.shape() {
        TypeModel::Integer(bits) => bits,
        _ => 0,
    }
}

impl<'cid, Ty> Opaque for Constant<'cid, Ty> {
    closed spec fn handle(&self) -> Handle {
        Handle::Value(ValueModel::Constant(self.shape@))
    }

    fn duplicate(&self) -> (copy: Constant<'cid, Ty>) {
        Constant::new(self.shape.duplicate())
    }
}

impl<'cid, SpecificTy: DerivesFrom<GeneralTy>, GeneralTy: Opaque> DerivesFrom<
    Constant<'cid, GeneralTy>,
> for Constant<'cid, SpecificTy> {
    fn widen(&self) -> (general: Constant<'cid, GeneralTy>) {
        Constant::new(self.shape.duplicate())
    }
}

impl<'cid, 'mid, 'fid, General: Opaque, Ty> DerivesFrom<General> for Constant<'cid, Ty> where
    Value<'cid, 'mid, 'fid, Ty>: DerivesFrom<General>,
 {
    fn widen(&self) -> (general: General) {
        let value: Value<'cid, 'mid, 'fid, Ty> = self.as_value();
        value.widen()
    }
}

impl<'cid, 'mid, 'fid, Ty: DerivesFrom<Ty>> DowncastFrom<
    Value<'cid, 'mid, 'fid, Ty>,
> for Constant<'cid, Ty> {
    /// A constant is a constant of the context.
    open spec fn covers(handle: Handle) -> bool {
        handle.value().kind() == ValueKind::Constant
    }

    proof fn lemma_covered(&self) {
        self.lemma_kind();
    }

    fn narrow(general: &Value<'cid, 'mid, 'fid, Ty>) -> (outcome: Result<Self, KindMismatch>) {
        Constant::downcast_value(general)
    }
}

impl<'cid> Constant<'cid, IntegerType<'cid>> {
    /// The one-bit constant 1 for `true`, 0 for `false`.
    pub fn bool(value: bool, context: &Context<'cid>) -> (constant: Constant<
        'cid,
        IntegerType<'cid>,
    >)
        ensures
            constant.handle() == Handle::Value(
                ValueModel::Constant(
                    ConstantModel::Integer(
                        1,
                        if value {
                            1u64
                        } else {
                            0u64
                        },
                        false,
                    ),
                ),
            ),
    {
        let bits: u64 = if value {
            1
        } else {
            0
        };
        Constant::integer(bits, &Type::i1(context), false)
    }

    /// The 8-bit constant `value`.
    pub fn i8(value: i8, context: &Context<'cid>) -> (constant: Constant<'cid, IntegerType<'cid>>)
        ensures
            constant.handle() == Handle::Value(
                ValueModel::Constant(ConstantModel::Integer(8, sign_extended(value as int), false)),
            ),
    {
        let bits: u64 = if value >= 0 {
            value as u64
        } else {
            u64::MAX - ((-(value + 1)) as u64)
        };
        Constant::integer(bits, &Type::i8(context), false)
    }

    /// The 32-bit constant `value`.
    pub fn i32(value: i32, context: &Context<'cid>) -> (constant: Constant<'cid, IntegerType<'cid>>)
        ensures
            constant.handle() == Handle::Value(
                ValueModel::Constant(
                    ConstantModel::Integer(32, sign_extended(value as int), false),
                ),
            ),
    {
        let bits: u64 = if value >= 0 {
            value as u64
        } else {
            u64::MAX - ((-(value + 1)) as u64)
        };
        Constant::integer(bits, &Type::i32(context), false)
    }

    /// The constant of type `ty` that `value` gives: its low bits, as many as
    /// the type is wide. Where the type is wider than 64 bits, `signed` says
    /// whether the upper bits repeat the sign bit of `value` or are zero.
    pub fn integer(value: u64, ty: &IntegerType<'cid>, signed: bool) -> (constant: Constant<
        'cid,
        IntegerType<'cid>,
    >)
        ensures
            constant.handle() == Handle::Value(
                ValueModel::Constant(
                    ConstantModel::Integer(integer_width(ty.handle()), value, signed),
                ),
            ),
    {
        Constant::new(ConstantShape::Integer(ty.bits(), value, signed))
    }
}

impl<'cid> Constant<'cid, Type<'cid>> {
    /// The double-precision constant with the bit pattern `bits`.
    pub fn double(bits: u64, context: &Context<'cid>) -> (constant: Constant<'cid, Type<'cid>>)
        ensures
            constant.handle() == Handle::Value(ValueModel::Constant(ConstantModel::Real(bits))),
    {
        Constant::new(ConstantShape::Real(bits))
    }
}

impl<'cid, Ty: DerivesFrom<Type<'cid>>> Constant<'cid, Ty> {
    /// The all-zero value of the type `ty`.
    pub fn null(ty: &Ty) -> (constant: Constant<'cid, Ty>)
        ensures
            constant.handle() == Handle::Value(
                ValueModel::Constant(ConstantModel::Null(ty.handle().shape())),
            ),
    {
        let root: Type<'cid> = ty.widen();
        Constant::new(ConstantShape::Null(root.as_raw()))
    }
}

impl<'cid, Ty: DerivesFrom<Type<'cid>>> Constant<'cid, PointerType<'cid, Ty>> {
    /// The null pointer of the pointer type `ty`.
    pub fn null_pointer(ty: &PointerType<'cid, Ty>) -> (constant: Constant<
        'cid,
        PointerType<'cid, Ty>,
    >)
        ensures
            constant.handle() == Handle::Value(
                ValueModel::Constant(ConstantModel::NullPointer(ty.handle().shape())),
            ),
    {
        let root: Type<'cid> = ty.widen();
        Constant::new(ConstantShape::NullPointer(root.as_raw()))
    }
}

impl<'cid> Constant<'cid, ArrayType<'cid, IntegerType<'cid>>> {
    /// The byte string `data` as an array of 8-bit integers. A zero byte is put
    /// after it unless `no_null_terminated` is set.
    pub fn string(data: &[u8], no_null_terminated: bool, context: &Context<'cid>) -> (constant:
        Constant<'cid, ArrayType<'cid, IntegerType<'cid>>>)
        ensures
            constant.handle() == Handle::Value(
                ValueModel::Constant(ConstantModel::String(data@, no_null_terminated)),
            ),
    {
        Constant::new(ConstantShape::String(copy_bytes(data), no_null_terminated))
    }
}

impl<'cid, Ty> Constant<'cid, Ty> {
    /// The handle of static type `Ty` that names the constant `shape`.
    pub(crate) fn new(shape: ConstantShape) -> (constant: Constant<'cid, Ty>)
        ensures
            constant.handle() == Handle::Value(ValueModel::Constant(shape@)),
    {
        Constant { _context: IdRef::new(), _type: PhantomData, shape }
    }

    /// Every handle of this type names a constant.
    pub proof fn lemma_kind(self)
        ensures
            self.handle() is Value,
            self.handle().value().kind() == ValueKind::Constant,
    {
    }

    /// Narrows a value to a constant: succeeds exactly if the value is a
    /// constant, and then names the same value.
    pub fn downcast_value<'mid, 'fid>(value: &Value<'cid, 'mid, 'fid, Ty>) -> (outcome: Result<
        Constant<'cid, Ty>,
        KindMismatch,
    >)
        ensures
            match outcome {
                Ok(constant) => constant.handle() == value.handle() && value.handle().value().kind()
                    == ValueKind::Constant,
                Err(mismatch) => mismatch.found == value.handle().value().kind() && mismatch.found
                    != ValueKind::Constant,
            },
    {
        match value.as_raw() {
            RawValue::Constant(shape) => Ok(Constant::new(shape)),
            other => Err(KindMismatch { found: other.kind() }),
        }
    }

    /// The constant as a value of any function of any module of its context.
    pub fn as_value<'mid, 'fid>(&self) -> (value: Value<'cid, 'mid, 'fid, Ty>)
        ensures
            value.handle() == self.handle(),
    {
        Value::new(RawValue::Constant(self.shape.duplicate()))
    }

    /// The identity of the constant, without brands and static type.
    pub fn as_raw(&self) -> (raw: RawValue)
        ensures
            self.handle() == Handle::Value(raw@),
    {
        RawValue::Constant(self.shape.duplicate())
    }
}

} // verus!
