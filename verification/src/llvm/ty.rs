//! Type handles.
//!
//! [`Type`] names any type of a context. The other handle types name types of one
//! form only, fixed by how the handle is made: an integer type, a pointer to a
//! type named by another handle type, an array of such, a function signature.
//! Each of them derives from [`Type`], and pointers and arrays derive from
//! pointers and arrays of whatever their element derives from.

use vstd::prelude::*;
use crate::id::IdRef;
use crate::inheritance::DerivesFrom;
use crate::llvm::context::Context;
use crate::llvm::shape::{views_of, TypeModel, TypeShape};
use crate::opaque::{Handle, Opaque};

verus! {

/// Any type of the context `'cid`.
pub struct Type<'cid> {
    _context_id: IdRef<'cid>,
    shape: TypeShape,
}

/// A pointer type of the context `'cid`, whose pointee is named by `SubType`.
pub struct PointerType<'cid, SubType> {
    _context_id: IdRef<'cid>,
    pointee: SubType,
    address_space: u32,
}

/// An array type of the context `'cid`, whose element is named by `SubType`.
pub struct ArrayType<'cid, SubType> {
    _context_id: IdRef<'cid>,
    element: SubType,
    count: u32,
}

/// A function signature of the context `'cid`.
pub struct FunctionType<'cid> {
    _context_id: IdRef<'cid>,
    params: Vec<TypeShape>,
    ret: TypeShape,
    var_arg: bool,
}

/// An integer type of the context `'cid`.
pub struct IntegerType<'cid> {
    _context_id: IdRef<'cid>,
    bits: u32,
}

impl<'cid> Opaque for Type<'cid> {
    closed spec fn handle(&self) -> Handle {
        Handle::Type(self.shape@)
    }

    fn duplicate(&self) -> (copy: Type<'cid>) {
        Type { _context_id: self._context_id, shape: self.shape.duplicate() }
    }
}

impl<'cid> Opaque for IntegerType<'cid> {
    closed spec fn handle(&self) -> Handle {
        Handle::Type(TypeModel::Integer(self.bits as nat))
    }

    fn duplicate(&self) -> (copy: IntegerType<'cid>) {
        IntegerType { _context_id: self._context_id, bits: self.bits }
    }
}

impl<'cid> Opaque for FunctionType<'cid> {
    closed spec fn handle(&self) -> Handle {
        Handle::Type(TypeModel::Function(views_of(self.params@), Box::new(self.ret@), self.var_arg))
    }

    fn duplicate(&self) -> (copy: FunctionType<'cid>) {
        FunctionType {
            _context_id: self._context_id,
            params: duplicate_shapes(&self.params),
            ret: self.ret.duplicate(),
            var_arg: self.var_arg,
        }
    }
}

impl<'cid, SubType: Opaque> Opaque for PointerType<'cid, SubType> {
    closed spec fn handle(&self) -> Handle {
        Handle::Type(
            TypeModel::Pointer(Box::new(self.pointee.handle().shape()), self.address_space as nat),
        )
    }

    fn duplicate(&self) -> (copy: PointerType<'cid, SubType>) {
        PointerType {
            _context_id: self._context_id,
            pointee: self.pointee.duplicate(),
            address_space: self.address_space,
        }
    }
}

impl<'cid, SubType: Opaque> Opaque for ArrayType<'cid, SubType> {
    closed spec fn handle(&self) -> Handle {
        Handle::Type(TypeModel::Array(Box::new(self.element.handle().shape()), self.count as nat))
    }

    fn duplicate(&self) -> (copy: ArrayType<'cid, SubType>) {
        ArrayType {
            _context_id: self._context_id,
            element: self.element.duplicate(),
            count: self.count,
        }
    }
}

/// A copy of each shape of a list, in order.
pub fn duplicate_shapes(shapes: &Vec<TypeShape>) -> (copies: Vec<TypeShape>)
    ensures
        views_of(copies@) == views_of(shapes@),
{
    let mut copies: Vec<TypeShape> = Vec::new();
    let mut i: usize = 0;
    while i < shapes.len()
        invariant
            i <= shapes.len(),
            copies.len() == i,
            forall|k: int| 0 <= k < i ==> (#[trigger] copies[k])@ == shapes[k]@,
        decreases shapes.len() - i,
    {
        copies.push(shapes[i].duplicate());
        i += 1;
    }
    proof {
        assert(views_of(copies@) =~= views_of(shapes@));
    }
    copies
}

impl<'cid> DerivesFrom<Type<'cid>> for Type<'cid> {
    fn widen(&self) -> (general: Type<'cid>) {
        self.duplicate()
    }
}

impl<'cid> DerivesFrom<IntegerType<'cid>> for IntegerType<'cid> {
    fn widen(&self) -> (general: IntegerType<'cid>) {
        self.duplicate()
    }
}

impl<'cid, General: Opaque> DerivesFrom<General> for IntegerType<'cid> where
    Type<'cid>: DerivesFrom<General>,
 {
    fn widen(&self) -> (general: General) {
        let root = Type { _context_id: self._context_id, shape: TypeShape::Integer(self.bits) };
        root.widen()
    }
}

impl<'cid> DerivesFrom<FunctionType<'cid>> for FunctionType<'cid> {
    fn widen(&self) -> (general: FunctionType<'cid>) {
        self.duplicate()
    }
}

impl<'cid, General: Opaque> DerivesFrom<General> for FunctionType<'cid> where
    Type<'cid>: DerivesFrom<General>,
 {
    fn widen(&self) -> (general: General) {
        let root = Type {
            _context_id: self._context_id,
            shape: TypeShape::Function(
                duplicate_shapes(&self.params),
                Box::new(self.ret.duplicate()),
                self.var_arg,
            ),
        };
        root.widen()
    }
}

impl<'cid, Specific: DerivesFrom<General>, General: Opaque> DerivesFrom<
    PointerType<'cid, General>,
> for PointerType<'cid, Specific> {
    fn widen(&self) -> (general: PointerType<'cid, General>) {
        PointerType {
            _context_id: self._context_id,
            pointee: self.pointee.widen(),
            address_space: self.address_space,
        }
    }
}

impl<'cid, General: Opaque, SubType: DerivesFrom<Type<'cid>>> DerivesFrom<
    General,
> for PointerType<'cid, SubType> where Type<'cid>: DerivesFrom<General> {
    fn widen(&self) -> (general: General) {
        let pointee: Type<'cid> = self.pointee.widen();
        let root = Type {
            _context_id: self._context_id,
            shape: TypeShape::Pointer(Box::new(pointee.shape), self.address_space),
        };
        root.widen()
    }
}

impl<'cid, Specific: DerivesFrom<General>, General: Opaque> DerivesFrom<
    ArrayType<'cid, General>,
> for ArrayType<'cid, Specific> {
    fn widen(&self) -> (general: ArrayType<'cid, General>) {
        ArrayType {
            _context_id: self._context_id,
            element: self.element.widen(),
            count: self.count,
        }
    }
}

impl<'cid, General: Opaque, SubType: DerivesFrom<Type<'cid>>> DerivesFrom<
    General,
> for ArrayType<'cid, SubType> where Type<'cid>: DerivesFrom<General> {
    fn widen(&self) -> (general: General) {
        let element: Type<'cid> = self.element.widen();
        let root = Type {
            _context_id: self._context_id,
            shape: TypeShape::Array(Box::new(element.shape), self.count),
        };
        root.widen()
    }
}

/// The shapes that a list of type handles names, in order.
pub open spec fn shapes_named<'cid>(types: Seq<&Type<'cid>>) -> Seq<TypeModel> {
    Seq::new(types.len(), |i: int| types[i].handle().shape())
}

impl<'cid> Type<'cid> {
    /// The shape of the type that this handle names.
    pub fn as_raw(&self) -> (raw: TypeShape)
        ensures
            self.handle() == Handle::Type(raw@),
    {
        self.shape.duplicate()
    }

    /// The handle that names the type of the given shape.
    pub fn from_raw(context: &Context<'cid>, raw: TypeShape) -> (ty: Type<'cid>)
        ensures
            ty.handle() == Handle::Type(raw@),
    {
        Type { _context_id: context.brand(), shape: raw }
    }

    /// The single-precision floating-point type.
    pub fn float(context: &Context<'cid>) -> (ty: Type<'cid>)
        ensures
            ty.handle() == Handle::Type(TypeModel::Float),
    {
        Type { _context_id: context.brand(), shape: TypeShape::Float }
    }

    /// The double-precision floating-point type.
    pub fn double(context: &Context<'cid>) -> (ty: Type<'cid>)
        ensures
            ty.handle() == Handle::Type(TypeModel::Double),
    {
        Type { _context_id: context.brand(), shape: TypeShape::Double }
    }

    /// The type without values.
    pub fn void(context: &Context<'cid>) -> (ty: Type<'cid>)
        ensures
            ty.handle() == Handle::Type(TypeModel::Void),
    {
        Type { _context_id: context.brand(), shape: TypeShape::Void }
    }

    /// The type of pointers to `inner` in the given address space.
    pub fn pointer<SubType: DerivesFrom<Type<'cid>>>(inner: &SubType, address_space: u32) -> (ty:
        PointerType<'cid, SubType>)
        ensures
            ty.handle() == Handle::Type(
                TypeModel::Pointer(Box::new(inner.handle().shape()), address_space as nat),
            ),
    {
        PointerType { _context_id: IdRef::new(), pointee: inner.duplicate(), address_space }
    }

    /// The type of arrays of `count` elements of type `inner`.
    pub fn array<SubType: DerivesFrom<Type<'cid>>>(inner: &SubType, count: u32) -> (ty: ArrayType<
        'cid,
        SubType,
    >)
        ensures
            ty.handle() == Handle::Type(
                TypeModel::Array(Box::new(inner.handle().shape()), count as nat),
            ),
    {
        ArrayType { _context_id: IdRef::new(), element: inner.duplicate(), count }
    }

    /// The signature of functions that take `params` and return `ret`. With
    /// `var_arg`, further arguments may follow the declared ones.
    pub fn function(params: &[&Type<'cid>], ret: &Type<'cid>, var_arg: bool) -> (ty: FunctionType<
        'cid,
    >)
        ensures
            ty.handle() == Handle::Type(
                TypeModel::Function(shapes_named(params@), Box::new(ret.handle().shape()), var_arg),
            ),
    {
        let mut shapes: Vec<TypeShape> = Vec::new();
        let mut i: usize = 0;
        while i < params.len()
            invariant
                i <= params.len(),
                shapes.len() == i,
                forall|k: int|
                    0 <= k < i ==> (#[trigger] shapes[k])@ == params[k].handle().shape(),
            decreases params.len() - i,
        {
            shapes.push(params[i].shape.duplicate());
            i += 1;
        }
        proof {
            assert(views_of(shapes@) =~= shapes_named(params@));
        }
        FunctionType { _context_id: ret._context_id, params: shapes, ret: ret.shape.duplicate(), var_arg }
    }

    /// The integer type of one bit.
    pub fn i1(context: &Context<'cid>) -> (ty: IntegerType<'cid>)
        ensures
            ty.handle() == Handle::Type(TypeModel::Integer(1)),
    {
        IntegerType { _context_id: context.brand(), bits: 1 }
    }

    /// The integer type of 8 bits.
    pub fn i8(context: &Context<'cid>) -> (ty: IntegerType<'cid>)
        ensures
            ty.handle() == Handle::Type(TypeModel::Integer(8)),
    {
        IntegerType { _context_id: context.brand(), bits: 8 }
    }

    /// The integer type of 16 bits.
    pub fn i16(context: &Context<'cid>) -> (ty: IntegerType<'cid>)
        ensures
            ty.handle() == Handle::Type(TypeModel::Integer(16)),
    {
        IntegerType { _context_id: context.brand(), bits: 16 }
    }

    /// The integer type of 32 bits.
    pub fn i32(context: &Context<'cid>) -> (ty: IntegerType<'cid>)
        ensures
            ty.handle() == Handle::Type(TypeModel::Integer(32)),
    {
        IntegerType { _context_id: context.brand(), bits: 32 }
    }

    /// The integer type of 64 bits.
    pub fn i64(context: &Context<'cid>) -> (ty: IntegerType<'cid>)
        ensures
            ty.handle() == Handle::Type(TypeModel::Integer(64)),
    {
        IntegerType { _context_id: context.brand(), bits: 64 }
    }
}

impl<'cid> IntegerType<'cid> {
    /// The width of the type in bits.
    pub fn bits(&self) -> (bits: u32)
        ensures
            self.handle() == Handle::Type(TypeModel::Integer(bits as nat)),
    {
        self.bits
    }
}

impl<'cid> FunctionType<'cid> {
    /// Whether further arguments may follow the declared ones.
    pub fn is_var_arg(&self) -> (var_arg: bool)
        ensures
            self.handle().shape() matches TypeModel::Function(_, _, flag) && var_arg == flag,
    {
        self.var_arg
    }

    /// The number of declared parameters.
    pub fn num_params(&self) -> (count: usize)
        ensures
            self.handle().shape() matches TypeModel::Function(params, _, _) && count
                == params.len(),
    {
        self.params.len()
    }

    /// Whether two handles name the same signature.
    pub fn same(&self, other: &FunctionType<'cid>) -> (equal: bool)
        ensures
            equal == (self.handle() == other.handle()),
            equal == (self.handle().shape() == other.handle().shape()),
    {
        self.as_raw().same(&other.as_raw())
    }

    /// The signature as a shape.
    pub fn as_raw(&self) -> (raw: TypeShape)
        ensures
            self.handle() == Handle::Type(raw@),
    {
        TypeShape::Function(
            duplicate_shapes(&self.params),
            Box::new(self.ret.duplicate()),
            self.var_arg,
        )
    }
}

impl<'cid, PointeeTy: Opaque> PointerType<'cid, PointeeTy> {
    /// The type pointed to.
    pub fn pointee_ty(&self) -> (pointee: &PointeeTy)
        ensures
            self.handle().shape() matches TypeModel::Pointer(inner, _) && *inner
                == pointee.handle().shape(),
    {
        &self.pointee
    }

    /// The address space of the pointers.
    pub fn address_space(&self) -> (space: u32)
        ensures
            self.handle().shape() matches TypeModel::Pointer(_, s) && s == space as nat,
    {
        self.address_space
    }
}

impl<'cid, ElementTy: Opaque> ArrayType<'cid, ElementTy> {
    /// The type of the elements.
    pub fn element_ty(&self) -> (element: &ElementTy)
        ensures
            self.handle().shape() matches TypeModel::Array(inner, _) && *inner
                == element.handle().shape(),
    {
        &self.element
    }

    /// The number of elements.
    pub fn count(&self) -> (count: u32)
        ensures
            self.handle().shape() matches TypeModel::Array(_, n) && n == count as nat,
    {
        self.count
    }
}

} // verus!
