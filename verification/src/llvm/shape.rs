//! The shape of a type: what a type handle denotes.
//!
//! Two types of one context are the same type exactly if they have the same
//! shape, so a shape stands for the identity of a type.

use vstd::prelude::*;

verus! {

/// The shape of a type, as the handles hold it.
pub enum TypeShape {
    Void,
    Float,
    Double,
    /// An integer type and its width in bits.
    Integer(u32),
    /// A pointer type: the type pointed to and the address space.
    Pointer(Box<TypeShape>, u32),
    /// An array type: the element type and the number of elements.
    Array(Box<TypeShape>, u32),
    /// A function signature: parameter types, result type, and whether further
    /// arguments may follow the declared ones.
    Function(Vec<TypeShape>, Box<TypeShape>, bool),
}

/// The mathematical value of a [`TypeShape`].
pub enum TypeModel {
    Void,
    Float,
    Double,
    Integer(nat),
    Pointer(Box<TypeModel>, nat),
    Array(Box<TypeModel>, nat),
    Function(Seq<TypeModel>, Box<TypeModel>, bool),
}

impl TypeShape {
    /// The value of this shape.
    pub open spec fn model(&self) -> TypeModel
        decreases self,
    {
        match self {
            TypeShape::Void => TypeModel::Void,
            TypeShape::Float => TypeModel::Float,
            TypeShape::Double => TypeModel::Double,
            TypeShape::Integer(bits) => TypeModel::Integer(*bits as nat),
            TypeShape::Pointer(pointee, space) => TypeModel::Pointer(
                Box::new(pointee.model()),
                *space as nat,
            ),
            TypeShape::Array(element, count) => TypeModel::Array(
                Box::new(element.model()),
                *count as nat,
            ),
            TypeShape::Function(params, ret, var_arg) => TypeModel::Function(
                views_of(params@),
                Box::new(ret.model()),
                *var_arg,
            ),
        }
    }
}

impl View for TypeShape {
    type V = TypeModel;

    open spec fn view(&self) -> TypeModel {
        self.model()
    }
}

/// The values of a sequence of shapes, one by one.
pub open spec fn views_of(shapes: Seq<TypeShape>) -> Seq<TypeModel>
    decreases shapes,
{
    Seq::new(
        shapes.len(),
        |i: int|
            if 0 <= i < shapes.len() {
                shapes[i].model()
            } else {
                TypeModel::Void
            },
    )
}

impl TypeShape {
    /// A copy of this shape with the same value.
    pub fn duplicate(&self) -> (copy: TypeShape)
        ensures
            copy@ == self@,
        decreases self,
    {
        match self {
            TypeShape::Void => TypeShape::Void,
            TypeShape::Float => TypeShape::Float,
            TypeShape::Double => TypeShape::Double,
            TypeShape::Integer(bits) => TypeShape::Integer(*bits),
            TypeShape::Pointer(pointee, space) => TypeShape::Pointer(
                Box::new(pointee.duplicate()),
                *space,
            ),
            TypeShape::Array(element, count) => TypeShape::Array(
                Box::new(element.duplicate()),
                *count,
            ),
            TypeShape::Function(params, ret, var_arg) => {
                let mut copies: Vec<TypeShape> = Vec::new();
                let mut i: usize = 0;
                while i < params.len()
                    invariant
                        *self matches TypeShape::Function(ps, _, _) && ps == *params,
                        i <= params.len(),
                        copies.len() == i,
                        forall|k: int| 0 <= k < i ==> (#[trigger] copies[k])@ == params[k]@,
                    decreases params.len() - i,
                {
                    copies.push(params[i].duplicate());
                    i += 1;
                }
                proof {
                    assert(views_of(copies@) =~= views_of(params@));
                }
                TypeShape::Function(copies, Box::new(ret.duplicate()), *var_arg)
            },
        }
    }

    /// Whether two shapes have the same value.
    pub fn same(&self, other: &TypeShape) -> (equal: bool)
        ensures
            equal == (self@ == other@),
        decreases self,
    {
        match (self, other) {
            (TypeShape::Void, TypeShape::Void) => true,
            (TypeShape::Float, TypeShape::Float) => true,
            (TypeShape::Double, TypeShape::Double) => true,
            (TypeShape::Integer(a), TypeShape::Integer(b)) => *a == *b,
            (TypeShape::Pointer(a, sa), TypeShape::Pointer(b, sb)) => *sa == *sb && a.same(b),
            (TypeShape::Array(a, ca), TypeShape::Array(b, cb)) => *ca == *cb && a.same(b),
            (TypeShape::Function(pa, ra, va), TypeShape::Function(pb, rb, vb)) => {
                if *va != *vb || pa.len() != pb.len() || !ra.same(rb) {
                    proof {
                        assert(views_of(pa@).len() == pa.len());
                        assert(views_of(pb@).len() == pb.len());
                    }
                    return false;
                }
                let mut i: usize = 0;
                while i < pa.len()
                    invariant
                        *self matches TypeShape::Function(ps, _, _) && ps == *pa,
                        self@ == TypeModel::Function(views_of(pa@), Box::new(ra@), *va),
                        other@ == TypeModel::Function(views_of(pb@), Box::new(rb@), *vb),
                        i <= pa.len(),
                        pa.len() == pb.len(),
                        forall|k: int| 0 <= k < i ==> (#[trigger] pa[k])@ == pb[k]@,
                    decreases pa.len() - i,
                {
                    if !pa[i].same(&pb[i]) {
                        proof {
                            assert(views_of(pa@)[i as int] == pa[i as int]@);
                            assert(views_of(pb@)[i as int] == pb[i as int]@);
                        }
                        return false;
                    }
                    i += 1;
                }
                proof {
                    assert(views_of(pa@) =~= views_of(pb@));
                }
                true
            },
            _ => false,
        }
    }
}

} // verus!
