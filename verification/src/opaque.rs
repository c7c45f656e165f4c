//! Opaque handles.
//!
//! A handle is a typed name for an object that the holder never reads. All that
//! a handle is, besides its static type and its brands, is the identity of the
//! object it names.

use vstd::prelude::*;
use crate::llvm::raw::ValueModel;
use crate::llvm::shape::TypeModel;

verus! {

/// The identity that a handle carries.
pub enum Handle {
    /// A type, known by its shape.
    Type(TypeModel),
    /// A value, known by its place in the ownership tree or, for a constant,
    /// by the way it was made.
    Value(ValueModel),
}

impl Handle {
    /// The shape of the type that the handle names. A handle of a value names no
    /// type; for such a handle this is `Void`.
    pub open spec fn shape(self) -> TypeModel {
        match self {
            Handle::Type(shape) => shape,
            Handle::Value(_) => TypeModel::Void,
        }
    }

    /// The value that the handle names. A handle of a type names no value; for
    /// such a handle this is the first parameter.
    pub open spec fn value(self) -> ValueModel {
        match self {
            Handle::Type(_) => ValueModel::Parameter(0),
            Handle::Value(value) => value,
        }
    }
}

/// The failure of an edit through a handle: the handle names nothing in the
/// block or module that was given with it.
#[derive(Clone, Copy, Debug, PartialEq, Eq, Structural)]
pub struct Misplaced;

/// A handle type.
pub trait Opaque: Sized {
    /// The identity of the object that this handle names.
    spec fn handle(&self) -> Handle;

    /// A second handle to the same object.
    fn duplicate(&self) -> (copy: Self)
        ensures
            copy.handle() == self.handle(),
    ;
}

} // verus!
