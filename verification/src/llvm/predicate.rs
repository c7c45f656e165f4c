//! The comparison predicates of the code generator, which this layer passes
//! through without looking inside.

use vstd::prelude::*;

verus! {

/// `llvm_sys::LLVMIntPredicate`, the predicate of an integer comparison. Nothing
/// is claimed of its values.
#[verifier::external_type_specification]
#[verifier::external_body]
pub struct ExIntPredicate(llvm_sys::LLVMIntPredicate);

/// `llvm_sys::LLVMRealPredicate`, the predicate of a floating-point comparison.
/// Nothing is claimed of its values.
#[verifier::external_type_specification]
#[verifier::external_body]
pub struct ExRealPredicate(llvm_sys::LLVMRealPredicate);

} // verus!
