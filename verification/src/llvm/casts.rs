//! What holds of widening a handle and narrowing it again.
//!
//! A phi, a stack allocation, a global and a constant can each be widened to a
//! plain value. Narrowing that value to the kind it came from succeeds and gives
//! the handle back; narrowing it to any other kind fails.

use vstd::prelude::*;
use crate::inheritance::{upcast, DerivesFrom};
use crate::llvm::alloca::{is_alloca, Alloca};
use crate::llvm::constant::Constant;
use crate::llvm::global::Global;
use crate::llvm::phi::Phi;
use crate::llvm::opcode::Opcode;
use crate::llvm::raw::ValueKind;
use crate::llvm::ty::PointerType;
use crate::llvm::value::{KindMismatch, Value};
use crate::opaque::Opaque;

verus! {

/// Whether a value of kind `kind` is the result of a phi instruction.
pub open spec fn is_phi(kind: ValueKind) -> bool {
    kind == ValueKind::Instruction(Opcode::Phi)
}

/// The kinds that a checked downcast asks for exclude each other.
pub proof fn lemma_kinds_exclude_each_other(kind: ValueKind)
    ensures
        !(is_phi(kind) && is_alloca(kind)),
        !(is_phi(kind) && kind == ValueKind::Global),
        !(is_phi(kind) && kind == ValueKind::Constant),
        !(is_alloca(kind) && kind == ValueKind::Global),
        !(is_alloca(kind) && kind == ValueKind::Constant),
        !(kind == ValueKind::Global && kind == ValueKind::Constant),
{
}

/// A phi that was widened to a value narrows back to the same phi.
pub proof fn lemma_phi_round_trip<'cid, 'mid, 'fid, Ty: DerivesFrom<Ty>>(
    phi: Phi<'cid, 'mid, 'fid, Ty>,
    wide: Value<'cid, 'mid, 'fid, Ty>,
    back: Result<Phi<'cid, 'mid, 'fid, Ty>, KindMismatch>,
)
    requires
        call_ensures(
            upcast::<Phi<'cid, 'mid, 'fid, Ty>, Value<'cid, 'mid, 'fid, Ty>>,
            (&phi,),
            wide,
        ),
        call_ensures(Phi::<'cid, 'mid, 'fid, Ty>::downcast_value, (&wide,), back),
    ensures
        back == Ok::<Phi<'cid, 'mid, 'fid, Ty>, KindMismatch>(phi),
{
    phi.lemma_kind();
    match back {
        Ok(narrow) => {
            narrow.lemma_handle_is_all(phi);
        },
        Err(_) => {},
    }
}

/// A stack allocation that was widened to a value narrows back to the same
/// allocation.
pub proof fn lemma_alloca_round_trip<'cid, 'mid, 'fid, Ty: DerivesFrom<Ty>>(
    alloca: Alloca<'cid, 'mid, 'fid, Ty>,
    wide: Value<'cid, 'mid, 'fid, PointerType<'cid, Ty>>,
    back: Result<Alloca<'cid, 'mid, 'fid, Ty>, KindMismatch>,
)
    requires
        call_ensures(
            upcast::<
                Alloca<'cid, 'mid, 'fid, Ty>,
                Value<'cid, 'mid, 'fid, PointerType<'cid, Ty>>,
            >,
            (&alloca,),
            wide,
        ),
        call_ensures(Alloca::<'cid, 'mid, 'fid, Ty>::downcast_value, (&wide,), back),
    ensures
        back == Ok::<Alloca<'cid, 'mid, 'fid, Ty>, KindMismatch>(alloca),
{
    alloca.lemma_kind();
    match back {
        Ok(narrow) => {
            narrow.lemma_handle_is_all(alloca);
        },
        Err(_) => {},
    }
}

/// A global that was widened to a value narrows back to the same global.
pub proof fn lemma_global_round_trip<'cid, 'mid, 'fid, Ty: DerivesFrom<Ty>>(
    global: Global<'cid, 'mid, Ty>,
    wide: Value<'cid, 'mid, 'fid, PointerType<'cid, Ty>>,
    back: Result<Global<'cid, 'mid, Ty>, KindMismatch>,
)
    requires
        call_ensures(
            upcast::<Global<'cid, 'mid, Ty>, Value<'cid, 'mid, 'fid, PointerType<'cid, Ty>>>,
            (&global,),
            wide,
        ),
        call_ensures(Global::<'cid, 'mid, Ty>::downcast_value, (&wide,), back),
    ensures
        back == Ok::<Global<'cid, 'mid, Ty>, KindMismatch>(global),
{
    global.lemma_kind();
    match back {
        Ok(narrow) => {
            narrow.lemma_handle_is_all(global);
        },
        Err(_) => {},
    }
}

/// A constant that was widened to a value narrows back to a handle of the same
/// constant.
pub proof fn lemma_constant_round_trip<'cid, 'mid, 'fid, Ty: DerivesFrom<Ty>>(
    constant: Constant<'cid, Ty>,
    wide: Value<'cid, 'mid, 'fid, Ty>,
    back: Result<Constant<'cid, Ty>, KindMismatch>,
)
    requires
        call_ensures(
            upcast::<Constant<'cid, Ty>, Value<'cid, 'mid, 'fid, Ty>>,
            (&constant,),
            wide,
        ),
        call_ensures(Constant::<'cid, Ty>::downcast_value, (&wide,), back),
    ensures
        back matches Ok(narrow) && narrow.handle() == constant.handle(),
{
    constant.lemma_kind();
}

/// Of the four narrowings of one value, one succeeds at most; and the one that
/// succeeds is the one that the kind of the value asks for.
pub proof fn lemma_one_kind_only<'cid, 'mid, 'fid, Ty>(
    value: Value<'cid, 'mid, 'fid, PointerType<'cid, Ty>>,
    as_phi: Result<Phi<'cid, 'mid, 'fid, PointerType<'cid, Ty>>, KindMismatch>,
    as_alloca: Result<Alloca<'cid, 'mid, 'fid, Ty>, KindMismatch>,
    as_global: Result<Global<'cid, 'mid, Ty>, KindMismatch>,
    as_constant: Result<Constant<'cid, PointerType<'cid, Ty>>, KindMismatch>,
)
    requires
        call_ensures(
            Phi::<'cid, 'mid, 'fid, PointerType<'cid, Ty>>::downcast_value,
            (&value,),
            as_phi,
        ),
        call_ensures(Alloca::<'cid, 'mid, 'fid, Ty>::downcast_value, (&value,), as_alloca),
        call_ensures(Global::<'cid, 'mid, Ty>::downcast_value, (&value,), as_global),
        call_ensures(
            Constant::<'cid, PointerType<'cid, Ty>>::downcast_value,
            (&value,),
            as_constant,
        ),
    ensures
        as_phi is Ok <==> is_phi(value.handle().value().kind()),
        as_alloca is Ok <==> is_alloca(value.handle().value().kind()),
        as_global is Ok <==> value.handle().value().kind() == ValueKind::Global,
        as_constant is Ok <==> value.handle().value().kind() == ValueKind::Constant,
        as_phi is Ok ==> as_alloca is Err && as_global is Err && as_constant is Err,
        as_alloca is Ok ==> as_phi is Err && as_global is Err && as_constant is Err,
        as_global is Ok ==> as_phi is Err && as_alloca is Err && as_constant is Err,
        as_constant is Ok ==> as_phi is Err && as_alloca is Err && as_global is Err,
        as_phi matches Err(mismatch) ==> mismatch.found == value.handle().value().kind(),
        as_alloca matches Err(mismatch) ==> mismatch.found == value.handle().value().kind(),
        as_global matches Err(mismatch) ==> mismatch.found == value.handle().value().kind(),
        as_constant matches Err(mismatch) ==> mismatch.found == value.handle().value().kind(),
{
}

} // verus!
