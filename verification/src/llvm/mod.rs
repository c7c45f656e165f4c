//! The handles of the representation and the operations that build it.

pub use self::alloca::Alloca;
pub use self::block::{BasicBlock, Label};
pub use crate::opaque::Misplaced;
pub use self::builder::{Builder, PositionedBuilder};
pub use self::constant::Constant;
pub use self::context::Context;
pub use self::function::{Function, FunctionBuilder, FunctionLabel, FunctionParams, FunctionState};
pub use self::global::Global;
pub use self::instruction::Instruction;
pub use self::opcode::{BinaryOp, CastOp, Opcode, UnaryOp};
pub use self::module::{GlobalEntry, Module, ModuleBuilder, RedefinitionError, SymbolTable};
pub use self::pass_manager::{FunctionPassManager, InitializedFunctionPassManager, Pass};
pub use self::phi::Phi;
pub use self::raw::{ConstantShape, RawValue, ValueKind};
pub use self::shape::TypeShape;
pub use self::target::DataLayout;
pub use self::ty::{ArrayType, FunctionType, IntegerType, PointerType, Type};
pub use self::value::{KindMismatch, Value};

pub use llvm_sys::{LLVMIntPredicate, LLVMRealPredicate};

pub mod alloca;
pub mod block;
pub mod builder;
pub mod casts;
pub mod constant;
pub mod context;
pub mod function;
pub mod global;
pub mod instruction;
pub mod module;
pub mod opcode;
pub mod pass_manager;
pub mod phi;
pub mod predicate;
pub mod raw;
pub mod shape;
pub mod target;
pub mod ty;
pub mod value;
