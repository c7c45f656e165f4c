//! A statically checked construction layer for an LLVM-style intermediate representation.
//!
//! Every object of the representation (context, module, function, basic block,
//! instruction, type) is reached through a typed handle that carries the
//! identity brands of its owners. The layer keeps its own record of what has been
//! built, so that the ownership tree, the symbol table and the instruction
//! sequences can be inspected and handed to a code generator afterwards.

pub mod id;
pub mod inheritance;
pub mod llvm;
pub mod opaque;
pub mod owned;
