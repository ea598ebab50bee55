//! A verified interpreter for a subset of LLVM IR.
//!
//! The library models a parsed bitcode module with its own plain data types,
//! executes the `main` function by walking basic blocks over an explicit call
//! stack, and renders `printf` output into a byte buffer.  Floating-point
//! arithmetic and floating-point text rendering cannot be carried out in
//! verified code, so the interpreter suspends and asks its host to supply the
//! result bits or text; everything else is verified against a small-step
//! specification of the machine.

pub mod arith;
pub mod bytes;
pub mod fmt;
pub mod interp;
pub mod ir;
pub mod laws;
pub mod printf;
pub mod resolve;
pub mod semantics;
pub mod store;

pub use interp::LLVMIRInterpreter;
pub use ir::{Error, Module};
pub use semantics::Outcome;
