//! A bytecode virtual machine for a WebAssembly-style binary module format.
//!
//! Given a module (types, functions, code bodies, exports), the interpreter
//! evaluates an exported function on a list of argument values using an
//! explicit control stack, an operand stack, and a frame stack — never the
//! host's own call stack.

pub mod interpreter;
pub mod module;
pub mod semantics;
pub mod store;
pub mod values;

pub use values::{Num, Ref, Val, v};
