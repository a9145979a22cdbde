//! A small stack-based bytecode interpreter whose value domain is supplied by
//! a pluggable runtime.
pub mod opcode;
pub mod runtime;
pub mod vm;
pub mod int_runtime;

pub use opcode::Opcode;
pub use runtime::{Runtime, VmError};
pub use vm::{Machine, Step, Vm};
pub use int_runtime::{IntConstant, IntError, IntRuntime, IntValue};
