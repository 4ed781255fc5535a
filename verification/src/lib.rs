//! A small stack-based bytecode virtual machine.
//!
//! The machine executes a bounded sequence of instructions against a bounded
//! operand stack of unsigned machine words, driven by an instruction pointer
//! and explicit control-flow opcodes.  Every opcode checks its own
//! preconditions (stack arity, capacity, divisor, index bounds) and yields a
//! trap instead of performing the operation when they fail.
//!
//! The semantics of a single instruction and of a whole bounded run are given
//! by the specification functions in [`engine`]; the executable machine is
//! proved to follow them exactly.

pub mod engine;
pub mod inst;
pub mod machine;
pub mod trap;
