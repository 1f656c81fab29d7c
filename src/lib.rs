//! Core of a small WebAssembly interpreter.
//!
//! - `leb128`, `opcode`, `instruction`, `module`: decoding of the binary
//!   format, from LEB128 numbers up to whole modules.
//! - `encode`: the binary encoding of instructions, and the proof that
//!   decoding gives an encoded stream back.
//! - `numeric`: integer operators with their trap rules.
//! - `runtime`, `control`, `interp`: the operand stack, call frames,
//!   structured branching and the interpreter loop.
//! - `memory`: linear memory, growth and bounds-checked access.
//! - `wasi`: the memory side of `fd_write`.

pub mod control;
pub mod encode;
pub mod instruction;
pub mod interp;
pub mod leb128;
pub mod memory;
pub mod module;
pub mod numeric;
pub mod opcode;
pub mod runtime;
pub mod value;
pub mod wasi;
