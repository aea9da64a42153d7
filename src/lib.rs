//! Native x86-64 code generation: the general-purpose register set, the
//! System V and Windows x64 calling-convention tables, and an instruction
//! encoder that appends exact machine-code bytes to an arena-backed buffer.

pub mod assembler;
pub mod buffer;
pub mod call_conv;
pub mod encoding;
pub mod register;
