//! Core of a MIPS32 emulator: a stepwise execution engine that decodes one
//! 32-bit instruction at a time, mutates an architectural state (general
//! purpose registers, HI/LO, program counter, segmented memory), raises
//! trappable runtime conditions, and yields a typed syscall guard whenever the
//! guest program asks for host services.

pub mod alu;
pub mod bits;
pub mod catalog;
pub mod constant;
pub mod decode;
pub mod error;
pub mod exec_i;
pub mod exec_j;
pub mod exec_r;
pub mod laws;
pub mod layout;
pub mod register;
pub mod runtime;
pub mod safe;
pub mod segment;
pub mod signature;
pub mod state;
pub mod syscall;
