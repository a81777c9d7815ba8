//! A simulator of 32-bit RISC-V programs in user mode: the base integer
//! instruction set with multiplication and division, the fences, and the
//! CSR instructions as far as decoding goes.
//!
//! The machine is a flat memory of bytes ([`memory`]), thirty-two registers
//! ([`register`]), a program counter and a count of executed instructions
//! ([`processor`]). [`instruction`] decodes instruction words and
//! [`disassembly`] writes instructions as text. [`machine`] says in
//! mathematical terms what every instruction does; the processor is proved to
//! do just that. [`elf`] and the loader in [`memory`] bring a program into the
//! memory, and [`simulator`] drives the processor and keeps a log.

mod alu;
pub mod disassembly;
pub mod elf;
pub mod instruction;
pub mod machine;
pub mod memory;
pub mod processor;
pub mod register;
pub mod simulator;
pub mod text;
