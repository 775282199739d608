//! An RV64I instruction-set emulator core: a verified decoder for the base
//! 64-bit RISC-V integer instruction set, the per-instruction execution
//! semantics over an architectural state (register file, program counter,
//! flat memory image), and the fetch-decode-execute loop that drives them.

pub mod alu;
pub mod codec;
pub mod cpu;
pub mod encode;
pub mod execute;
pub mod instruction;
pub mod machine;
