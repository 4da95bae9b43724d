//! A verified RISC-V 64 machine backend core: calling-convention argument
//! assignment, stack-frame construction, call-sequence generation, and the
//! helper layer used by rule-driven instruction lowering.

pub mod types;
pub mod regs;
pub mod imm;
pub mod inst;
pub mod extern_specs;
pub mod abi;
pub mod semantics;
pub mod lower;
