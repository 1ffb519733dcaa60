//! A deterministic instruction-level emulator for a subset of a 16-bit
//! processor instruction set: a 64KB memory segment, eight 16-bit registers,
//! carry/zero/sign flags, an addressing-mode decoder, an arithmetic/logic
//! unit, stack primitives, and a fetch-decode-execute step function.
//!
//! Every state transition is specified against a mathematical model of the
//! processor state (`state::CpuV`) and proved to match it.

pub mod alu;
pub mod cpu;
pub mod decode;
pub mod laws;
pub mod run;
pub mod state;
