//! The execution core of a CHIP-8 virtual machine: fetch, decode and
//! dispatch of opcodes over a register file, a byte memory and a bounded
//! call stack, with every step stated against a mathematical model.
use vstd::prelude::*;

pub mod cpu;
pub mod laws;
pub mod model;

verus! {

pub use cpu::CPU;
pub use model::{CpuError, Status};

} // verus!
