//! An interpreter for the MOS 6502: the register file, a flat 64 KB memory, the opcode
//! table, and one-instruction steps whose effect on registers, memory and the bus is
//! stated against a mathematical model of the processor.
use vstd::prelude::*;

pub mod cpu;
pub mod laws;
pub mod memory;
pub mod opcode;
pub mod registers;
pub mod semantics;
pub mod utils;

verus! {

} // verus!
