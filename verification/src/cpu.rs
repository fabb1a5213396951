//! The CPU snapshot that a comparison instruction runs against.

use crate::flags::CpuFlags;
use vstd::prelude::*;

verus! {

/// One CPU snapshot: seven 8-bit general registers, the two 16-bit pointer
/// registers, the cycle counter, the flags and the interrupt switch. All
/// counters are unsigned and wrap on overflow.
#[derive(Clone, Copy, PartialEq, Eq, Structural, Debug)]
pub struct CpuState {
    pub a: u8,
    pub b: u8,
    pub c: u8,
    pub d: u8,
    pub e: u8,
    pub h: u8,
    pub l: u8,
    pub stack_pointer: u16,
    pub program_counter: u16,
    pub cycles: u64,
    pub flags: CpuFlags,
    pub interrupts_enabled: bool,
}

/// The request envelope: a CPU snapshot, an opaque identifier that routes
/// memory reads to the right CPU instance, and the opcode to execute. It is
/// built fresh per call and handed back whole; nothing persists between
/// calls.
#[derive(Debug)]
pub struct Cpu {
    pub state: CpuState,
    pub id: String,
    pub opcode: u8,
}

} // verus!
