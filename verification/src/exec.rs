//! Execution of the CMP instruction family: opcode recognition, operand
//! selection, cycle accounting and the state step.

use crate::cpu::{Cpu, CpuState};
use crate::flags::{derive_flags, flags_of_cmp};
use vstd::prelude::*;

verus! {

/// Compare the accumulator against register `b`.
pub const OPCODE_CMP_B: u8 = 0xB8;

/// Compare the accumulator against register `c`.
pub const OPCODE_CMP_C: u8 = 0xB9;

/// Compare the accumulator against register `d`.
pub const OPCODE_CMP_D: u8 = 0xBA;

/// Compare the accumulator against register `e`.
pub const OPCODE_CMP_E: u8 = 0xBB;

/// Compare the accumulator against register `h`.
pub const OPCODE_CMP_H: u8 = 0xBC;

/// Compare the accumulator against register `l`.
pub const OPCODE_CMP_L: u8 = 0xBD;

/// Compare the accumulator against the byte of external memory addressed by
/// the `h`/`l` register pair.
pub const OPCODE_CMP_M: u8 = 0xBE;

/// Compare the accumulator against itself.
pub const OPCODE_CMP_A: u8 = 0xBF;

/// How a comparison can fail. Every variant is reported to the caller;
/// none aborts the process.
#[derive(Clone, Copy, PartialEq, Eq, Structural, Debug)]
pub enum CmpError {
    /// The opcode is not one of the eight recognized CMP variants.
    InvalidOpcode,
    /// The external memory source could not be reached.
    OracleUnavailable,
    /// The external memory source answered, but not with a decimal byte.
    OracleMalformedResponse,
    /// The external memory source's location is not configured.
    MissingConfiguration,
}

/// The opcodes this crate executes.
pub open spec fn recognized_opcode(opcode: u8) -> bool {
    ||| opcode == OPCODE_CMP_B
    ||| opcode == OPCODE_CMP_C
    ||| opcode == OPCODE_CMP_D
    ||| opcode == OPCODE_CMP_E
    ||| opcode == OPCODE_CMP_H
    ||| opcode == OPCODE_CMP_L
    ||| opcode == OPCODE_CMP_M
    ||| opcode == OPCODE_CMP_A
}

/// Fixed cycle cost of a recognized opcode: seven for the memory operand,
/// four for a register operand.
pub open spec fn cycle_cost_spec(opcode: u8) -> u64 {
    if opcode == OPCODE_CMP_M {
        7
    } else {
        4
    }
}

/// The register a recognized non-memory opcode compares against.
pub open spec fn register_operand_spec(s: CpuState, opcode: u8) -> u8 {
    if opcode == OPCODE_CMP_B {
        s.b
    } else if opcode == OPCODE_CMP_C {
        s.c
    } else if opcode == OPCODE_CMP_D {
        s.d
    } else if opcode == OPCODE_CMP_E {
        s.e
    } else if opcode == OPCODE_CMP_H {
        s.h
    } else if opcode == OPCODE_CMP_L {
        s.l
    } else {
        s.a
    }
}

/// The 16-bit external memory address of a memory-operand comparison:
/// `h` is the high byte, `l` the low byte.
pub open spec fn memory_address_spec(s: CpuState) -> u16 {
    (s.h * 256 + s.l) as u16
}

/// What operand resolution found: either the byte itself, or the address
/// the external memory source must be asked for.
#[derive(Clone, Copy, PartialEq, Eq, Structural, Debug)]
pub enum Operand {
    /// The operand byte, read from a register.
    Value(u8),
    /// The memory address whose byte is the operand.
    MemoryAt(u16),
}

/// The state a recognized comparison steps to: the cycle counter advances by
/// the opcode's fixed cost with 64-bit wrap-around, the flags are derived
/// from the accumulator and the operand, and every other field is unchanged.
pub open spec fn step_state_spec(s: CpuState, opcode: u8, operand: u8) -> CpuState {
    CpuState {
        cycles: vstd::wrapping::u64_specs::wrapping_add(s.cycles, cycle_cost_spec(opcode)),
        flags: flags_of_cmp(s.a, operand),
        ..s
    }
}

/// The operand a recognized opcode compares against, given the byte fetched
/// from memory (needed only by the memory-operand opcode).
pub open spec fn operand_spec(cpu: Cpu, memory: Option<u8>) -> u8 {
    if cpu.opcode == OPCODE_CMP_M {
        memory->Some_0
    } else {
        register_operand_spec(cpu.state, cpu.opcode)
    }
}

/// Resolve the operand of `cpu`'s opcode: the named register's byte, or the
/// memory address to fetch. An unrecognized opcode is rejected and nothing
/// else happens.
pub fn resolve_operand(cpu: &Cpu) -> (r: Result<Operand, CmpError>)
    ensures
        r is Ok <==> recognized_opcode(cpu.opcode),
        cpu.opcode == OPCODE_CMP_M ==> r == Ok::<Operand, CmpError>(
            Operand::MemoryAt(memory_address_spec(cpu.state)),
        ),
        recognized_opcode(cpu.opcode) && cpu.opcode != OPCODE_CMP_M ==> r == Ok::<
            Operand,
            CmpError,
        >(Operand::Value(register_operand_spec(cpu.state, cpu.opcode))),
        !recognized_opcode(cpu.opcode) ==> r == Err::<Operand, CmpError>(CmpError::InvalidOpcode),
{
    let opcode = cpu.opcode;
    if opcode == OPCODE_CMP_B {
        Ok(Operand::Value(cpu.state.b))
    } else if opcode == OPCODE_CMP_C {
        Ok(Operand::Value(cpu.state.c))
    } else if opcode == OPCODE_CMP_D {
        Ok(Operand::Value(cpu.state.d))
    } else if opcode == OPCODE_CMP_E {
        Ok(Operand::Value(cpu.state.e))
    } else if opcode == OPCODE_CMP_H {
        Ok(Operand::Value(cpu.state.h))
    } else if opcode == OPCODE_CMP_L {
        Ok(Operand::Value(cpu.state.l))
    } else if opcode == OPCODE_CMP_M {
        let address = (cpu.state.h as u16) * 256 + (cpu.state.l as u16);
        Ok(Operand::MemoryAt(address))
    } else if opcode == OPCODE_CMP_A {
        Ok(Operand::Value(cpu.state.a))
    } else {
        Err(CmpError::InvalidOpcode)
    }
}

/// Apply a recognized comparison to a CPU state: advance the cycle counter
/// by the opcode's cost and derive the flags; touch nothing else.
pub fn apply_cmp(state: CpuState, opcode: u8, operand: u8) -> (r: CpuState)
    requires
        recognized_opcode(opcode),
    ensures
        r == step_state_spec(state, opcode, operand),
{
    let cost: u64 = if opcode == OPCODE_CMP_M {
        7
    } else {
        4
    };
    let cycles = state.cycles.wrapping_add(cost);
    let flags = derive_flags(state.a, operand);
    CpuState { cycles, flags, ..state }
}

/// Execute the CMP instruction held in `cpu.opcode`, in place. `memory` is
/// the byte fetched from the external memory source, and must be supplied
/// when the opcode addresses memory; otherwise it is ignored. An
/// unrecognized opcode is reported and the CPU is left untouched.
pub fn execute(cpu: &mut Cpu, memory: Option<u8>) -> (r: Result<(), CmpError>)
    requires
        old(cpu).opcode == OPCODE_CMP_M ==> memory is Some,
    ensures
        r is Ok <==> recognized_opcode(old(cpu).opcode),
        !recognized_opcode(old(cpu).opcode) ==> r == Err::<(), CmpError>(CmpError::InvalidOpcode),
        r is Ok ==> final(cpu).state == step_state_spec(
            old(cpu).state,
            old(cpu).opcode,
            operand_spec(*old(cpu), memory),
        ),
        r is Err ==> final(cpu).state == old(cpu).state,
        final(cpu).id@ == old(cpu).id@,
        final(cpu).opcode == old(cpu).opcode,
{
    let opcode = cpu.opcode;
    let operand: u8 = if opcode == OPCODE_CMP_B {
        cpu.state.b
    } else if opcode == OPCODE_CMP_C {
        cpu.state.c
    } else if opcode == OPCODE_CMP_D {
        cpu.state.d
    } else if opcode == OPCODE_CMP_E {
        cpu.state.e
    } else if opcode == OPCODE_CMP_H {
        cpu.state.h
    } else if opcode == OPCODE_CMP_L {
        cpu.state.l
    } else if opcode == OPCODE_CMP_M {
        match memory {
            Some(byte) => byte,
            None => 0,
        }
    } else if opcode == OPCODE_CMP_A {
        cpu.state.a
    } else {
        return Err(CmpError::InvalidOpcode);
    };
    cpu.state = apply_cmp(cpu.state, opcode, operand);
    Ok(())
}

/// A register comparison leaves every register (the accumulator and the one
/// compared against included), both pointer registers and the interrupt
/// switch unchanged, and advances the cycle counter by exactly four, with
/// 64-bit wrap-around.
pub proof fn lemma_register_cmp_preserves(s: CpuState, opcode: u8)
    requires
        recognized_opcode(opcode),
        opcode != OPCODE_CMP_M,
    ensures
        ({
            let after = step_state_spec(s, opcode, register_operand_spec(s, opcode));
            &&& after.a == s.a
            &&& after.b == s.b
            &&& after.c == s.c
            &&& after.d == s.d
            &&& after.e == s.e
            &&& after.h == s.h
            &&& after.l == s.l
            &&& after.stack_pointer == s.stack_pointer
            &&& after.program_counter == s.program_counter
            &&& after.interrupts_enabled == s.interrupts_enabled
            &&& after.cycles == vstd::wrapping::u64_specs::wrapping_add(s.cycles, 4)
            &&& s.cycles + 4 <= u64::MAX ==> after.cycles == s.cycles + 4
        }),
{
}

/// A memory comparison advances the cycle counter by exactly seven, with
/// 64-bit wrap-around, changes nothing besides the cycle counter and the
/// flags, and the one address asked of the external memory source is the
/// `h`/`l` pair read as a 16-bit integer, `h` high.
pub proof fn lemma_memory_cmp(s: CpuState, fetched: u8)
    ensures
        ({
            let after = step_state_spec(s, OPCODE_CMP_M, fetched);
            &&& after.a == s.a
            &&& after.b == s.b
            &&& after.c == s.c
            &&& after.d == s.d
            &&& after.e == s.e
            &&& after.h == s.h
            &&& after.l == s.l
            &&& after.stack_pointer == s.stack_pointer
            &&& after.program_counter == s.program_counter
            &&& after.interrupts_enabled == s.interrupts_enabled
            &&& after.cycles == vstd::wrapping::u64_specs::wrapping_add(s.cycles, 7)
            &&& s.cycles + 7 <= u64::MAX ==> after.cycles == s.cycles + 7
        }),
        memory_address_spec(s) == ((s.h as u16) << 8) | (s.l as u16),
{
    let h = s.h;
    let l = s.l;
    assert(((h as u16) << 8) | (l as u16) == (h * 256 + l) as u16) by (bit_vector);
}

} // verus!
