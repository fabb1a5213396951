use cmp_executor::cpu::{Cpu, CpuState};
use cmp_executor::exec::{
    execute, resolve_operand, CmpError, Operand, OPCODE_CMP_A, OPCODE_CMP_B, OPCODE_CMP_C,
    OPCODE_CMP_D, OPCODE_CMP_E, OPCODE_CMP_H, OPCODE_CMP_L, OPCODE_CMP_M,
};
use cmp_executor::flags::derive_flags;

fn fresh_cpu(opcode: u8) -> Cpu {
    Cpu {
        state: CpuState {
            a: 0,
            b: 0,
            c: 0,
            d: 0,
            e: 0,
            h: 0,
            l: 0,
            stack_pointer: 0xFFFE,
            program_counter: 0x0100,
            cycles: 0,
            flags: cmp_executor::flags::CpuFlags {
                sign: false,
                zero: false,
                aux_carry: false,
                parity: false,
                carry: false,
            },
            interrupts_enabled: true,
        },
        id: String::from("cpu-0"),
        opcode,
    }
}

fn set_register(state: &mut CpuState, opcode: u8, value: u8) {
    match opcode {
        OPCODE_CMP_B => state.b = value,
        OPCODE_CMP_C => state.c = value,
        OPCODE_CMP_D => state.d = value,
        OPCODE_CMP_E => state.e = value,
        OPCODE_CMP_H => state.h = value,
        OPCODE_CMP_L => state.l = value,
        _ => panic!("not a register opcode"),
    }
}

fn get_register(state: &CpuState, opcode: u8) -> u8 {
    match opcode {
        OPCODE_CMP_B => state.b,
        OPCODE_CMP_C => state.c,
        OPCODE_CMP_D => state.d,
        OPCODE_CMP_E => state.e,
        OPCODE_CMP_H => state.h,
        OPCODE_CMP_L => state.l,
        _ => panic!("not a register opcode"),
    }
}

#[test]
fn register_cmp_preserves_registers_and_costs_four() {
    let register_opcodes = [
        OPCODE_CMP_B,
        OPCODE_CMP_C,
        OPCODE_CMP_D,
        OPCODE_CMP_E,
        OPCODE_CMP_H,
        OPCODE_CMP_L,
    ];
    for &opcode in &register_opcodes {
        for a in 0..=255u8 {
            for r in 0..=255u8 {
                let mut cpu = fresh_cpu(opcode);
                cpu.state.a = a;
                set_register(&mut cpu.state, opcode, r);
                let before = cpu.state;
                execute(&mut cpu, None).expect("register CMP must succeed");
                assert_eq!(cpu.state.a, a);
                assert_eq!(get_register(&cpu.state, opcode), r);
                assert_eq!(cpu.state.cycles, before.cycles + 4);
                assert_eq!(cpu.state.stack_pointer, before.stack_pointer);
                assert_eq!(cpu.state.program_counter, before.program_counter);
                assert_eq!(cpu.state.interrupts_enabled, before.interrupts_enabled);
            }
        }
    }
}

#[test]
fn memory_cmp_costs_seven_and_addresses_hl() {
    let mut cpu = fresh_cpu(OPCODE_CMP_M);
    cpu.state.a = 5;
    cpu.state.h = 0x01;
    cpu.state.l = 0x02;
    cpu.state.cycles = 40;
    let resolved = resolve_operand(&cpu).expect("memory CMP must resolve");
    assert_eq!(resolved, Operand::MemoryAt(0x0102));
    execute(&mut cpu, Some(200)).expect("memory CMP must succeed");
    assert_eq!(cpu.state.cycles, 47);
}

#[test]
fn oracle_byte_200_against_a_5() {
    // result = 5 - 200 (mod 256) = 61 = 0b00111101, five set bits
    let mut cpu = fresh_cpu(OPCODE_CMP_M);
    cpu.state.a = 5;
    cpu.state.h = 0x01;
    cpu.state.l = 0x02;
    let body = b"200";
    let fetched = cmp_executor::parse::parse_byte(body).expect("decimal byte");
    assert_eq!(fetched, 200);
    execute(&mut cpu, Some(fetched)).expect("memory CMP must succeed");
    assert!(cpu.state.flags.carry);
    assert!(!cpu.state.flags.zero);
    assert!(!cpu.state.flags.sign);
    assert!(!cpu.state.flags.parity);
    assert_eq!(cpu.state.a, 5);
}

#[test]
fn compare_with_self_fixes_the_flags() {
    for a in 0..=255u8 {
        let mut cpu = fresh_cpu(OPCODE_CMP_A);
        cpu.state.a = a;
        execute(&mut cpu, None).expect("self CMP must succeed");
        assert!(cpu.state.flags.zero);
        assert!(!cpu.state.flags.carry);
        assert!(!cpu.state.flags.sign);
        assert!(cpu.state.flags.parity);
        assert!(cpu.state.flags.aux_carry);
        assert_eq!(cpu.state.cycles, 4);
        assert_eq!(cpu.state.a, a);
    }
}

#[test]
fn carry_iff_borrow_for_all_pairs() {
    for a in 0..=255u8 {
        for operand in 0..=255u8 {
            let f = derive_flags(a, operand);
            assert_eq!(f.carry, a < operand);
        }
    }
}

#[test]
fn zero_iff_equal_for_all_pairs() {
    for a in 0..=255u8 {
        for operand in 0..=255u8 {
            let f = derive_flags(a, operand);
            assert_eq!(f.zero, a == operand);
        }
    }
}

#[test]
fn parity_tracks_popcount_for_all_pairs() {
    for a in 0..=255u8 {
        for operand in 0..=255u8 {
            let f = derive_flags(a, operand);
            let result = a.wrapping_sub(operand);
            assert_eq!(f.parity, result.count_ones() % 2 == 0);
        }
    }
}

#[test]
fn sign_and_aux_carry_for_all_pairs() {
    for a in 0..=255u8 {
        for operand in 0..=255u8 {
            let f = derive_flags(a, operand);
            let result = a.wrapping_sub(operand);
            assert_eq!(f.sign, result & 0x80 == 0x80);
            assert_eq!(f.aux_carry, (a & 0x0f) >= (operand & 0x0f));
        }
    }
}

#[test]
fn invalid_opcode_is_reported_and_changes_nothing() {
    for opcode in [0x00u8, 0xB7, 0xC0, 0xFF] {
        let mut cpu = fresh_cpu(opcode);
        cpu.state.a = 0x42;
        cpu.state.cycles = 99;
        let before = cpu.state;
        assert_eq!(execute(&mut cpu, None), Err(CmpError::InvalidOpcode));
        assert_eq!(cpu.state, before);
        assert_eq!(cpu.opcode, opcode);
        assert_eq!(cpu.id, "cpu-0");
        assert_eq!(resolve_operand(&cpu), Err(CmpError::InvalidOpcode));
    }
}

#[test]
fn compare_vs_b_equal_bytes() {
    let mut cpu = fresh_cpu(OPCODE_CMP_B);
    cpu.state.a = 0x0A;
    cpu.state.b = 0x0A;
    cpu.state.cycles = 10;
    execute(&mut cpu, None).expect("register CMP must succeed");
    assert!(cpu.state.flags.zero);
    assert!(!cpu.state.flags.carry);
    assert!(!cpu.state.flags.sign);
    assert!(cpu.state.flags.parity);
    assert!(cpu.state.flags.aux_carry);
    assert_eq!(cpu.state.cycles, 14);
}

#[test]
fn each_register_opcode_reads_its_register() {
    let mut cpu = fresh_cpu(OPCODE_CMP_B);
    cpu.state.b = 1;
    cpu.state.c = 2;
    cpu.state.d = 3;
    cpu.state.e = 4;
    cpu.state.h = 5;
    cpu.state.l = 6;
    let pairs = [
        (OPCODE_CMP_B, 1u8),
        (OPCODE_CMP_C, 2),
        (OPCODE_CMP_D, 3),
        (OPCODE_CMP_E, 4),
        (OPCODE_CMP_H, 5),
        (OPCODE_CMP_L, 6),
    ];
    for (opcode, expected) in pairs {
        cpu.opcode = opcode;
        assert_eq!(resolve_operand(&cpu), Ok(Operand::Value(expected)));
    }
    cpu.opcode = OPCODE_CMP_A;
    cpu.state.a = 7;
    assert_eq!(resolve_operand(&cpu), Ok(Operand::Value(7)));
}

#[test]
fn cycle_counter_wraps_at_the_top() {
    let mut cpu = fresh_cpu(OPCODE_CMP_A);
    cpu.state.cycles = u64::MAX;
    execute(&mut cpu, None).expect("self CMP must succeed");
    assert_eq!(cpu.state.cycles, 3);
}
