use minicpu::cpu::Cpu;
use minicpu::model::VmError;

/// 8-bit addition wraps: 200 + 100 = 300 leaves 44 in the destination.
#[test]
fn test_add_reg_wraps_mod_256() {
    let mut cpu: Cpu = Cpu::new();
    cpu.set_register(0, 200);
    cpu.set_register(1, 100);
    cpu.write_memory(0, 0x10);
    cpu.write_memory(1, 0x12);

    let r = cpu.run();

    assert!(matches!(r, Ok(())));
    assert_eq!(cpu.get_value_at_register(2), 44);
}

/// ADD-IMM wraps too: 250 + 15 = 265 leaves 9 in the destination.
#[test]
fn test_add_imm_wraps_mod_256() {
    let mut cpu: Cpu = Cpu::new();
    cpu.set_register(0, 250);
    cpu.write_memory(0, 0x20);
    cpu.write_memory(1, 0xF3);

    let r = cpu.run();

    assert!(matches!(r, Ok(())));
    assert_eq!(cpu.get_value_at_register(3), 9);
}

/// OR-REG and AND-REG agree with the bitwise operators on full 8-bit values.
#[test]
fn test_or_and_match_bitwise_operators() {
    let a: u8 = 0xA5;
    let b: u8 = 0x3C;
    let mut cpu: Cpu = Cpu::new();
    cpu.set_register(0, a);
    cpu.set_register(1, b);
    cpu.write_memory(0, 0x30); // OR-REG  reg0|reg1 -> reg2
    cpu.write_memory(1, 0x12);
    cpu.write_memory(2, 0x50); // AND-REG reg0&reg1 -> reg3
    cpu.write_memory(3, 0x13);

    let r = cpu.run();

    assert!(matches!(r, Ok(())));
    assert_eq!(cpu.get_value_at_register(2), a | b);
    assert_eq!(cpu.get_value_at_register(3), a & b);
}

/// Running the same MOV-REG twice leaves the register file exactly as one
/// application does.
#[test]
fn test_mov_reg_idempotent_scenario() {
    let mut once: Cpu = Cpu::new();
    once.set_register(1, 0x5E);
    once.write_memory(0, 0x70); // MOV-REG reg0 <- reg1
    once.write_memory(1, 0x10);
    let _ = once.run();

    let mut twice: Cpu = Cpu::new();
    twice.set_register(1, 0x5E);
    twice.write_memory(0, 0x70);
    twice.write_memory(1, 0x10);
    twice.write_memory(2, 0x70); // and again
    twice.write_memory(3, 0x10);
    let _ = twice.run();

    for i in 0..16u8 {
        assert_eq!(once.get_value_at_register(i), twice.get_value_at_register(i));
    }
}

/// Running the same MOV-IMM twice leaves the register file exactly as one
/// application does.
#[test]
fn test_mov_imm_idempotent_scenario() {
    let mut once: Cpu = Cpu::new();
    once.write_memory(0, 0x80); // MOV-IMM reg0 <- 0xF
    once.write_memory(1, 0xF0);
    let _ = once.run();

    let mut twice: Cpu = Cpu::new();
    twice.write_memory(0, 0x80);
    twice.write_memory(1, 0xF0);
    twice.write_memory(2, 0x80); // and again
    twice.write_memory(3, 0xF0);
    let _ = twice.run();

    for i in 0..16u8 {
        assert_eq!(once.get_value_at_register(i), twice.get_value_at_register(i));
    }
}

/// A jump lands exactly on the 12-bit target: the zero word there halts the
/// machine with the program counter still at the target, so no advance was
/// added after the jump itself.
#[test]
fn test_jump_sets_pc_exactly() {
    let mut cpu: Cpu = Cpu::new();
    cpu.write_memory(0, 0x92); // JUMP 0x26E
    cpu.write_memory(1, 0x6E);

    let r = cpu.run();

    assert!(matches!(r, Ok(())));
    assert_eq!(cpu.get_program_counter(), 0x26E);
}

/// The zero word is terminal: instructions past it never run, whatever the
/// remaining memory holds.
#[test]
fn test_halt_stops_all_mutation() {
    let mut cpu: Cpu = Cpu::new();
    cpu.set_register(0, 1);
    cpu.set_register(1, 2);
    // halt at 0, then an ADD-REG that must never execute
    cpu.write_memory(2, 0x10);
    cpu.write_memory(3, 0x12);

    let r = cpu.run();

    assert!(matches!(r, Ok(())));
    assert_eq!(cpu.get_program_counter(), 0);
    assert_eq!(cpu.get_value_at_register(0), 1);
    assert_eq!(cpu.get_value_at_register(1), 2);
    assert_eq!(cpu.get_value_at_register(2), 0);
}

/// The reserved no-op word only advances the program counter by 2.
#[test]
fn test_nop_advances_pc_only() {
    let mut cpu: Cpu = Cpu::new();
    cpu.write_memory(0, 0x01);
    cpu.write_memory(1, 0x11);

    let r = cpu.run();

    assert!(matches!(r, Ok(())));
    assert_eq!(cpu.get_program_counter(), 2);
    for i in 0..16u8 {
        assert_eq!(cpu.get_value_at_register(i), 0);
    }
}

/// An operation code with no handler is a permissive no-op: the cycle still
/// advances and nothing else changes.
#[test]
fn test_unimplemented_opcode_is_noop() {
    let mut cpu: Cpu = Cpu::new();
    cpu.write_memory(0, 0xC1);
    cpu.write_memory(1, 0x23);

    let r = cpu.run();

    assert!(matches!(r, Ok(())));
    assert_eq!(cpu.get_program_counter(), 2);
    for i in 0..16u8 {
        assert_eq!(cpu.get_value_at_register(i), 0);
    }
}

/// A seventeenth call with no intervening return faults with the documented
/// StackOverflow policy instead of corrupting the stack, and the machine is
/// left at the faulting instruction.
#[test]
fn test_call_stack_overflow_policy() {
    let mut cpu: Cpu = Cpu::new();
    // seventeen chained calls at 0x000, 0x010, ..., 0x100, each to the next
    for k in 0..17usize {
        let target = 0x10 * (k + 1);
        cpu.write_memory(0x10 * k, 0xA0 | ((target >> 8) as u8));
        cpu.write_memory(0x10 * k + 1, (target & 0xFF) as u8);
    }

    let r = cpu.run();

    assert_eq!(r, Err(VmError::StackOverflow));
    assert_eq!(cpu.get_program_counter(), 0x100);
}

/// A return with no matching call faults with StackUnderflow and the machine
/// is left unmoved.
#[test]
fn test_ret_stack_underflow_policy() {
    let mut cpu: Cpu = Cpu::new();
    cpu.write_memory(0, 0xB0);

    let r = cpu.run();

    assert_eq!(r, Err(VmError::StackUnderflow));
    assert_eq!(cpu.get_program_counter(), 0);
}

/// Checked inspection: indices 0-15 read the register, anything else is
/// OutOfRange.
#[test]
fn test_read_register_bounds() {
    let mut cpu: Cpu = Cpu::new();
    cpu.set_register(15, 0x7B);

    assert_eq!(cpu.read_register(15), Ok(0x7B));
    assert_eq!(cpu.read_register(0), Ok(0));
    assert_eq!(cpu.read_register(16), Err(VmError::OutOfRange));
    assert_eq!(cpu.read_register(255), Err(VmError::OutOfRange));
}

/// Running off the top of memory ends the loop silently: a memory full of
/// no-ops marches the program counter to the very end.
#[test]
fn test_run_off_end_of_memory() {
    let mut cpu: Cpu = Cpu::new();
    for i in 0..0x800usize {
        cpu.write_memory(2 * i, 0x01);
        cpu.write_memory(2 * i + 1, 0x11);
    }

    let r = cpu.run();

    assert!(matches!(r, Ok(())));
    assert_eq!(cpu.get_program_counter(), 0x1000);
}
