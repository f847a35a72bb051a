use hemu::cpu::{Cpu, Registers};
use hemu::instruction::decode;
use hemu::program_counter::ProgramCounter;

const LOAD_TEN: u16 = 0b0000000000001010;
const D_EQ_A: u16 = 0b1110110000010000;
const JUMP_ZERO: u16 = 0b1110101010000111;

#[test]
fn a_then_d_eq_a() {
    let mut cpu = Cpu::new();
    assert_eq!(cpu.cpu(LOAD_TEN, 0, false), (0, 10, false, 1));
    assert_eq!(cpu.register_a(), 10);
    let out = cpu.cpu(D_EQ_A, 0, false);
    assert_eq!(out, (10, 10, false, 2));
    assert_eq!(cpu.register_d(), 10);
    assert_eq!(cpu.pc(), 2);
    assert_eq!(cpu.snapshot(), Registers { a: 10, d: 10, pc: 2 });
}

#[test]
fn decode_fields() {
    let c = decode(0b1111010011111010);
    assert!(c.is_c);
    assert!(c.use_memory);
    assert!(!c.zx && c.nx && !c.zy && !c.ny && c.f && c.no);
    assert!(c.dest_a && c.dest_d && c.dest_m);
    assert!(!c.jump_negative && c.jump_zero && !c.jump_positive);
    assert!(!decode(0x7fff).is_c);
}

#[test]
fn a_instruction_loads_literal() {
    let mut cpu = Cpu::new();
    let out = cpu.cpu(0x7fff, 0, false);
    assert_eq!(out.1, 0x7fff);
    assert!(!out.2);
    assert_eq!(cpu.snapshot(), Registers { a: 0x7fff, d: 0, pc: 1 });
}

#[test]
fn unset_destinations_keep_registers() {
    let mut cpu = Cpu::new();
    cpu.cpu(LOAD_TEN, 0, false);
    cpu.cpu(D_EQ_A, 0, false);
    cpu.cpu(7, 0, false);
    // D+1 with no destination and no jump.
    let out = cpu.cpu(0b1110011111000000, 0, false);
    assert_eq!(out, (11, 7, false, 4));
    assert_eq!(cpu.snapshot(), Registers { a: 7, d: 10, pc: 4 });
}

#[test]
fn memory_operand_and_store() {
    let mut cpu = Cpu::new();
    cpu.cpu(100, 0, false);
    // M=M+1 with M = 41.
    let out = cpu.cpu(0b1111110111001000, 41, false);
    assert_eq!(out, (42, 100, true, 2));
    assert_eq!(cpu.snapshot(), Registers { a: 100, d: 0, pc: 2 });
}

#[test]
fn a_destination_uses_this_cycle_output() {
    let mut cpu = Cpu::new();
    cpu.cpu(5, 0, false);
    // A=A+1
    let out = cpu.cpu(0b1110110111100000, 0, false);
    assert_eq!(out, (6, 6, false, 2));
    assert_eq!(cpu.register_a(), 6);
}

#[test]
fn jump_goes_to_a() {
    let mut cpu = Cpu::new();
    cpu.cpu(0, 0, false);
    assert_eq!(cpu.cpu(JUMP_ZERO, 0, false), (0, 0, false, 0));
    cpu.cpu(9, 0, false);
    // D;JGT with D = 0 does not jump; 0;JEQ does.
    assert_eq!(cpu.cpu(0b1110001100000001, 0, false).3, 2);
    cpu.cpu(12, 0, false);
    assert_eq!(cpu.cpu(0b1110101010000010, 0, false).3, 12);
    // -1;JLT jumps, -1;JGE does not.
    cpu.cpu(30, 0, false);
    assert_eq!(cpu.cpu(0b1110111010000100, 0, false).3, 30);
    assert_eq!(cpu.cpu(0b1110111010000011, 0, false).3, 31);
}

#[test]
fn reset_wins() {
    let mut cpu = Cpu::new();
    cpu.cpu(25, 0, true);
    assert_eq!(cpu.pc(), 0);
    cpu.cpu(25, 0, false);
    assert_eq!(cpu.cpu(JUMP_ZERO, 0, true).3, 0);
    assert_eq!(cpu.cpu(D_EQ_A, 0, true), (25, 25, false, 0));
}

#[test]
fn program_counter_operations() {
    let mut pc = ProgramCounter::new();
    assert_eq!(pc.get(), 0);
    pc.increment();
    assert_eq!(pc.get(), 1);
    pc.set(0xffff);
    pc.increment();
    assert_eq!(pc.get(), 0);
    pc.set(77);
    pc.reset();
    assert_eq!(pc.get(), 0);
}
