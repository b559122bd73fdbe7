use lib::cpu::instructions::Condition;
use lib::cpu::operands::{Immediate16, WordRegister};
use lib::cpu::{CPUMode, CPU};

const Z: u8 = 0x80;
const C: u8 = 0x10;

fn cpu() -> Box<CPU> {
    Box::new(CPU::new())
}

#[test]
fn jump_taken_reads_address_and_takes_a_cycle() {
    let mut cpu = cpu();
    cpu.reg.pc = 0x0150;
    cpu.memory[0x0150] = 0x34;
    cpu.memory[0x0151] = 0x12;
    cpu.jump(Immediate16, Condition::Unconditional);
    assert_eq!(cpu.reg.pc, 0x1234);
    assert_eq!(cpu.cycles_until_done, 1);
    assert_eq!(cpu.curr_instr, "JP d16");
}

#[test]
fn jump_not_taken_skips_operand() {
    let mut cpu = cpu();
    cpu.reg.pc = 0x0150;
    cpu.jump(Immediate16, Condition::Zero(true));
    assert_eq!(cpu.reg.pc, 0x0152);
    assert_eq!(cpu.cycles_until_done, 0);
    assert_eq!(cpu.curr_instr, "JPZ d16");
}

#[test]
fn jump_to_hl() {
    let mut cpu = cpu();
    cpu.reg.set_hl(0x4000);
    cpu.jump(WordRegister::HL, Condition::Unconditional);
    assert_eq!(cpu.reg.pc, 0x4000);
    assert_eq!(cpu.curr_instr, "JP HL");
}

#[test]
fn jump_relative_backwards() {
    let mut cpu = cpu();
    cpu.reg.pc = 0x0200;
    cpu.memory[0x0200] = 0xFE;
    cpu.jump_relative(Condition::Zero(false));
    assert_eq!(cpu.reg.pc, 0x01FF);
    assert_eq!(cpu.cycles_until_done, 1);
    assert_eq!(cpu.curr_instr, "JRNZ -2");
}

#[test]
fn jump_relative_forwards() {
    let mut cpu = cpu();
    cpu.reg.pc = 0x0200;
    cpu.memory[0x0200] = 0x7F;
    cpu.jump_relative(Condition::Unconditional);
    assert_eq!(cpu.reg.pc, 0x0280);
    assert_eq!(cpu.curr_instr, "JR 127");
}

#[test]
fn jump_relative_not_taken() {
    let mut cpu = cpu();
    cpu.reg.pc = 0x0200;
    cpu.memory[0x0200] = 0x80;
    cpu.reg.f = Z;
    cpu.jump_relative(Condition::Zero(false));
    assert_eq!(cpu.reg.pc, 0x0201);
    assert_eq!(cpu.cycles_until_done, 0);
    assert_eq!(cpu.curr_instr, "JRNZ -128");
}

#[test]
fn jump_relative_wraps_around_the_address_space() {
    let mut cpu = cpu();
    cpu.reg.pc = 0xFFFF;
    cpu.memory[0xFFFF] = 0x05;
    cpu.jump_relative(Condition::Unconditional);
    assert_eq!(cpu.reg.pc, 0x0005);
}

#[test]
fn call_pushes_return_address_and_ret_comes_back() {
    let mut cpu = cpu();
    cpu.reg.pc = 0x0100;
    cpu.reg.sp = 0xFFFE;
    cpu.memory[0x0100] = 0x00;
    cpu.memory[0x0101] = 0x20;
    cpu.call(Immediate16, Condition::Unconditional);
    assert_eq!(cpu.reg.pc, 0x2000);
    assert_eq!(cpu.reg.sp, 0xFFFC);
    assert_eq!(cpu.memory[0xFFFC], 0x02);
    assert_eq!(cpu.memory[0xFFFD], 0x01);
    assert_eq!(cpu.cycles_until_done, 1);
    assert_eq!(cpu.curr_instr, "CALL d16");
    cpu.ret(Condition::Unconditional);
    assert_eq!(cpu.reg.pc, 0x0102);
    assert_eq!(cpu.reg.sp, 0xFFFE);
    assert_eq!(cpu.cycles_until_done, 2);
    assert_eq!(cpu.curr_instr, "RET");
}

#[test]
fn call_not_taken_leaves_stack() {
    let mut cpu = cpu();
    cpu.reg.pc = 0x0100;
    cpu.reg.sp = 0xFFFE;
    cpu.call(Immediate16, Condition::Carry(true));
    assert_eq!(cpu.reg.pc, 0x0102);
    assert_eq!(cpu.reg.sp, 0xFFFE);
    assert_eq!(cpu.cycles_until_done, 0);
    assert_eq!(cpu.curr_instr, "CALLC d16");
}

#[test]
fn ret_not_taken() {
    let mut cpu = cpu();
    cpu.reg.pc = 0x0300;
    cpu.reg.sp = 0xFFF0;
    cpu.reg.f = C;
    cpu.ret(Condition::Carry(false));
    assert_eq!(cpu.reg.pc, 0x0300);
    assert_eq!(cpu.reg.sp, 0xFFF0);
    assert_eq!(cpu.curr_instr, "RETNC");
}

#[test]
fn restart_then_return() {
    let mut cpu = cpu();
    cpu.reg.pc = 0x1234;
    cpu.reg.sp = 0xD000;
    cpu.restart(0x38);
    assert_eq!(cpu.reg.pc, 0x0038);
    assert_eq!(cpu.reg.sp, 0xCFFE);
    assert_eq!(cpu.memory[0xCFFE], 0x34);
    assert_eq!(cpu.memory[0xCFFF], 0x12);
    assert_eq!(cpu.cycles_until_done, 1);
    assert_eq!(cpu.curr_instr, "RST 0x38");
    cpu.return_and_enable_interrupts();
    assert_eq!(cpu.reg.pc, 0x1234);
    assert_eq!(cpu.reg.sp, 0xD000);
    assert!(cpu.ime);
    assert_eq!(cpu.curr_instr, "RETI");
}

#[test]
fn restart_text_is_upper_case_hex() {
    let mut cpu = cpu();
    cpu.reg.sp = 0xD000;
    cpu.restart(0xFF);
    assert_eq!(cpu.curr_instr, "RST 0xFF");
    cpu.restart(0x00);
    assert_eq!(cpu.curr_instr, "RST 0x00");
    cpu.restart(0x0A);
    assert_eq!(cpu.curr_instr, "RST 0x0A");
}

#[test]
fn interrupts_enable_and_disable() {
    let mut cpu = cpu();
    cpu.enable_interrupts();
    assert!(cpu.ime);
    assert_eq!(cpu.curr_instr, "EI");
    cpu.disable_interrupts();
    assert!(!cpu.ime);
    assert_eq!(cpu.curr_instr, "DI");
}

#[test]
fn halt_changes_mode_only() {
    let mut cpu = cpu();
    cpu.no_operation();
    assert_eq!(cpu.curr_instr, "NOP");
    cpu.halt();
    assert_eq!(cpu.mode, CPUMode::Halt);
    assert_eq!(cpu.curr_instr, "NOP");
}

#[test]
fn condition_texts() {
    assert_eq!(Condition::Unconditional.text(), "");
    assert_eq!(Condition::Zero(true).text(), "Z");
    assert_eq!(Condition::Zero(false).text(), "NZ");
    assert_eq!(Condition::Carry(true).text(), "C");
    assert_eq!(Condition::Carry(false).text(), "NC");
}
