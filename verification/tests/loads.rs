use lib::cpu::operands::{Immediate16, Immediate8, Indirect, Register, WordRegister};
use lib::cpu::CPU;

fn cpu() -> Box<CPU> {
    Box::new(CPU::new())
}

#[test]
fn load_register_to_register() {
    let mut cpu = cpu();
    cpu.reg.c = 0x99;
    cpu.load(Register::B, Register::C);
    assert_eq!(cpu.reg.b, 0x99);
    assert_eq!(cpu.reg.c, 0x99);
    assert_eq!(cpu.curr_instr, "LD B, C");
}

#[test]
fn load_immediate_word_into_sp() {
    let mut cpu = cpu();
    cpu.reg.pc = 0x0100;
    cpu.memory[0x0100] = 0xFE;
    cpu.memory[0x0101] = 0xFF;
    cpu.load(WordRegister::SP, Immediate16);
    assert_eq!(cpu.reg.sp, 0xFFFE);
    assert_eq!(cpu.reg.pc, 0x0102);
    assert_eq!(cpu.curr_instr, "LD SP, d16");
}

#[test]
fn load_to_high_memory() {
    let mut cpu = cpu();
    cpu.reg.pc = 0x0100;
    cpu.memory[0x0100] = 0x44;
    cpu.reg.a = 0x91;
    cpu.load(Indirect::HighImmediate, Register::A);
    assert_eq!(cpu.memory[0xFF44], 0x91);
    assert_eq!(cpu.reg.pc, 0x0101);
    assert_eq!(cpu.curr_instr, "LD (a8), A");
}

#[test]
fn load_through_c() {
    let mut cpu = cpu();
    cpu.reg.c = 0x80;
    cpu.memory[0xFF80] = 0x17;
    cpu.load(Register::A, Indirect::C);
    assert_eq!(cpu.reg.a, 0x17);
    assert_eq!(cpu.curr_instr, "LD A, (C)");
}

#[test]
fn load_to_absolute_address() {
    let mut cpu = cpu();
    cpu.reg.pc = 0x0100;
    cpu.memory[0x0100] = 0x00;
    cpu.memory[0x0101] = 0xC0;
    cpu.reg.a = 0x5A;
    cpu.load(Indirect::Immediate, Register::A);
    assert_eq!(cpu.memory[0xC000], 0x5A);
    assert_eq!(cpu.reg.pc, 0x0102);
}

#[test]
fn load_immediate_byte_through_bc_and_de() {
    let mut cpu = cpu();
    cpu.reg.pc = 0x0100;
    cpu.memory[0x0100] = 0x66;
    cpu.reg.set_bc(0xC010);
    cpu.load(Indirect::BC, Immediate8);
    assert_eq!(cpu.memory[0xC010], 0x66);
    cpu.reg.set_de(0xC010);
    cpu.load(Register::L, Indirect::DE);
    assert_eq!(cpu.reg.l, 0x66);
}

#[test]
fn load_and_increment_hl() {
    let mut cpu = cpu();
    cpu.reg.set_hl(0xC000);
    cpu.reg.a = 0x42;
    cpu.load_and_increment_hl(Indirect::HL, Register::A);
    assert_eq!(cpu.memory[0xC000], 0x42);
    assert_eq!(cpu.reg.hl(), 0xC001);
    assert_eq!(cpu.cycles_until_done, 0);
    assert_eq!(cpu.curr_instr, "LDI (HL), A");
}

#[test]
fn load_and_decrement_hl() {
    let mut cpu = cpu();
    cpu.reg.set_hl(0xC000);
    cpu.memory[0xC000] = 0x24;
    cpu.load_and_decrement_hl(Register::A, Indirect::HL);
    assert_eq!(cpu.reg.a, 0x24);
    assert_eq!(cpu.reg.hl(), 0xBFFF);
    assert_eq!(cpu.cycles_until_done, 0);
    assert_eq!(cpu.curr_instr, "LDD A, (HL)");
}

#[test]
fn load_and_decrement_hl_wraps() {
    let mut cpu = cpu();
    cpu.reg.set_hl(0x0000);
    cpu.load_and_decrement_hl(Indirect::HL, Register::A);
    assert_eq!(cpu.reg.hl(), 0xFFFF);
}

#[test]
fn push_then_pop_round_trip() {
    let mut cpu = cpu();
    cpu.reg.sp = 0xFFFE;
    cpu.reg.set_bc(0xBEEF);
    cpu.push(WordRegister::BC);
    assert_eq!(cpu.reg.sp, 0xFFFC);
    assert_eq!(cpu.memory[0xFFFC], 0xEF);
    assert_eq!(cpu.memory[0xFFFD], 0xBE);
    assert_eq!(cpu.curr_instr, "PUSH BC");
    cpu.pop(WordRegister::DE);
    assert_eq!(cpu.reg.de(), 0xBEEF);
    assert_eq!(cpu.reg.sp, 0xFFFE);
    assert_eq!(cpu.curr_instr, "POP DE");
}

#[test]
fn pop_into_af_clears_low_nibble_of_f() {
    let mut cpu = cpu();
    cpu.reg.sp = 0xC000;
    cpu.memory[0xC000] = 0xFF;
    cpu.memory[0xC001] = 0x12;
    cpu.pop(WordRegister::AF);
    assert_eq!(cpu.reg.a, 0x12);
    assert_eq!(cpu.reg.f, 0xF0);
    assert_eq!(cpu.reg.af(), 0x12F0);
}

#[test]
fn push_wraps_below_zero() {
    let mut cpu = cpu();
    cpu.reg.sp = 0x0001;
    cpu.reg.set_hl(0xA1B2);
    cpu.push(WordRegister::HL);
    assert_eq!(cpu.reg.sp, 0xFFFF);
    assert_eq!(cpu.memory[0xFFFF], 0xB2);
    assert_eq!(cpu.memory[0x0000], 0xA1);
    cpu.pop(WordRegister::HL);
    assert_eq!(cpu.reg.hl(), 0xA1B2);
    assert_eq!(cpu.reg.sp, 0x0001);
}

#[test]
fn read_and_write_word_little_endian() {
    let mut cpu = cpu();
    cpu.write_word(0xFFFF, 0x1234);
    assert_eq!(cpu.memory[0xFFFF], 0x34);
    assert_eq!(cpu.memory[0x0000], 0x12);
    assert_eq!(cpu.read_word(0xFFFF), 0x1234);
    cpu.write_byte(0x8000, 7);
    assert_eq!(cpu.read_byte(0x8000), 7);
}
