use lib::cpu::instructions::Condition;
use lib::cpu::operands::{Immediate8, Indirect, Register, WordRegister};
use lib::cpu::CPU;

const Z: u8 = 0x80;
const N: u8 = 0x40;
const H: u8 = 0x20;
const C: u8 = 0x10;

fn cpu() -> Box<CPU> {
    Box::new(CPU::new())
}

#[test]
fn add_byte_without_carry_out() {
    let mut cpu = cpu();
    cpu.reg.a = 0x12;
    cpu.reg.b = 0x34;
    cpu.reg.f = N | H | C;
    cpu.add_byte(Register::B);
    assert_eq!(cpu.reg.a, 0x46);
    assert_eq!(cpu.reg.f, 0);
    assert_eq!(cpu.curr_instr, "ADD B");
}

#[test]
fn add_byte_wraps_and_sets_zero_and_carry() {
    let mut cpu = cpu();
    cpu.reg.a = 0xF0;
    cpu.reg.c = 0x10;
    cpu.add_byte(Register::C);
    assert_eq!(cpu.reg.a, 0x00);
    assert_eq!(cpu.reg.f, Z | C);
}

#[test]
fn add_byte_from_immediate_advances_pc() {
    let mut cpu = cpu();
    cpu.reg.pc = 0x0100;
    cpu.memory[0x0100] = 0x05;
    cpu.reg.a = 0x03;
    cpu.add_byte(Immediate8);
    assert_eq!(cpu.reg.a, 0x08);
    assert_eq!(cpu.reg.pc, 0x0101);
    assert_eq!(cpu.curr_instr, "ADD d8");
}

#[test]
fn add_with_carry_adds_the_carry_flag() {
    let mut cpu = cpu();
    cpu.reg.a = 0x10;
    cpu.reg.b = 0x01;
    cpu.reg.f = C;
    cpu.add_with_carry(Register::B);
    assert_eq!(cpu.reg.a, 0x12);
    assert_eq!(cpu.reg.f, 0);
    assert_eq!(cpu.curr_instr, "ADC B");
}

#[test]
fn add_with_carry_overflow_from_the_carry_alone() {
    let mut cpu = cpu();
    cpu.reg.a = 0xFF;
    cpu.reg.b = 0x00;
    cpu.reg.f = C;
    cpu.add_with_carry(Register::B);
    assert_eq!(cpu.reg.a, 0x00);
    assert_eq!(cpu.reg.f, Z | H | C);
}

#[test]
fn add_word_into_hl_keeps_zero_flag() {
    let mut cpu = cpu();
    cpu.reg.h = 0x80;
    cpu.reg.l = 0x00;
    cpu.reg.d = 0x80;
    cpu.reg.e = 0x01;
    cpu.reg.f = Z | N | H;
    cpu.add_word(WordRegister::HL, WordRegister::DE);
    assert_eq!(cpu.reg.hl(), 0x0001);
    assert_eq!(cpu.reg.f, Z | C);
    assert_eq!(cpu.curr_instr, "ADD HL, DE");
}

#[test]
fn add_word_without_overflow_clears_carry() {
    let mut cpu = cpu();
    cpu.reg.set_hl(0x1234);
    cpu.reg.sp = 0x0100;
    cpu.reg.f = C;
    cpu.add_word(WordRegister::HL, WordRegister::SP);
    assert_eq!(cpu.reg.hl(), 0x1334);
    assert_eq!(cpu.reg.f, 0);
}

#[test]
fn subtract_without_borrow_clears_carry() {
    let mut cpu = cpu();
    cpu.reg.a = 0x10;
    cpu.reg.b = 0x01;
    cpu.reg.f = C;
    cpu.subtract(Register::B);
    assert_eq!(cpu.reg.a, 0x0F);
    assert_eq!(cpu.reg.f, N | H);
    assert_eq!(cpu.curr_instr, "SUB B");
}

#[test]
fn subtract_with_borrow_sets_carry() {
    let mut cpu = cpu();
    cpu.reg.a = 0x01;
    cpu.reg.b = 0x02;
    cpu.subtract(Register::B);
    assert_eq!(cpu.reg.a, 0xFF);
    assert_eq!(cpu.reg.f, N | H | C);
}

#[test]
fn subtract_equal_values_gives_zero() {
    let mut cpu = cpu();
    cpu.reg.a = 0x42;
    cpu.subtract(Register::A);
    assert_eq!(cpu.reg.a, 0);
    assert_eq!(cpu.reg.f, Z | N);
}

#[test]
fn subtract_with_carry_takes_the_carry_away() {
    let mut cpu = cpu();
    cpu.reg.a = 0x10;
    cpu.reg.b = 0x0F;
    cpu.reg.f = C;
    cpu.subtract_with_carry(Register::B);
    assert_eq!(cpu.reg.a, 0x00);
    assert_eq!(cpu.reg.f, Z | N | H);
    assert_eq!(cpu.curr_instr, "SBC B");
}

#[test]
fn subtract_with_carry_borrow_from_the_carry_alone() {
    let mut cpu = cpu();
    cpu.reg.a = 0x00;
    cpu.reg.b = 0x00;
    cpu.reg.f = C;
    cpu.subtract_with_carry(Register::B);
    assert_eq!(cpu.reg.a, 0xFF);
    assert_eq!(cpu.reg.f, N | H | C);
}

#[test]
fn add_byte_half_carry_from_low_nibble() {
    let mut cpu = cpu();
    cpu.reg.a = 0x0F;
    cpu.reg.b = 0x01;
    cpu.add_byte(Register::B);
    assert_eq!(cpu.reg.a, 0x10);
    assert_eq!(cpu.reg.f, H);
}

#[test]
fn add_word_half_carry_from_bit_eleven() {
    let mut cpu = cpu();
    cpu.reg.set_hl(0x0FFF);
    cpu.reg.set_bc(0x0001);
    cpu.add_word(WordRegister::HL, WordRegister::BC);
    assert_eq!(cpu.reg.hl(), 0x1000);
    assert_eq!(cpu.reg.f, H);
}

#[test]
fn compare_and_subtract_set_the_same_flags() {
    for (a, b) in [(0x10u8, 0x01u8), (0x01, 0x02), (0x42, 0x42), (0x80, 0x0F), (0x00, 0xFF)] {
        let mut x = cpu();
        x.reg.a = a;
        x.reg.b = b;
        x.compare(Register::B);
        let mut y = cpu();
        y.reg.a = a;
        y.reg.b = b;
        y.subtract(Register::B);
        assert_eq!(x.reg.f, y.reg.f);
        assert_eq!(x.reg.a, a);
        assert_eq!(y.reg.a, a.wrapping_sub(b));
    }
}

#[test]
fn compare_half_borrow() {
    let mut cpu = cpu();
    cpu.reg.a = 0x20;
    cpu.reg.b = 0x01;
    cpu.compare(Register::B);
    assert_eq!(cpu.reg.f, N | H);
}

#[test]
fn compare_sets_zero_on_equal_and_keeps_a() {
    let mut cpu = cpu();
    cpu.reg.a = 0x3C;
    cpu.reg.b = 0x3C;
    cpu.compare(Register::B);
    assert_eq!(cpu.reg.a, 0x3C);
    assert_eq!(cpu.reg.f, Z | N);
    assert_eq!(cpu.curr_instr, "CP B");
}

#[test]
fn compare_sets_carry_when_a_is_smaller() {
    let mut cpu = cpu();
    cpu.reg.a = 0x10;
    cpu.reg.b = 0x20;
    cpu.reg.f = H;
    cpu.compare(Register::B);
    assert_eq!(cpu.reg.f, N | C);
}

#[test]
fn and_sets_half_carry_flag() {
    let mut cpu = cpu();
    cpu.reg.a = 0b1100_1100;
    cpu.reg.b = 0b1010_1010;
    cpu.and(Register::B);
    assert_eq!(cpu.reg.a, 0b1000_1000);
    assert_eq!(cpu.reg.f, H);
    assert_eq!(cpu.curr_instr, "AND B");
}

#[test]
fn and_with_zero_result() {
    let mut cpu = cpu();
    cpu.reg.a = 0xF0;
    cpu.reg.b = 0x0F;
    cpu.and(Register::B);
    assert_eq!(cpu.reg.a, 0);
    assert_eq!(cpu.reg.f, Z | H);
}

#[test]
fn or_combines_bits() {
    let mut cpu = cpu();
    cpu.reg.a = 0xF0;
    cpu.reg.b = 0x0F;
    cpu.reg.f = N | H | C;
    cpu.or(Register::B);
    assert_eq!(cpu.reg.a, 0xFF);
    assert_eq!(cpu.reg.f, 0);
    assert_eq!(cpu.curr_instr, "OR B");
}

#[test]
fn or_of_zeros_sets_zero() {
    let mut cpu = cpu();
    cpu.or(Register::A);
    assert_eq!(cpu.reg.f, Z);
}

#[test]
fn xor_with_itself_clears_a() {
    let mut cpu = cpu();
    cpu.reg.a = 0x5A;
    cpu.xor(Register::A);
    assert_eq!(cpu.reg.a, 0);
    assert_eq!(cpu.reg.f, Z);
    assert_eq!(cpu.curr_instr, "XOR A");
}

#[test]
fn xor_with_memory() {
    let mut cpu = cpu();
    cpu.reg.a = 0xFF;
    cpu.reg.set_hl(0xC000);
    cpu.memory[0xC000] = 0x0F;
    cpu.xor(Indirect::HL);
    assert_eq!(cpu.reg.a, 0xF0);
    assert_eq!(cpu.reg.f, 0);
    assert_eq!(cpu.curr_instr, "XOR (HL)");
}

#[test]
fn complement_a_flips_bits_and_keeps_z_and_c() {
    let mut cpu = cpu();
    cpu.reg.a = 0b1010_0101;
    cpu.reg.f = Z | C;
    cpu.complement_a();
    assert_eq!(cpu.reg.a, 0b0101_1010);
    assert_eq!(cpu.reg.f, Z | N | H | C);
    assert_eq!(cpu.curr_instr, "CPLA");
    cpu.complement_a();
    assert_eq!(cpu.reg.a, 0b1010_0101);
}

#[test]
fn increment_byte_half_carry_on_nibble_overflow() {
    let mut cpu = cpu();
    cpu.reg.b = 0x0F;
    cpu.reg.f = N | C;
    cpu.increment_byte(Register::B);
    assert_eq!(cpu.reg.b, 0x10);
    assert_eq!(cpu.reg.f, H | C);
    assert_eq!(cpu.curr_instr, "INC B");
}

#[test]
fn increment_byte_wraps_to_zero() {
    let mut cpu = cpu();
    cpu.reg.b = 0xFF;
    cpu.increment_byte(Register::B);
    assert_eq!(cpu.reg.b, 0x00);
    assert_eq!(cpu.reg.f, Z | H);
}

#[test]
fn increment_byte_plain() {
    let mut cpu = cpu();
    cpu.reg.c = 0x41;
    cpu.increment_byte(Register::C);
    assert_eq!(cpu.reg.c, 0x42);
    assert_eq!(cpu.reg.f, 0);
}

#[test]
fn decrement_byte_in_memory() {
    let mut cpu = cpu();
    cpu.reg.set_hl(0xD000);
    cpu.memory[0xD000] = 0x10;
    cpu.decrement_byte(Indirect::HL);
    assert_eq!(cpu.memory[0xD000], 0x0F);
    assert_eq!(cpu.reg.f, N | H);
    assert_eq!(cpu.curr_instr, "DEC (HL)");
}

#[test]
fn decrement_byte_to_zero_keeps_carry() {
    let mut cpu = cpu();
    cpu.reg.d = 0x01;
    cpu.reg.f = C;
    cpu.decrement_byte(Register::D);
    assert_eq!(cpu.reg.d, 0x00);
    assert_eq!(cpu.reg.f, Z | N | C);
}

#[test]
fn decrement_byte_wraps_below_zero() {
    let mut cpu = cpu();
    cpu.reg.e = 0x00;
    cpu.decrement_byte(Register::E);
    assert_eq!(cpu.reg.e, 0xFF);
    assert_eq!(cpu.reg.f, N | H);
}

#[test]
fn increment_and_decrement_word() {
    let mut cpu = cpu();
    cpu.reg.set_bc(0xFFFF);
    cpu.reg.f = Z;
    cpu.increment_word(WordRegister::BC);
    assert_eq!(cpu.reg.bc(), 0x0000);
    assert_eq!(cpu.reg.f, Z);
    assert_eq!(cpu.cycles_until_done, 1);
    assert_eq!(cpu.curr_instr, "INC BC");
    cpu.decrement_word(WordRegister::BC);
    assert_eq!(cpu.reg.bc(), 0xFFFF);
    assert_eq!(cpu.cycles_until_done, 2);
    assert_eq!(cpu.curr_instr, "DEC BC");
}

#[test]
fn set_carry_flag_keeps_zero() {
    let mut cpu = cpu();
    cpu.reg.f = Z | N | H;
    cpu.set_carry_flag();
    assert_eq!(cpu.reg.f, Z | C);
    assert_eq!(cpu.curr_instr, "SCF");
}

#[test]
fn conditions_follow_flags() {
    let mut cpu = cpu();
    cpu.reg.f = Z;
    assert!(Condition::Unconditional.is_satisfied(&cpu));
    assert!(Condition::Zero(true).is_satisfied(&cpu));
    assert!(!Condition::Zero(false).is_satisfied(&cpu));
    assert!(Condition::Carry(false).is_satisfied(&cpu));
    assert!(!Condition::Carry(true).is_satisfied(&cpu));
    cpu.reg.f = C;
    assert!(Condition::Carry(true).is_satisfied(&cpu));
    assert!(Condition::Zero(false).is_satisfied(&cpu));
}

#[test]
fn low_nibble_of_f_stays_clear() {
    let mut cpu = cpu();
    cpu.reg.sp = 0xC000;
    cpu.reg.a = 0x0F;
    cpu.reg.b = 0xF1;
    cpu.add_byte(Register::B);
    assert_eq!(cpu.reg.f & 0x0F, 0);
    cpu.subtract_with_carry(Register::B);
    assert_eq!(cpu.reg.f & 0x0F, 0);
    cpu.complement_a();
    assert_eq!(cpu.reg.f & 0x0F, 0);
    cpu.reg.set_bc(0x00FF);
    cpu.push(WordRegister::BC);
    cpu.pop(WordRegister::AF);
    assert_eq!(cpu.reg.f & 0x0F, 0);
    assert_eq!(cpu.reg.f, 0xF0);
    cpu.increment_byte(Register::C);
    assert_eq!(cpu.reg.f & 0x0F, 0);
}
