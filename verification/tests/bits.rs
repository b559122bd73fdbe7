use lib::cpu::operands::{Indirect, Register};
use lib::cpu::CPU;

const Z: u8 = 0x80;
const N: u8 = 0x40;
const H: u8 = 0x20;
const C: u8 = 0x10;

fn cpu() -> Box<CPU> {
    Box::new(CPU::new())
}

#[test]
fn test_bit_reports_clear_bit_as_zero() {
    let mut cpu = cpu();
    cpu.reg.b = 0b1111_0111;
    cpu.reg.f = N | C;
    cpu.test_bit(3, Register::B);
    assert_eq!(cpu.reg.f, Z | H | C);
    assert_eq!(cpu.reg.b, 0b1111_0111);
    assert_eq!(cpu.curr_instr, "BIT 3, B");
}

#[test]
fn test_bit_reports_set_bit() {
    let mut cpu = cpu();
    cpu.reg.h = 0b1000_0000;
    cpu.reg.f = Z;
    cpu.test_bit(7, Register::H);
    assert_eq!(cpu.reg.f, H);
    assert_eq!(cpu.curr_instr, "BIT 7, H");
}

#[test]
fn set_bit_then_test_bit() {
    let mut cpu = cpu();
    cpu.reg.c = 0;
    cpu.set_bit(5, Register::C);
    assert_eq!(cpu.reg.c, 0b0010_0000);
    assert_eq!(cpu.curr_instr, "SET 5, C");
    cpu.test_bit(5, Register::C);
    assert_eq!(cpu.reg.f & Z, 0);
}

#[test]
fn reset_bit_then_test_bit() {
    let mut cpu = cpu();
    cpu.reg.set_hl(0xC123);
    cpu.memory[0xC123] = 0xFF;
    cpu.reset_bit(0, Indirect::HL);
    assert_eq!(cpu.memory[0xC123], 0xFE);
    assert_eq!(cpu.curr_instr, "RES 0, (HL)");
    cpu.test_bit(0, Indirect::HL);
    assert_eq!(cpu.reg.f & Z, Z);
}

#[test]
fn set_and_reset_leave_flags_alone() {
    let mut cpu = cpu();
    cpu.reg.f = Z | N | H | C;
    cpu.set_bit(1, Register::D);
    cpu.reset_bit(1, Register::D);
    assert_eq!(cpu.reg.d, 0);
    assert_eq!(cpu.reg.f, Z | N | H | C);
}

#[test]
fn rotate_left_moves_bit_seven_into_carry_and_bit_zero() {
    let mut cpu = cpu();
    cpu.reg.b = 0b1000_0001;
    cpu.rotate_left(Register::B);
    assert_eq!(cpu.reg.b, 0b0000_0011);
    assert_eq!(cpu.reg.f, C);
    assert_eq!(cpu.curr_instr, "RLC B");
}

#[test]
fn rotate_right_moves_bit_zero_into_carry_and_bit_seven() {
    let mut cpu = cpu();
    cpu.reg.b = 0b0000_0011;
    cpu.rotate_right(Register::B);
    assert_eq!(cpu.reg.b, 0b1000_0001);
    assert_eq!(cpu.reg.f, C);
    assert_eq!(cpu.curr_instr, "RRC B");
}

#[test]
fn rotate_left_then_right_restores() {
    let mut cpu = cpu();
    for v in 0..=255u8 {
        cpu.reg.e = v;
        cpu.rotate_left(Register::E);
        cpu.rotate_right(Register::E);
        assert_eq!(cpu.reg.e, v);
    }
}

#[test]
fn rotate_of_zero_sets_zero_flag() {
    let mut cpu = cpu();
    cpu.reg.f = C;
    cpu.rotate_left(Register::A);
    assert_eq!(cpu.reg.a, 0);
    assert_eq!(cpu.reg.f, Z);
}

#[test]
fn rotate_left_through_carry_takes_carry_into_bit_zero() {
    let mut cpu = cpu();
    cpu.reg.c = 0b1000_0000;
    cpu.reg.f = C;
    cpu.rotate_left_through_carry(Register::C);
    assert_eq!(cpu.reg.c, 0b0000_0001);
    assert_eq!(cpu.reg.f, C);
    assert_eq!(cpu.curr_instr, "RL C");
}

#[test]
fn rotate_left_through_carry_without_carry_can_give_zero() {
    let mut cpu = cpu();
    cpu.reg.c = 0b1000_0000;
    cpu.rotate_left_through_carry(Register::C);
    assert_eq!(cpu.reg.c, 0);
    assert_eq!(cpu.reg.f, Z | C);
    cpu.rotate_left_through_carry(Register::C);
    assert_eq!(cpu.reg.c, 1);
    assert_eq!(cpu.reg.f, 0);
}

#[test]
fn rotate_right_through_carry_takes_carry_into_bit_seven() {
    let mut cpu = cpu();
    cpu.reg.d = 0b0000_0010;
    cpu.reg.f = C;
    cpu.rotate_right_through_carry(Register::D);
    assert_eq!(cpu.reg.d, 0b1000_0001);
    assert_eq!(cpu.reg.f, 0);
    cpu.rotate_right_through_carry(Register::D);
    assert_eq!(cpu.reg.d, 0b0100_0000);
    assert_eq!(cpu.reg.f, C);
    assert_eq!(cpu.curr_instr, "RR D");
}

#[test]
fn shift_left_drops_bit_seven() {
    let mut cpu = cpu();
    cpu.reg.a = 0b1100_0001;
    cpu.reg.f = C;
    cpu.shift_left(Register::A);
    assert_eq!(cpu.reg.a, 0b1000_0010);
    assert_eq!(cpu.reg.f, C);
    assert_eq!(cpu.curr_instr, "SLA A");
}

#[test]
fn shift_left_to_zero() {
    let mut cpu = cpu();
    cpu.reg.a = 0b1000_0000;
    cpu.shift_left(Register::A);
    assert_eq!(cpu.reg.a, 0);
    assert_eq!(cpu.reg.f, Z | C);
}

#[test]
fn shift_right_keep_msb_copies_bit_seven() {
    let mut cpu = cpu();
    cpu.reg.b = 0b1000_0010;
    cpu.shift_right_keep_msb(Register::B);
    assert_eq!(cpu.reg.b, 0b1100_0001);
    assert_eq!(cpu.reg.f, 0);
    assert_eq!(cpu.curr_instr, "SRA B");
    cpu.reg.b = 0b0111_1111;
    cpu.shift_right_keep_msb(Register::B);
    assert_eq!(cpu.reg.b, 0b0011_1111);
    assert_eq!(cpu.reg.f, C);
}

#[test]
fn shift_right_clears_bit_seven() {
    let mut cpu = cpu();
    cpu.reg.b = 0b1000_0011;
    cpu.shift_right(Register::B);
    assert_eq!(cpu.reg.b, 0b0100_0001);
    assert_eq!(cpu.reg.f, C);
    assert_eq!(cpu.curr_instr, "SRL B");
    cpu.reg.b = 1;
    cpu.shift_right(Register::B);
    assert_eq!(cpu.reg.b, 0);
    assert_eq!(cpu.reg.f, Z | C);
    cpu.reg.b = 2;
    cpu.shift_right(Register::B);
    assert_eq!(cpu.reg.b, 1);
    assert_eq!(cpu.reg.f, 0);
}

#[test]
fn swap_exchanges_nibbles() {
    let mut cpu = cpu();
    cpu.reg.a = 0x12;
    cpu.reg.f = N | H | C;
    cpu.swap(Register::A);
    assert_eq!(cpu.reg.a, 0x21);
    assert_eq!(cpu.reg.f, 0);
    assert_eq!(cpu.curr_instr, "SWAP A");
}

#[test]
fn swap_of_zero_sets_zero_flag() {
    let mut cpu = cpu();
    cpu.reg.set_hl(0xC000);
    cpu.swap(Indirect::HL);
    assert_eq!(cpu.memory[0xC000], 0);
    assert_eq!(cpu.reg.f, Z);
}

#[test]
fn swap_twice_restores() {
    let mut cpu = cpu();
    for v in 0..=255u8 {
        cpu.reg.b = v;
        cpu.swap(Register::B);
        assert_eq!(cpu.reg.b, (v << 4) | (v >> 4));
        cpu.swap(Register::B);
        assert_eq!(cpu.reg.b, v);
    }
}
