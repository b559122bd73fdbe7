use lib::cpu::flags::Flags;
use lib::cpu::operands::{Immediate16, Immediate8, Indirect, Operand, Register, WordRegister};
use lib::cpu::text::{i8_to_decimal, u8_to_decimal, u8_to_hex};

#[test]
fn decimal_texts() {
    assert_eq!(u8_to_decimal(0), "0");
    assert_eq!(u8_to_decimal(7), "7");
    assert_eq!(u8_to_decimal(10), "10");
    assert_eq!(u8_to_decimal(99), "99");
    assert_eq!(u8_to_decimal(100), "100");
    assert_eq!(u8_to_decimal(255), "255");
    for n in 0..=255u8 {
        assert_eq!(u8_to_decimal(n), n.to_string());
    }
}

#[test]
fn signed_decimal_texts() {
    assert_eq!(i8_to_decimal(-128), "-128");
    assert_eq!(i8_to_decimal(-1), "-1");
    assert_eq!(i8_to_decimal(0), "0");
    assert_eq!(i8_to_decimal(127), "127");
    for n in -128..=127i8 {
        assert_eq!(i8_to_decimal(n), format!("{}", n));
    }
}

#[test]
fn hex_texts() {
    assert_eq!(u8_to_hex(0x38), "0x38");
    for n in 0..=255u8 {
        assert_eq!(u8_to_hex(n), format!("{:#04X}", n));
    }
}

#[test]
fn operand_texts() {
    assert_eq!(Register::A.text(), "A");
    assert_eq!(Register::L.text(), "L");
    assert_eq!(WordRegister::AF.text(), "AF");
    assert_eq!(WordRegister::PC.text(), "PC");
    assert_eq!(Indirect::HL.text(), "(HL)");
    assert_eq!(Indirect::C.text(), "(C)");
    assert_eq!(Indirect::Immediate.text(), "(a16)");
    assert_eq!(Indirect::HighImmediate.text(), "(a8)");
    assert_eq!(Immediate8.text(), "d8");
    assert_eq!(Immediate16.text(), "d16");
}

#[test]
fn flag_set_operations() {
    let mut flags = Flags::empty();
    assert_eq!(flags.bits(), 0);
    flags.insert(Flags::zero());
    flags.insert(Flags::carry());
    assert_eq!(flags.bits(), 0x90);
    assert!(flags.contains(Flags::zero()));
    assert!(!flags.contains(Flags::subtract()));
    flags.remove(Flags::zero());
    assert_eq!(flags.bits(), 0x10);
    flags.set(Flags::half_carry(), true);
    flags.set(Flags::carry(), false);
    assert_eq!(flags.bits(), 0x20);
    assert_eq!(Flags::zero().union(Flags::subtract()).bits(), 0xC0);
    assert_eq!(Flags::from_bits_truncate(0xFF).bits(), 0xF0);
}
