//! What each instruction does to the CPU state, one spec function per
//! instruction. The instructions in `instructions` are proved to follow them.

use vstd::prelude::*;

use crate::cpu::flags::FlagSet;
use crate::cpu::instructions::Condition;
use crate::cpu::operands::{Source, Target, WordRegister};
use crate::cpu::registers::{wrap16, wrap8};
use crate::cpu::state::CpuState;
use crate::cpu::text::{decimal, hex_byte, signed_decimal};
use crate::cpu::CPUMode;

verus! {

/// Bit `i` of `byte` is set.
pub open spec fn bit_set(byte: u8, i: u8) -> bool {
    (byte >> i) & 1 == 1
}

/// The flags that only report whether `r` is zero.
pub open spec fn zero_only(r: u8) -> FlagSet {
    FlagSet { zero: r == 0, ..FlagSet::none() }
}

/// `b` read as a two's-complement signed byte.
pub open spec fn signed(b: u8) -> int {
    if b < 128 {
        b as int
    } else {
        b - 256
    }
}

/// The carry flag as 0 or 1.
pub open spec fn carry_in(s: CpuState) -> int {
    if s.flag_set().carry {
        1
    } else {
        0
    }
}

/// ADC: A + operand + carry into A; Z from the result, N clear, H on a carry
/// out of the low nibble, C on a carry out of bit 7.
pub open spec fn add_with_carry_spec<S: Source<u8>>(s: CpuState, byte: S) -> CpuState {
    let (s1, v) = byte.spec_read(s);
    let total = s1.reg.a + v + carry_in(s1);
    let r = wrap8(total);
    s1.with_a(r).with_flags(
        FlagSet {
            zero: r == 0,
            subtract: false,
            half_carry: s1.reg.a % 16 + v % 16 + carry_in(s1) > 15,
            carry: total > 255,
        },
    ).with_instr("ADC "@ + byte.spec_text())
}

/// ADD: A + operand into A; Z from the result, N clear, H on a carry out of
/// the low nibble, C on a carry out of bit 7.
pub open spec fn add_byte_spec<S: Source<u8>>(s: CpuState, byte: S) -> CpuState {
    let (s1, v) = byte.spec_read(s);
    let total = s1.reg.a + v;
    let r = wrap8(total);
    s1.with_a(r).with_flags(
        FlagSet {
            zero: r == 0,
            subtract: false,
            half_carry: s1.reg.a % 16 + v % 16 > 15,
            carry: total > 255,
        },
    ).with_instr("ADD "@ + byte.spec_text())
}

/// ADD on words: source + target into target; N clear, H on a carry out of
/// bit 11, C on a carry out of bit 15, Z kept.
pub open spec fn add_word_spec<T: Source<u16> + Target<u16>, S: Source<u16>>(
    s: CpuState,
    target: T,
    source: S,
) -> CpuState {
    let (s1, sv) = source.spec_read(s);
    let (s2, tv) = target.spec_read(s1);
    let total = sv + tv;
    let s3 = target.spec_write(s2, wrap16(total));
    s3.with_flags(
        FlagSet {
            subtract: false,
            half_carry: sv % 4096 + tv % 4096 > 4095,
            carry: total > 65535,
            ..s3.flag_set()
        },
    ).with_instr("ADD "@ + target.spec_text() + ", "@ + source.spec_text())
}

/// AND: A & operand into A; Z from the result, N clear, H set, C clear.
pub open spec fn and_spec<S: Source<u8>>(s: CpuState, byte: S) -> CpuState {
    let (s1, v) = byte.spec_read(s);
    let r = s1.reg.a & v;
    s1.with_a(r).with_flags(
        FlagSet { zero: r == 0, subtract: false, half_carry: true, carry: false },
    ).with_instr("AND "@ + byte.spec_text())
}

/// BIT: Z set when bit `target_bit` of the operand is clear, N clear, H set, C kept.
pub open spec fn test_bit_spec<S: Source<u8>>(s: CpuState, target_bit: u8, data: S) -> CpuState {
    let (s1, byte) = data.spec_read(s);
    s1.with_flags(
        FlagSet {
            zero: !bit_set(byte, target_bit),
            subtract: false,
            half_carry: true,
            carry: s1.flag_set().carry,
        },
    ).with_instr("BIT "@ + decimal(target_bit as nat) + ", "@ + data.spec_text())
}

/// CALL: reads the address; when the condition holds, pushes PC, takes one
/// more cycle and jumps there.
pub open spec fn call_spec<S: Source<u16>>(s: CpuState, word: S, cond: Condition) -> CpuState {
    let (s1, address) = word.spec_read(s);
    let s2 = if cond.holds(s1.reg) {
        let pushed = push_spec(s1, WordRegister::PC);
        pushed.with_cycles(pushed.cycles_until_done + 1).with_pc(address)
    } else {
        s1
    };
    s2.with_instr("CALL"@ + cond.spec_text() + " "@ + word.spec_text())
}

/// CP: flags of A - operand, A unchanged: Z when equal, N set, H on a borrow
/// from the high nibble, C when A is smaller.
pub open spec fn compare_spec<S: Source<u8>>(s: CpuState, byte: S) -> CpuState {
    let (s1, v) = byte.spec_read(s);
    s1.with_flags(
        FlagSet {
            zero: s1.reg.a == v,
            subtract: true,
            half_carry: s1.reg.a % 16 < v % 16,
            carry: s1.reg.a < v,
        },
    ).with_instr("CP "@ + byte.spec_text())
}

/// CPL: A complemented; N and H set, Z and C kept.
pub open spec fn complement_a_spec(s: CpuState) -> CpuState {
    s.with_a((255 - s.reg.a) as u8).with_flags(
        FlagSet { subtract: true, half_carry: true, ..s.flag_set() },
    ).with_instr("CPLA"@)
}

/// DEC on a byte: operand - 1 (wrapping); Z from the result, N set, H when the
/// low nibble of the result is 0xF, C kept.
pub open spec fn decrement_byte_spec<S: Source<u8> + Target<u8>>(s: CpuState, data: S) -> CpuState {
    let (s1, v) = data.spec_read(s);
    let r = wrap8(v - 1);
    let s2 = data.spec_write(s1, r);
    s2.with_flags(
        FlagSet { zero: r == 0, subtract: true, half_carry: r % 16 == 15, ..s2.flag_set() },
    ).with_instr("DEC "@ + data.spec_text())
}

/// DEC on a word: operand - 1 (wrapping), one more cycle, flags kept.
pub open spec fn decrement_word_spec<S: Source<u16> + Target<u16>>(
    s: CpuState,
    data: S,
) -> CpuState {
    let (s1, v) = data.spec_read(s);
    let s2 = data.spec_write(s1, wrap16(v - 1));
    s2.with_cycles(s2.cycles_until_done + 1).with_instr("DEC "@ + data.spec_text())
}

/// DI: interrupts disabled.
pub open spec fn disable_interrupts_spec(s: CpuState) -> CpuState {
    s.with_ime(false).with_instr("DI"@)
}

/// EI: interrupts enabled.
pub open spec fn enable_interrupts_spec(s: CpuState) -> CpuState {
    s.with_ime(true).with_instr("EI"@)
}

/// HALT: the CPU halts; the instruction text is left as it was.
pub open spec fn halt_spec(s: CpuState) -> CpuState {
    s.with_mode(CPUMode::Halt)
}

/// INC on a byte: operand + 1 (wrapping); Z from the result, N clear, H when the
/// low nibble of the result is 0, C kept.
pub open spec fn increment_byte_spec<S: Source<u8> + Target<u8>>(s: CpuState, data: S) -> CpuState {
    let (s1, v) = data.spec_read(s);
    let r = wrap8(v + 1);
    let s2 = data.spec_write(s1, r);
    s2.with_flags(
        FlagSet { zero: r == 0, subtract: false, half_carry: r % 16 == 0, ..s2.flag_set() },
    ).with_instr("INC "@ + data.spec_text())
}

/// INC on a word: operand + 1 (wrapping), one more cycle, flags kept.
pub open spec fn increment_word_spec<S: Source<u16> + Target<u16>>(
    s: CpuState,
    data: S,
) -> CpuState {
    let (s1, v) = data.spec_read(s);
    let s2 = data.spec_write(s1, wrap16(v + 1));
    s2.with_cycles(s2.cycles_until_done + 1).with_instr("INC "@ + data.spec_text())
}

/// JP: reads the address; when the condition holds, one more cycle and PC set to it.
pub open spec fn jump_spec<S: Source<u16>>(s: CpuState, word: S, cond: Condition) -> CpuState {
    let (s1, address) = word.spec_read(s);
    let s2 = if cond.holds(s1.reg) {
        s1.with_cycles(s1.cycles_until_done + 1).with_pc(address)
    } else {
        s1
    };
    s2.with_instr("JP"@ + cond.spec_text() + " "@ + word.spec_text())
}

/// JR: reads a signed offset from PC; when the condition holds, one more cycle
/// and PC moved by the offset (wrapping).
pub open spec fn jump_relative_spec(s: CpuState, cond: Condition) -> CpuState {
    let (s1, immediate) = s.fetch_byte();
    let offset = signed(immediate);
    let s2 = if cond.holds(s1.reg) {
        s1.with_cycles(s1.cycles_until_done + 1).with_pc(wrap16(s1.reg.pc + offset))
    } else {
        s1
    };
    s2.with_instr("JR"@ + cond.spec_text() + " "@ + signed_decimal(offset))
}

/// LD: the source value written to the target.
pub open spec fn load_spec<T, U: Target<T>, V: Source<T>>(s: CpuState, target: U, source: V) -> CpuState {
    let (s1, v) = source.spec_read(s);
    target.spec_write(s1, v).with_instr("LD "@ + target.spec_text() + ", "@ + source.spec_text())
}

/// LDD: a load, then HL - 1 (wrapping); the cycle count ends where it began.
pub open spec fn load_and_decrement_hl_spec<T, U: Target<T>, V: Source<T>>(
    s: CpuState,
    target: U,
    source: V,
) -> CpuState {
    let s1 = load_spec(s, target, source);
    s1.with_reg(s1.reg.with_hl(wrap16(s1.reg.spec_hl() - 1))).with_instr(
        "LDD "@ + target.spec_text() + ", "@ + source.spec_text(),
    )
}

/// LDI: a load, then HL + 1 (wrapping); the cycle count ends where it began.
pub open spec fn load_and_increment_hl_spec<T, U: Target<T>, V: Source<T>>(
    s: CpuState,
    target: U,
    source: V,
) -> CpuState {
    let s1 = load_spec(s, target, source);
    s1.with_reg(s1.reg.with_hl(wrap16(s1.reg.spec_hl() + 1))).with_instr(
        "LDI "@ + target.spec_text() + ", "@ + source.spec_text(),
    )
}

/// NOP: only the instruction text changes.
pub open spec fn no_operation_spec(s: CpuState) -> CpuState {
    s.with_instr("NOP"@)
}

/// OR: A | operand into A; Z from the result, the other flags clear.
pub open spec fn or_spec<S: Source<u8>>(s: CpuState, byte: S) -> CpuState {
    let (s1, v) = byte.spec_read(s);
    let r = s1.reg.a | v;
    s1.with_a(r).with_flags(zero_only(r)).with_instr("OR "@ + byte.spec_text())
}

/// POP: the word at SP written to the target, then SP + 2 (wrapping).
pub open spec fn pop_spec<T: Target<u16>>(s: CpuState, target: T) -> CpuState {
    let s1 = target.spec_write(s, s.word_at(s.reg.sp));
    s1.with_sp(wrap16(s1.reg.sp + 2)).with_instr("POP "@ + target.spec_text())
}

/// PUSH: SP - 2 (wrapping), then the source word stored at SP.
pub open spec fn push_spec<S: Source<u16>>(s: CpuState, source: S) -> CpuState {
    let s1 = s.with_sp(wrap16(s.reg.sp - 2));
    let (s2, v) = source.spec_read(s1);
    s2.with_word(s2.reg.sp, v).with_instr("PUSH "@ + source.spec_text())
}

/// RES: bit `target_bit` of the operand cleared.
pub open spec fn reset_bit_spec<S: Source<u8> + Target<u8>>(s: CpuState, target_bit: u8, data: S) -> CpuState {
    let (s1, byte) = data.spec_read(s);
    data.spec_write(s1, byte & !(1u8 << target_bit)).with_instr(
        "RES "@ + decimal(target_bit as nat) + ", "@ + data.spec_text(),
    )
}

/// RET: when the condition holds, PC popped from the stack and one more cycle.
pub open spec fn ret_spec(s: CpuState, cond: Condition) -> CpuState {
    let s1 = if cond.holds(s.reg) {
        let popped = pop_spec(s, WordRegister::PC);
        popped.with_cycles(popped.cycles_until_done + 1)
    } else {
        s
    };
    s1.with_instr("RET"@ + cond.spec_text())
}

/// RETI: an unconditional return, then interrupts enabled.
pub open spec fn return_and_enable_interrupts_spec(s: CpuState) -> CpuState {
    ret_spec(s, Condition::Unconditional).with_ime(true).with_instr("RETI"@)
}

/// RL: operand rotated left through the carry: the carry flag into bit 0 and
/// bit 7 into the carry; Z from the result, N and H clear.
pub open spec fn rotate_left_through_carry_spec<S: Source<u8> + Target<u8>>(s: CpuState, data: S) -> CpuState {
    let (s1, v) = data.spec_read(s);
    let r = wrap8(2 * v + carry_in(s1));
    data.spec_write(s1, r).with_flags(FlagSet { carry: v >= 128, ..zero_only(r) }).with_instr(
        "RL "@ + data.spec_text(),
    )
}

/// RR: operand rotated right through the carry: the carry flag into bit 7 and
/// bit 0 into the carry; Z from the result, N and H clear.
pub open spec fn rotate_right_through_carry_spec<S: Source<u8> + Target<u8>>(s: CpuState, data: S) -> CpuState {
    let (s1, v) = data.spec_read(s);
    let r = (v / 2 + 128 * carry_in(s1)) as u8;
    data.spec_write(s1, r).with_flags(FlagSet { carry: v % 2 == 1, ..zero_only(r) }).with_instr(
        "RR "@ + data.spec_text(),
    )
}

/// RLC: operand rotated left by one; Z from the result, C the bit rotated out,
/// N and H clear.
pub open spec fn rotate_left_spec<S: Source<u8> + Target<u8>>(s: CpuState, data: S) -> CpuState {
    let (s1, v) = data.spec_read(s);
    let r = wrap8(2 * v + v / 128);
    data.spec_write(s1, r).with_flags(FlagSet { carry: v >= 128, ..zero_only(r) }).with_instr(
        "RLC "@ + data.spec_text(),
    )
}

/// RRC: operand rotated right by one; Z from the result, C the bit rotated out,
/// N and H clear.
pub open spec fn rotate_right_spec<S: Source<u8> + Target<u8>>(s: CpuState, data: S) -> CpuState {
    let (s1, v) = data.spec_read(s);
    let r = (v / 2 + 128 * (v % 2)) as u8;
    data.spec_write(s1, r).with_flags(FlagSet { carry: v % 2 == 1, ..zero_only(r) }).with_instr(
        "RRC "@ + data.spec_text(),
    )
}

/// RST: PC pushed, one more cycle, and PC set to `address`.
pub open spec fn restart_spec(s: CpuState, address: u8) -> CpuState {
    let s1 = push_spec(s, WordRegister::PC);
    s1.with_cycles(s1.cycles_until_done + 1).with_pc(address as u16).with_instr(
        "RST "@ + hex_byte(address),
    )
}

/// SBC: A - operand - carry into A; Z from the result, N set, H on a borrow
/// from the high nibble, C on a borrow.
pub open spec fn subtract_with_carry_spec<S: Source<u8>>(s: CpuState, byte: S) -> CpuState {
    let (s1, v) = byte.spec_read(s);
    let total = s1.reg.a - v - carry_in(s1);
    let r = wrap8(total);
    s1.with_a(r).with_flags(
        FlagSet {
            zero: r == 0,
            subtract: true,
            half_carry: s1.reg.a % 16 < v % 16 + carry_in(s1),
            carry: total < 0,
        },
    ).with_instr("SBC "@ + byte.spec_text())
}

/// SCF: C set, N and H clear, Z kept.
pub open spec fn set_carry_flag_spec(s: CpuState) -> CpuState {
    s.with_flags(
        FlagSet { carry: true, half_carry: false, subtract: false, ..s.flag_set() },
    ).with_instr("SCF"@)
}

/// SET: bit `target_bit` of the operand set.
pub open spec fn set_bit_spec<S: Source<u8> + Target<u8>>(s: CpuState, target_bit: u8, data: S) -> CpuState {
    let (s1, byte) = data.spec_read(s);
    data.spec_write(s1, byte | (1u8 << target_bit)).with_instr(
        "SET "@ + decimal(target_bit as nat) + ", "@ + data.spec_text(),
    )
}

/// SLA: operand shifted left by one, bit 0 clear, bit 7 into the carry; Z from
/// the result, N and H clear.
pub open spec fn shift_left_spec<S: Source<u8> + Target<u8>>(s: CpuState, data: S) -> CpuState {
    let (s1, v) = data.spec_read(s);
    let r = wrap8(2 * v);
    data.spec_write(s1, r).with_flags(FlagSet { carry: v >= 128, ..zero_only(r) }).with_instr(
        "SLA "@ + data.spec_text(),
    )
}

/// SRA: operand shifted right by one, bit 7 kept, bit 0 into the carry; Z from
/// the result, N and H clear.
pub open spec fn shift_right_keep_msb_spec<S: Source<u8> + Target<u8>>(s: CpuState, data: S) -> CpuState {
    let (s1, v) = data.spec_read(s);
    let r = (v / 2 + 128 * (v / 128)) as u8;
    data.spec_write(s1, r).with_flags(FlagSet { carry: v % 2 == 1, ..zero_only(r) }).with_instr(
        "SRA "@ + data.spec_text(),
    )
}

/// SRL: operand shifted right by one, bit 7 clear, bit 0 into the carry; Z from
/// the result, N and H clear.
pub open spec fn shift_right_spec<S: Source<u8> + Target<u8>>(s: CpuState, data: S) -> CpuState {
    let (s1, v) = data.spec_read(s);
    let r = v / 2;
    data.spec_write(s1, r).with_flags(FlagSet { carry: v % 2 == 1, ..zero_only(r) }).with_instr(
        "SRL "@ + data.spec_text(),
    )
}

/// SUB: A - operand into A; Z from the result, N set, H on a borrow from the
/// high nibble, C on a borrow.
pub open spec fn subtract_spec<S: Source<u8>>(s: CpuState, byte: S) -> CpuState {
    let (s1, v) = byte.spec_read(s);
    let total = s1.reg.a - v;
    let r = wrap8(total);
    s1.with_a(r).with_flags(
        FlagSet {
            zero: r == 0,
            subtract: true,
            half_carry: s1.reg.a % 16 < v % 16,
            carry: total < 0,
        },
    ).with_instr("SUB "@ + byte.spec_text())
}

/// SWAP: the high and low nibbles of the operand exchanged; Z from the result,
/// the other flags clear.
pub open spec fn swap_spec<S: Source<u8> + Target<u8>>(s: CpuState, data: S) -> CpuState {
    let (s1, v) = data.spec_read(s);
    let r = (16 * (v % 16) + v / 16) as u8;
    data.spec_write(s1, r).with_flags(zero_only(r)).with_instr("SWAP "@ + data.spec_text())
}

/// XOR: A ^ operand into A; Z from the result, the other flags clear.
pub open spec fn xor_spec<S: Source<u8>>(s: CpuState, byte: S) -> CpuState {
    let (s1, v) = byte.spec_read(s);
    let r = s1.reg.a ^ v;
    s1.with_a(r).with_flags(zero_only(r)).with_instr("XOR "@ + byte.spec_text())
}

} // verus!
