//! What each instruction computes, stated directly in terms of its inputs and
//! its results: plain arithmetic on the operands, single bits of bytes, the
//! raw flag bits of F, and the bytes of memory.

use vstd::prelude::*;

use crate::cpu::flags::{lemma_flag_byte_round_trip, FlagSet};
use crate::cpu::instructions::Condition;
use crate::cpu::operands::{Register, Source, WordRegister};
use crate::cpu::semantics;
use crate::cpu::state::CpuState;
use crate::cpu::CPUMode;

verus! {

/// Bit `i` of `b`.
pub open spec fn nth_bit(b: u8, i: u8) -> bool {
    (b >> i) & 1 == 1
}

/// The carry bit of F, as 0 or 1.
pub open spec fn carry_of(f: u8) -> int {
    if f & 0x10 != 0 {
        1
    } else {
        0
    }
}

/// The condition is met by the flag bits of `f`: Z is bit 7, C is bit 4.
pub open spec fn taken(cond: Condition, f: u8) -> bool {
    match cond {
        Condition::Unconditional => true,
        Condition::Zero(z) => (f & 0x80 != 0) == z,
        Condition::Carry(c) => (f & 0x10 != 0) == c,
    }
}

/// Decoding the byte of any flag set gives that set back.
proof fn lemma_decode_flags()
    ensures
        forall|fs: FlagSet| #[trigger] FlagSet::from_byte(fs.to_byte()) == fs,
{
    assert forall|fs: FlagSet| #[trigger] FlagSet::from_byte(fs.to_byte()) == fs by {
        lemma_flag_byte_round_trip(fs);
    }
}

/// The flags of F as the instruction conditions read them.
proof fn lemma_flag_bits(f: u8)
    ensures
        FlagSet::from_byte(f).zero == (f & 0x80 != 0),
        FlagSet::from_byte(f).carry == (f & 0x10 != 0),
{
}

/// Bit `i` of `a | v`, `a & v`, `a ^ v` and `!a`.
proof fn lemma_logic_bit(a: u8, v: u8, i: u8)
    by (bit_vector)
    requires
        i < 8,
    ensures
        (((a | v) >> i) & 1 == 1) == (((a >> i) & 1 == 1) || ((v >> i) & 1 == 1)),
        (((a & v) >> i) & 1 == 1) == (((a >> i) & 1 == 1) && ((v >> i) & 1 == 1)),
        (((a ^ v) >> i) & 1 == 1) == (((a >> i) & 1 == 1) != ((v >> i) & 1 == 1)),
        (((!a) >> i) & 1 == 1) == !((a >> i) & 1 == 1),
        !a == 255 - a,
{
}

/// ADD: A becomes the sum of A and the operand modulo 256; C is set exactly when
/// the sum exceeds 255, Z exactly when the new A is 0, N is clear; nothing but
/// A and F changes beyond the operand's read.
pub proof fn lemma_add_byte_computes<S: Source<u8>>(s: CpuState, byte: S)
    ensures
        ({
            let (s1, v) = byte.spec_read(s);
            let t = semantics::add_byte_spec(s, byte);
            &&& t.reg.a == (s1.reg.a + v) % 256
            &&& t.reg.flag_set().carry == (s1.reg.a + v > 255)
            &&& t.reg.flag_set().zero == (t.reg.a == 0)
            &&& !t.reg.flag_set().subtract
            &&& t.reg.flag_set().half_carry == (s1.reg.a % 16 + v % 16 > 15)
            &&& t.reg.pc == s1.reg.pc && t.reg.sp == s1.reg.sp && t.reg.b == s1.reg.b
            &&& t.memory == s1.memory
        }),
{
    lemma_decode_flags();
}

/// ADC: A becomes A + operand + the carry flag, modulo 256; C is set exactly
/// when that sum exceeds 255. With the carry flag clear, ADC leaves the same
/// registers as ADD.
pub proof fn lemma_add_with_carry_computes<S: Source<u8>>(s: CpuState, byte: S)
    ensures
        ({
            let (s1, v) = byte.spec_read(s);
            let c = carry_of(s1.reg.f);
            let t = semantics::add_with_carry_spec(s, byte);
            &&& t.reg.a == (s1.reg.a + v + c) % 256
            &&& t.reg.flag_set().carry == (s1.reg.a + v + c > 255)
            &&& t.reg.flag_set().zero == (t.reg.a == 0)
            &&& !t.reg.flag_set().subtract
            &&& t.reg.flag_set().half_carry == (s1.reg.a % 16 + v % 16 + c > 15)
            &&& (s1.reg.f & 0x10 == 0 ==> t.reg == semantics::add_byte_spec(s, byte).reg)
            &&& (s1.reg.f & 0x10 != 0 ==> t.reg.a == (s1.reg.a + v + 1) % 256)
        }),
{
    lemma_decode_flags();
    let (s1, v) = byte.spec_read(s);
    lemma_flag_bits(s1.reg.f);
}

/// SUB: A becomes A - operand modulo 256; C is set exactly when the operand is
/// larger than A (a borrow), Z exactly when they are equal, N is set.
pub proof fn lemma_subtract_computes<S: Source<u8>>(s: CpuState, byte: S)
    ensures
        ({
            let (s1, v) = byte.spec_read(s);
            let t = semantics::subtract_spec(s, byte);
            &&& t.reg.a == (s1.reg.a - v + 256) % 256
            &&& t.reg.flag_set().carry == (s1.reg.a < v)
            &&& t.reg.flag_set().zero == (s1.reg.a == v)
            &&& t.reg.flag_set().subtract
            &&& t.reg.flag_set().half_carry == (s1.reg.a % 16 < v % 16)
            &&& t.memory == s1.memory
        }),
{
    lemma_decode_flags();
}

/// SBC: A becomes A - operand - the carry flag, modulo 256; C is set exactly
/// when operand + carry exceeds A. With the carry flag clear, SBC leaves the
/// same registers as SUB.
pub proof fn lemma_subtract_with_carry_computes<S: Source<u8>>(s: CpuState, byte: S)
    ensures
        ({
            let (s1, v) = byte.spec_read(s);
            let c = carry_of(s1.reg.f);
            let t = semantics::subtract_with_carry_spec(s, byte);
            &&& t.reg.a == (s1.reg.a - v - c + 512) % 256
            &&& t.reg.flag_set().carry == (s1.reg.a < v + c)
            &&& t.reg.flag_set().zero == (t.reg.a == 0)
            &&& t.reg.flag_set().subtract
            &&& t.reg.flag_set().half_carry == (s1.reg.a % 16 < v % 16 + c)
            &&& (s1.reg.f & 0x10 == 0 ==> t.reg == semantics::subtract_spec(s, byte).reg)
            &&& (s1.reg.f & 0x10 != 0 ==> t.reg.a == (s1.reg.a - v + 255) % 256)
        }),
{
    lemma_decode_flags();
    let (s1, v) = byte.spec_read(s);
    lemma_flag_bits(s1.reg.f);
}

/// CP: A and every register but F stay as they are; Z is set exactly when A
/// equals the operand, C exactly when A is smaller, N is set.
pub proof fn lemma_compare_computes<S: Source<u8>>(s: CpuState, byte: S)
    ensures
        ({
            let (s1, v) = byte.spec_read(s);
            let t = semantics::compare_spec(s, byte);
            &&& t.reg.a == s1.reg.a
            &&& t.reg.b == s1.reg.b && t.reg.c == s1.reg.c && t.reg.pc == s1.reg.pc
            &&& t.reg.flag_set().zero == (s1.reg.a == v)
            &&& t.reg.flag_set().carry == (s1.reg.a < v)
            &&& t.reg.flag_set().subtract
            &&& t.reg.flag_set().half_carry == (s1.reg.a % 16 < v % 16)
            &&& t.memory == s1.memory
        }),
{
    lemma_decode_flags();
}

/// AND, OR and XOR act on each bit of A and the operand separately: bit `i` of
/// the new A is the and, the or, or the exclusive or of bit `i` of the two.
/// Z is set exactly when the new A is 0, and C is clear.
pub proof fn lemma_logic_computes<S: Source<u8>>(s: CpuState, byte: S)
    ensures
        ({
            let (s1, v) = byte.spec_read(s);
            let and = semantics::and_spec(s, byte);
            let or = semantics::or_spec(s, byte);
            let xor = semantics::xor_spec(s, byte);
            &&& forall|i: u8|
                i < 8 ==> #[trigger] nth_bit(and.reg.a, i) == (nth_bit(s1.reg.a, i) && nth_bit(v, i))
            &&& forall|i: u8|
                i < 8 ==> #[trigger] nth_bit(or.reg.a, i) == (nth_bit(s1.reg.a, i) || nth_bit(v, i))
            &&& forall|i: u8|
                i < 8 ==> #[trigger] nth_bit(xor.reg.a, i) == (nth_bit(s1.reg.a, i) != nth_bit(v, i))
            &&& and.reg.flag_set().zero == (and.reg.a == 0) && !and.reg.flag_set().carry
            &&& !and.reg.flag_set().subtract && and.reg.flag_set().half_carry
            &&& or.reg.flag_set().zero == (or.reg.a == 0) && !or.reg.flag_set().carry
            &&& !or.reg.flag_set().subtract && !or.reg.flag_set().half_carry
            &&& xor.reg.flag_set().zero == (xor.reg.a == 0) && !xor.reg.flag_set().carry
            &&& !xor.reg.flag_set().subtract && !xor.reg.flag_set().half_carry
        }),
{
    lemma_decode_flags();
    let (s1, v) = byte.spec_read(s);
    let a = s1.reg.a;
    assert forall|i: u8| i < 8 implies #[trigger] nth_bit(a & v, i) == (nth_bit(a, i) && nth_bit(v, i))
        && nth_bit(a | v, i) == (nth_bit(a, i) || nth_bit(v, i)) && nth_bit(a ^ v, i) == (nth_bit(a, i)
        != nth_bit(v, i)) by {
        lemma_logic_bit(a, v, i);
    }
    assert forall|i: u8| i < 8 implies #[trigger] nth_bit(a | v, i) == (nth_bit(a, i) || nth_bit(v, i)) by {
        lemma_logic_bit(a, v, i);
    }
    assert forall|i: u8| i < 8 implies #[trigger] nth_bit(a ^ v, i) == (nth_bit(a, i) != nth_bit(v, i)) by {
        lemma_logic_bit(a, v, i);
    }
}

/// CPL flips every bit of A and keeps Z and C.
pub proof fn lemma_complement_computes(s: CpuState)
    ensures
        forall|i: u8|
            i < 8 ==> #[trigger] nth_bit(semantics::complement_a_spec(s).reg.a, i) == !nth_bit(
                s.reg.a,
                i,
            ),
        semantics::complement_a_spec(s).reg.flag_set().zero == s.reg.flag_set().zero,
        semantics::complement_a_spec(s).reg.flag_set().carry == s.reg.flag_set().carry,
        semantics::complement_a_spec(s).reg.flag_set().subtract,
        semantics::complement_a_spec(s).reg.flag_set().half_carry,
{
    lemma_decode_flags();
    let a = s.reg.a;
    lemma_logic_bit(a, a, 0);
    assert forall|i: u8| i < 8 implies #[trigger] nth_bit((255 - a) as u8, i) == !nth_bit(a, i) by {
        lemma_logic_bit(a, a, i);
    }
}

/// The little-endian word in memory at `addr`: the byte at `addr` plus 256
/// times the byte at the next address (wrapping).
pub open spec fn memory_word(s: CpuState, addr: u16) -> int {
    s.memory[addr as int] + 256 * s.memory[(addr + 1) % 65536]
}

/// RET: when the condition is met by the flags, PC becomes the word at SP, SP
/// grows by 2 (wrapping) and one more cycle is taken; otherwise no register
/// changes. Memory is left as it is either way.
pub proof fn lemma_ret_computes(s: CpuState, cond: Condition)
    requires
        s.cycles_until_done < u32::MAX,
    ensures
        ({
            let t = semantics::ret_spec(s, cond);
            &&& taken(cond, s.reg.f) ==> {
                &&& t.reg.pc == memory_word(s, s.reg.sp)
                &&& t.reg.sp == (s.reg.sp + 2) % 65536
                &&& t.reg.a == s.reg.a && t.reg.f == s.reg.f && t.reg.spec_hl() == s.reg.spec_hl()
                &&& t.cycles_until_done == s.cycles_until_done + 1
            }
            &&& !taken(cond, s.reg.f) ==> t.reg == s.reg && t.cycles_until_done
                == s.cycles_until_done
            &&& t.memory == s.memory
            &&& t.ime == s.ime
        }),
        taken(cond, s.reg.f) ==> semantics::ret_spec(s, cond).reg == semantics::ret_spec(
            s,
            Condition::Unconditional,
        ).reg,
{
    lemma_flag_bits(s.reg.f);
}

/// RETI: returns unconditionally (PC from the word at SP, SP grows by 2) and
/// enables interrupts.
pub proof fn lemma_return_and_enable_interrupts_computes(s: CpuState)
    requires
        s.cycles_until_done < u32::MAX,
    ensures
        ({
            let t = semantics::return_and_enable_interrupts_spec(s);
            &&& t.reg.pc == memory_word(s, s.reg.sp)
            &&& t.reg.sp == (s.reg.sp + 2) % 65536
            &&& t.ime
            &&& t.memory == s.memory
            &&& t.cycles_until_done == s.cycles_until_done + 1
        }),
{
}

/// CALL: when the condition is met, the address after the operand is stored
/// at SP - 2 (low byte first), SP drops by 2, PC becomes the operand and one
/// more cycle is taken; otherwise only the operand is read.
pub proof fn lemma_call_computes<S: Source<u16>>(s: CpuState, word: S, cond: Condition)
    requires
        s.wf(),
        s.cycles_until_done < u32::MAX,
    ensures
        ({
            let (s1, address) = word.spec_read(s);
            let t = semantics::call_spec(s, word, cond);
            let below = ((s.reg.sp + 65534) % 65536) as u16;
            &&& taken(cond, s.reg.f) ==> {
                &&& t.reg.pc == address
                &&& t.reg.sp == below
                &&& t.memory[below as int] == s1.reg.pc % 256
                &&& t.memory[(below + 1) % 65536] == s1.reg.pc / 256
                &&& t.reg.a == s.reg.a && t.reg.f == s.reg.f && t.reg.spec_hl() == s.reg.spec_hl()
                &&& t.cycles_until_done == s.cycles_until_done + 1
            }
            &&& !taken(cond, s.reg.f) ==> t.reg == s1.reg && t.memory == s1.memory
                && t.cycles_until_done == s.cycles_until_done
        }),
{
    word.lemma_read_moves_only_pc(s);
    lemma_flag_bits(s.reg.f);
    let s1 = word.spec_read(s).0;
    let below = ((s.reg.sp + 65534) % 65536) as u16;
    assert(below != (below + 1) % 65536);
}

/// JP: when the condition is met, PC becomes the operand and one more cycle is
/// taken; otherwise only the operand is read.
pub proof fn lemma_jump_computes<S: Source<u16>>(s: CpuState, word: S, cond: Condition)
    requires
        s.cycles_until_done < u32::MAX,
    ensures
        ({
            let (s1, address) = word.spec_read(s);
            let t = semantics::jump_spec(s, word, cond);
            &&& taken(cond, s.reg.f) ==> t.reg.pc == address && t.reg.sp == s.reg.sp
                && t.reg.f == s.reg.f && t.cycles_until_done == s.cycles_until_done + 1
            &&& !taken(cond, s.reg.f) ==> t.reg == s1.reg && t.cycles_until_done
                == s.cycles_until_done
            &&& t.memory == s.memory
        }),
{
    word.lemma_read_moves_only_pc(s);
    lemma_flag_bits(s.reg.f);
}

/// JR: the byte after the opcode is a signed offset; when the condition is met,
/// PC moves from just past that byte by the offset (wrapping) and one more cycle
/// is taken; otherwise PC only moves past the byte.
pub proof fn lemma_jump_relative_computes(s: CpuState, cond: Condition)
    requires
        s.cycles_until_done < u32::MAX,
    ensures
        ({
            let t = semantics::jump_relative_spec(s, cond);
            let immediate = s.memory[s.reg.pc as int];
            let offset = if immediate < 128 {
                immediate as int
            } else {
                immediate - 256
            };
            let next = (s.reg.pc + 1) % 65536;
            &&& taken(cond, s.reg.f) ==> t.reg.pc == (next + offset + 65536) % 65536
                && t.cycles_until_done == s.cycles_until_done + 1
            &&& !taken(cond, s.reg.f) ==> t.reg.pc == next && t.cycles_until_done
                == s.cycles_until_done
            &&& t.reg.sp == s.reg.sp && t.reg.f == s.reg.f && t.reg.a == s.reg.a
            &&& t.memory == s.memory
        }),
{
    lemma_flag_bits(s.reg.f);
}

/// RST: the current PC is stored at SP - 2 (low byte first), SP drops by 2, PC
/// becomes the restart address and one more cycle is taken.
pub proof fn lemma_restart_computes(s: CpuState, address: u8)
    requires
        s.wf(),
        s.cycles_until_done < u32::MAX,
    ensures
        ({
            let t = semantics::restart_spec(s, address);
            let below = ((s.reg.sp + 65534) % 65536) as u16;
            &&& t.reg.pc == address
            &&& t.reg.sp == below
            &&& t.memory[below as int] == s.reg.pc % 256
            &&& t.memory[(below + 1) % 65536] == s.reg.pc / 256
            &&& t.reg.f == s.reg.f && t.reg.a == s.reg.a
            &&& t.cycles_until_done == s.cycles_until_done + 1
        }),
{
    let below = ((s.reg.sp + 65534) % 65536) as u16;
    assert(below != (below + 1) % 65536);
}

/// PUSH: the register's word is stored at SP - 2 (low byte first) and SP drops
/// by 2. POP: the register takes the word at SP and SP grows by 2.
pub proof fn lemma_push_pop_compute(s: CpuState, r: WordRegister)
    requires
        s.wf(),
        r != WordRegister::SP,
        r != WordRegister::AF,
    ensures
        ({
            let pushed = semantics::push_spec(s, r);
            let popped = semantics::pop_spec(s, r);
            let below = ((s.reg.sp + 65534) % 65536) as u16;
            &&& pushed.reg.sp == below
            &&& pushed.memory[below as int] == r.value_in(s.reg) % 256
            &&& pushed.memory[(below + 1) % 65536] == r.value_in(s.reg) / 256
            &&& r.value_in(popped.reg) == memory_word(s, s.reg.sp)
            &&& popped.reg.sp == (s.reg.sp + 2) % 65536
            &&& popped.memory == s.memory
        }),
{
    let below = ((s.reg.sp + 65534) % 65536) as u16;
    assert(below != (below + 1) % 65536);
}

/// Bits of a byte rotated left and right by one.
proof fn lemma_rotate_bits(v: u8, i: u8)
    requires
        i < 8,
    ensures
        ((v << 1u8) | (v >> 7u8)) as int == (2 * v + v / 128) % 256,
        ((((v << 1u8) | (v >> 7u8)) >> (((i + 1) % 8) as u8)) & 1) == ((v >> i) & 1),
        ((v >> 1u8) | (v << 7u8)) as int == v / 2 + 128 * (v % 2),
        ((((v >> 1u8) | (v << 7u8)) >> i) & 1) == ((v >> (((i + 1) % 8) as u8)) & 1),
{
    lemma_rotate_left_value(v);
    lemma_rotate_left_bit(v, i);
    lemma_rotate_right_value(v);
    lemma_rotate_right_bit(v, i);
}

proof fn lemma_rotate_left_value(v: u8)
    by (bit_vector)
    ensures
        ((v << 1u8) | (v >> 7u8)) as int == (2 * v + v / 128) % 256,
{
}

proof fn lemma_rotate_left_bit(v: u8, i: u8)
    by (bit_vector)
    requires
        i < 8,
    ensures
        ((((v << 1u8) | (v >> 7u8)) >> (((i + 1) % 8) as u8)) & 1) == ((v >> i) & 1),
{
}

proof fn lemma_rotate_right_value(v: u8)
    by (bit_vector)
    ensures
        ((v >> 1u8) | (v << 7u8)) as int == v / 2 + 128 * (v % 2),
{
}

proof fn lemma_rotate_right_bit(v: u8, i: u8)
    by (bit_vector)
    requires
        i < 8,
    ensures
        ((((v >> 1u8) | (v << 7u8)) >> i) & 1) == ((v >> (((i + 1) % 8) as u8)) & 1),
{
}

/// Bits of a byte shifted left by one with `c` into bit 0, and shifted right by
/// one with `t` into bit 7.
proof fn lemma_shift_bits(v: u8, c: u8, t: u8, i: u8)
    requires
        i < 7,
        c < 2,
        t < 2,
    ensures
        ((v << 1u8) | c) as int == (2 * v + c) % 256,
        ((((v << 1u8) | c) >> ((i + 1) as u8)) & 1) == ((v >> i) & 1),
        ((((v << 1u8) | c) >> 0u8) & 1 == 1) == (c == 1),
        ((v >> 1u8) | (t << 7u8)) as int == v / 2 + 128 * t,
        ((((v >> 1u8) | (t << 7u8)) >> i) & 1) == ((v >> ((i + 1) as u8)) & 1),
        ((((v >> 1u8) | (t << 7u8)) >> 7u8) & 1 == 1) == (t == 1),
{
    lemma_shift_left_value(v, c);
    lemma_shift_left_bit(v, c, i);
    lemma_shift_left_low_bit(v, c);
    lemma_shift_right_value(v, t);
    lemma_shift_right_bit(v, t, i);
    lemma_shift_right_high_bit(v, t);
}

proof fn lemma_shift_left_value(v: u8, c: u8)
    by (bit_vector)
    requires
        c < 2,
    ensures
        ((v << 1u8) | c) as int == (2 * v + c) % 256,
{
}

proof fn lemma_shift_left_bit(v: u8, c: u8, i: u8)
    by (bit_vector)
    requires
        i < 7,
        c < 2,
    ensures
        ((((v << 1u8) | c) >> ((i + 1) as u8)) & 1) == ((v >> i) & 1),
{
}

proof fn lemma_shift_left_low_bit(v: u8, c: u8)
    by (bit_vector)
    requires
        c < 2,
    ensures
        ((((v << 1u8) | c) >> 0u8) & 1 == 1) == (c == 1),
{
}

proof fn lemma_shift_right_value(v: u8, t: u8)
    by (bit_vector)
    requires
        t < 2,
    ensures
        ((v >> 1u8) | (t << 7u8)) as int == v / 2 + 128 * t,
{
}

proof fn lemma_shift_right_bit(v: u8, t: u8, i: u8)
    by (bit_vector)
    requires
        i < 7,
        t < 2,
    ensures
        ((((v >> 1u8) | (t << 7u8)) >> i) & 1) == ((v >> ((i + 1) as u8)) & 1),
{
}

proof fn lemma_shift_right_high_bit(v: u8, t: u8)
    by (bit_vector)
    requires
        t < 2,
    ensures
        ((((v >> 1u8) | (t << 7u8)) >> 7u8) & 1 == 1) == (t == 1),
{
}

/// The top bit and the bottom bit of a byte.
proof fn lemma_end_bits(v: u8)
    by (bit_vector)
    ensures
        (v >= 128u8) == ((v >> 7u8) & 1u8 == 1u8),
        (v & 1u8 == 1u8) == ((v >> 0u8) & 1u8 == 1u8),
{
}

/// The bottom bit of a byte is its remainder modulo 2.
proof fn lemma_low_bit(v: u8)
    ensures
        (v % 2 == 1) == ((v >> 0u8) & 1u8 == 1u8),
{
    lemma_end_bits(v);
    assert((v & 1u8) == v % 2) by (bit_vector);
}

/// Bits of a byte with its nibbles exchanged.
proof fn lemma_swap_bits(v: u8, i: u8)
    by (bit_vector)
    requires
        i < 8,
    ensures
        ((v << 4u8) | (v >> 4u8)) as int == 16 * (v % 16) + v / 16,
        ((((v << 4u8) | (v >> 4u8)) >> i) & 1) == ((v >> (((i + 4) % 8) as u8)) & 1),
{
}

/// RLC: every bit of the register moves one place up, bit 7 comes round to bit
/// 0 and into C; Z is set exactly when the result is 0; N and H are clear.
pub proof fn lemma_rotate_left_computes(s: CpuState, r: Register)
    ensures
        ({
            let v = r.value_in(s.reg);
            let t = semantics::rotate_left_spec(s, r);
            let w = r.value_in(t.reg);
            &&& forall|i: u8|
                #![trigger nth_bit(v, i)]
                i < 8 ==> nth_bit(w, ((i + 1) % 8) as u8) == nth_bit(v, i)
            &&& t.reg.flag_set().carry == nth_bit(v, 7)
            &&& t.reg.flag_set().zero == (w == 0)
            &&& !t.reg.flag_set().subtract && !t.reg.flag_set().half_carry
        }),
{
    lemma_decode_flags();
    let v = r.value_in(s.reg);
    lemma_rotate_bits(v, 0);
    lemma_end_bits(v);
    lemma_low_bit(v);
    assert forall|i: u8| #![trigger nth_bit(v, i)] i < 8 implies nth_bit(
        r.value_in(semantics::rotate_left_spec(s, r).reg),
        ((i + 1) % 8) as u8,
    ) == nth_bit(v, i) by {
        lemma_rotate_bits(v, i);
    }
}

/// RRC: every bit of the register moves one place down, bit 0 comes round to
/// bit 7 and into C; Z is set exactly when the result is 0; N and H are clear.
pub proof fn lemma_rotate_right_computes(s: CpuState, r: Register)
    ensures
        ({
            let v = r.value_in(s.reg);
            let t = semantics::rotate_right_spec(s, r);
            let w = r.value_in(t.reg);
            &&& forall|i: u8|
                #![trigger nth_bit(w, i)]
                i < 8 ==> nth_bit(w, i) == nth_bit(v, ((i + 1) % 8) as u8)
            &&& t.reg.flag_set().carry == nth_bit(v, 0)
            &&& t.reg.flag_set().zero == (w == 0)
            &&& !t.reg.flag_set().subtract && !t.reg.flag_set().half_carry
        }),
{
    lemma_decode_flags();
    let v = r.value_in(s.reg);
    lemma_rotate_bits(v, 0);
    lemma_end_bits(v);
    lemma_low_bit(v);
    assert forall|i: u8| i < 8 implies #[trigger] nth_bit(
        r.value_in(semantics::rotate_right_spec(s, r).reg),
        i,
    ) == nth_bit(v, ((i + 1) % 8) as u8) by {
        lemma_rotate_bits(v, i);
    }
}

/// RL: bits move one place up, the carry flag enters bit 0 and bit 7 goes into
/// C. RR: bits move one place down, the carry flag enters bit 7 and bit 0 goes
/// into C. Z is set exactly when the result is 0; N and H are clear.
pub proof fn lemma_rotate_through_carry_computes(s: CpuState, r: Register)
    ensures
        ({
            let v = r.value_in(s.reg);
            let old_carry = s.reg.f & 0x10 != 0;
            let left = semantics::rotate_left_through_carry_spec(s, r);
            let right = semantics::rotate_right_through_carry_spec(s, r);
            let wl = r.value_in(left.reg);
            let wr = r.value_in(right.reg);
            &&& forall|i: u8|
                #![trigger nth_bit(v, i)]
                i < 7 ==> nth_bit(wl, (i + 1) as u8) == nth_bit(v, i)
            &&& nth_bit(wl, 0) == old_carry
            &&& left.reg.flag_set().carry == nth_bit(v, 7)
            &&& left.reg.flag_set().zero == (wl == 0)
            &&& forall|i: u8|
                #![trigger nth_bit(wr, i)]
                i < 7 ==> nth_bit(wr, i) == nth_bit(v, (i + 1) as u8)
            &&& nth_bit(wr, 7) == old_carry
            &&& right.reg.flag_set().carry == nth_bit(v, 0)
            &&& right.reg.flag_set().zero == (wr == 0)
        }),
{
    lemma_decode_flags();
    let v = r.value_in(s.reg);
    let c: u8 = if s.reg.f & 0x10 != 0 {
        1
    } else {
        0
    };
    lemma_shift_bits(v, c, c, 0);
    lemma_end_bits(v);
    lemma_low_bit(v);
    assert forall|i: u8| #![trigger nth_bit(v, i)] i < 7 implies nth_bit(
        r.value_in(semantics::rotate_left_through_carry_spec(s, r).reg),
        (i + 1) as u8,
    ) == nth_bit(v, i) by {
        lemma_shift_bits(v, c, c, i);
    }
    assert forall|i: u8| i < 7 implies #[trigger] nth_bit(
        r.value_in(semantics::rotate_right_through_carry_spec(s, r).reg),
        i,
    ) == nth_bit(v, (i + 1) as u8) by {
        lemma_shift_bits(v, c, c, i);
    }
}

/// SLA: bits move one place up, bit 0 becomes 0 and bit 7 goes into C. SRL:
/// bits move one place down, bit 7 becomes 0 and bit 0 goes into C. SRA: as
/// SRL, but bit 7 keeps its value. Z is set exactly when the result is 0.
pub proof fn lemma_shifts_compute(s: CpuState, r: Register)
    ensures
        ({
            let v = r.value_in(s.reg);
            let sla = semantics::shift_left_spec(s, r);
            let srl = semantics::shift_right_spec(s, r);
            let sra = semantics::shift_right_keep_msb_spec(s, r);
            let wl = r.value_in(sla.reg);
            let wr = r.value_in(srl.reg);
            let wa = r.value_in(sra.reg);
            &&& forall|i: u8|
                #![trigger nth_bit(v, i)]
                i < 7 ==> nth_bit(wl, (i + 1) as u8) == nth_bit(v, i)
            &&& !nth_bit(wl, 0)
            &&& sla.reg.flag_set().carry == nth_bit(v, 7)
            &&& sla.reg.flag_set().zero == (wl == 0)
            &&& forall|i: u8|
                #![trigger nth_bit(wr, i)]
                i < 7 ==> nth_bit(wr, i) == nth_bit(v, (i + 1) as u8)
            &&& !nth_bit(wr, 7)
            &&& srl.reg.flag_set().carry == nth_bit(v, 0)
            &&& srl.reg.flag_set().zero == (wr == 0)
            &&& forall|i: u8|
                #![trigger nth_bit(wa, i)]
                i < 7 ==> nth_bit(wa, i) == nth_bit(v, (i + 1) as u8)
            &&& nth_bit(wa, 7) == nth_bit(v, 7)
            &&& sra.reg.flag_set().carry == nth_bit(v, 0)
            &&& sra.reg.flag_set().zero == (wa == 0)
        }),
{
    lemma_decode_flags();
    let v = r.value_in(s.reg);
    let top = (v / 128) as u8;
    lemma_shift_bits(v, 0, 0, 0);
    lemma_shift_bits(v, 0, top, 0);
    lemma_end_bits(v);
    lemma_low_bit(v);
    assert forall|i: u8| #![trigger nth_bit(v, i)] i < 7 implies nth_bit(
        r.value_in(semantics::shift_left_spec(s, r).reg),
        (i + 1) as u8,
    ) == nth_bit(v, i) by {
        lemma_shift_bits(v, 0, 0, i);
    }
    assert forall|i: u8| i < 7 implies #[trigger] nth_bit(
        r.value_in(semantics::shift_right_spec(s, r).reg),
        i,
    ) == nth_bit(v, (i + 1) as u8) by {
        lemma_shift_bits(v, 0, 0, i);
    }
    assert forall|i: u8| i < 7 implies #[trigger] nth_bit(
        r.value_in(semantics::shift_right_keep_msb_spec(s, r).reg),
        i,
    ) == nth_bit(v, (i + 1) as u8) by {
        lemma_shift_bits(v, 0, top, i);
    }
}

/// SWAP: bit `i` of the result is bit `i + 4` (modulo 8) of the register; Z is
/// set exactly when the register was 0; N, H and C are clear.
pub proof fn lemma_swap_computes(s: CpuState, r: Register)
    ensures
        ({
            let v = r.value_in(s.reg);
            let t = semantics::swap_spec(s, r);
            let w = r.value_in(t.reg);
            &&& forall|i: u8|
                #![trigger nth_bit(w, i)]
                i < 8 ==> nth_bit(w, i) == nth_bit(v, ((i + 4) % 8) as u8)
            &&& t.reg.flag_set().zero == (v == 0)
            &&& !t.reg.flag_set().carry && !t.reg.flag_set().subtract && !t.reg.flag_set().half_carry
        }),
{
    lemma_decode_flags();
    let v = r.value_in(s.reg);
    lemma_swap_bits(v, 0);
    assert forall|i: u8| i < 8 implies #[trigger] nth_bit(
        r.value_in(semantics::swap_spec(s, r).reg),
        i,
    ) == nth_bit(v, ((i + 4) % 8) as u8) by {
        lemma_swap_bits(v, i);
    }
}

/// ADD on words: the target becomes the sum of target and source modulo 2^16;
/// C is set exactly when the sum exceeds 0xFFFF, H exactly when the low twelve
/// bits carry; N is clear and Z is kept.
pub proof fn lemma_add_word_computes<S: Source<u16>>(s: CpuState, target: WordRegister, source: S)
    requires
        target != WordRegister::AF,
    ensures
        ({
            let (s1, sv) = source.spec_read(s);
            let tv = target.value_in(s1.reg);
            let t = semantics::add_word_spec(s, target, source);
            &&& target.value_in(t.reg) == (sv + tv) % 65536
            &&& t.reg.flag_set().carry == (sv + tv > 65535)
            &&& t.reg.flag_set().half_carry == (sv % 4096 + tv % 4096 > 4095)
            &&& !t.reg.flag_set().subtract
            &&& t.reg.flag_set().zero == s.reg.flag_set().zero
            &&& t.memory == s1.memory
        }),
{
    lemma_decode_flags();
    source.lemma_read_moves_only_pc(s);
}

/// INC and DEC on a byte register: the value goes up or down by one modulo 256;
/// Z is set exactly when the result is 0; H reports the low nibble wrapping;
/// INC clears N and DEC sets it; C is kept.
pub proof fn lemma_step_byte_computes(s: CpuState, r: Register)
    ensures
        ({
            let v = r.value_in(s.reg);
            let up = semantics::increment_byte_spec(s, r);
            let down = semantics::decrement_byte_spec(s, r);
            &&& r.value_in(up.reg) == (v + 1) % 256
            &&& up.reg.flag_set().zero == (v == 255)
            &&& up.reg.flag_set().half_carry == (v % 16 == 15)
            &&& !up.reg.flag_set().subtract
            &&& up.reg.flag_set().carry == s.reg.flag_set().carry
            &&& r.value_in(down.reg) == (v + 255) % 256
            &&& down.reg.flag_set().zero == (v == 1)
            &&& down.reg.flag_set().half_carry == (v % 16 == 0)
            &&& down.reg.flag_set().subtract
            &&& down.reg.flag_set().carry == s.reg.flag_set().carry
        }),
{
    lemma_decode_flags();
}

/// INC and DEC on a word register: the value goes up or down by one modulo
/// 2^16, one more cycle is taken, and F is kept.
pub proof fn lemma_step_word_computes(s: CpuState, r: WordRegister)
    requires
        r != WordRegister::AF,
        s.cycles_until_done < u32::MAX,
    ensures
        ({
            let v = r.value_in(s.reg);
            let up = semantics::increment_word_spec(s, r);
            let down = semantics::decrement_word_spec(s, r);
            &&& r.value_in(up.reg) == (v + 1) % 65536
            &&& r.value_in(down.reg) == (v + 65535) % 65536
            &&& up.reg.f == s.reg.f && down.reg.f == s.reg.f
            &&& up.cycles_until_done == s.cycles_until_done + 1
            &&& down.cycles_until_done == s.cycles_until_done + 1
        }),
{
}

/// BIT: Z is set exactly when bit `b` of the operand is clear; N is clear, H is
/// set, C is kept, and the operand is left as it is. SET sets bit `b` and RES
/// clears it, leaving every other bit and F as they were.
pub proof fn lemma_bit_ops_compute(s: CpuState, b: u8, r: Register)
    requires
        b < 8,
    ensures
        ({
            let v = r.value_in(s.reg);
            let tested = semantics::test_bit_spec(s, b, r);
            let set = semantics::set_bit_spec(s, b, r);
            let reset = semantics::reset_bit_spec(s, b, r);
            &&& tested.reg.flag_set().zero == !nth_bit(v, b)
            &&& !tested.reg.flag_set().subtract && tested.reg.flag_set().half_carry
            &&& tested.reg.flag_set().carry == s.reg.flag_set().carry
            &&& r.value_in(tested.reg) == v
            &&& forall|i: u8|
                i < 8 ==> #[trigger] nth_bit(r.value_in(set.reg), i) == (i == b || nth_bit(v, i))
            &&& forall|i: u8|
                i < 8 ==> #[trigger] nth_bit(r.value_in(reset.reg), i) == (i != b && nth_bit(v, i))
            &&& set.reg.f == s.reg.f && reset.reg.f == s.reg.f
        }),
{
    lemma_decode_flags();
    let v = r.value_in(s.reg);
    assert forall|i: u8| i < 8 implies #[trigger] nth_bit(v | (1u8 << b), i) == (i == b || nth_bit(v, i))
        by {
        lemma_or_single_bit(v, b, i);
    }
    assert forall|i: u8| i < 8 implies #[trigger] nth_bit(v & !(1u8 << b), i) == (i != b && nth_bit(
        v,
        i,
    )) by {
        lemma_and_not_single_bit(v, b, i);
    }
}

/// Bit `i` of `v | (1 << b)`.
proof fn lemma_or_single_bit(v: u8, b: u8, i: u8)
    by (bit_vector)
    requires
        b < 8,
        i < 8,
    ensures
        (((v | (1u8 << b)) >> i) & 1 == 1) == (i == b || (v >> i) & 1 == 1),
{
}

/// Bit `i` of `v & !(1 << b)`.
proof fn lemma_and_not_single_bit(v: u8, b: u8, i: u8)
    by (bit_vector)
    requires
        b < 8,
        i < 8,
    ensures
        (((v & !(1u8 << b)) >> i) & 1 == 1) == (i != b && (v >> i) & 1 == 1),
{
}

/// DI clears and EI sets the interrupt enable; HALT puts the CPU in halt mode;
/// SCF sets C and clears N and H, keeping Z. None of them changes memory, and
/// only SCF changes a register (F).
pub proof fn lemma_simple_instructions_compute(s: CpuState)
    ensures
        !semantics::disable_interrupts_spec(s).ime,
        semantics::disable_interrupts_spec(s).reg == s.reg,
        semantics::enable_interrupts_spec(s).ime,
        semantics::enable_interrupts_spec(s).reg == s.reg,
        semantics::halt_spec(s).mode == CPUMode::Halt,
        semantics::halt_spec(s).reg == s.reg,
        semantics::halt_spec(s).ime == s.ime,
        semantics::no_operation_spec(s).reg == s.reg,
        semantics::no_operation_spec(s).ime == s.ime,
        semantics::no_operation_spec(s).mode == s.mode,
        semantics::no_operation_spec(s).memory == s.memory,
        semantics::set_carry_flag_spec(s).reg.flag_set().carry,
        !semantics::set_carry_flag_spec(s).reg.flag_set().subtract,
        !semantics::set_carry_flag_spec(s).reg.flag_set().half_carry,
        semantics::set_carry_flag_spec(s).reg.flag_set().zero == s.reg.flag_set().zero,
        semantics::set_carry_flag_spec(s).reg.a == s.reg.a,
        semantics::set_carry_flag_spec(s).memory == s.memory,
{
    lemma_decode_flags();
}

} // verus!
