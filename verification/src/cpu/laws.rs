//! Properties that relate several instructions, proved over their semantics.

use vstd::prelude::*;

use crate::cpu::flags::{lemma_flag_byte_round_trip, FlagSet};
use crate::cpu::instructions::Condition;
use crate::cpu::operands::{Indirect, Register, Source, Target, WordRegister};
use crate::cpu::registers::{high_byte, low_byte, wrap16, wrap8, Registers};
use crate::cpu::semantics;
use crate::cpu::state::CpuState;
use crate::cpu::CPU;

verus! {

/// The memory of every CPU covers the whole 16-bit address space.
pub proof fn lemma_view_is_wf(cpu: &CPU)
    ensures
        cpu@.wf(),
{
}

/// A word stored at `addr` is read back from `addr`.
pub proof fn lemma_word_round_trip(s: CpuState, addr: u16, v: u16)
    requires
        s.wf(),
    ensures
        s.with_word(addr, v).word_at(addr) == v,
        s.with_word(addr, v).wf(),
{
    let next = wrap16(addr + 1);
    assert(next != addr);
    let t = s.with_word(addr, v);
    assert(t.byte_at(addr) == low_byte(v));
    assert(t.byte_at(next) == high_byte(v));
}

/// A word register written with the value it holds is unchanged (for AF, when
/// the low nibble of F is clear, as every flag update leaves it).
pub proof fn lemma_assign_own_value(r: WordRegister, regs: Registers)
    requires
        r == WordRegister::AF ==> regs.f & 0x0F == 0,
    ensures
        r.assigned(regs, r.value_in(regs)) == regs,
{
    if r == WordRegister::AF {
        let f = regs.f;
        assert(f & 0xF0 == f) by (bit_vector)
            requires
                f & 0x0F == 0,
        ;
    }
}

/// Pushing a word register and popping it again restores every register, and
/// the pushed word stays in memory just below SP.
pub proof fn lemma_push_then_pop(s: CpuState, r: WordRegister)
    requires
        s.wf(),
        r != WordRegister::SP,
        r == WordRegister::AF ==> s.reg.f & 0x0F == 0,
    ensures
        semantics::pop_spec(semantics::push_spec(s, r), r).reg == s.reg,
        semantics::pop_spec(semantics::push_spec(s, r), r).word_at(wrap16(s.reg.sp - 2))
            == r.value_in(s.reg),
{
    let pushed = semantics::push_spec(s, r);
    let below = wrap16(s.reg.sp - 2);
    let s1 = s.with_sp(below);
    assert(r.value_in(s1.reg) == r.value_in(s.reg));
    lemma_word_round_trip(s1, below, r.value_in(s.reg));
    assert(pushed.word_at(below) == r.value_in(s.reg));
    lemma_assign_own_value(r, pushed.reg);
    assert(r.assigned(pushed.reg, r.value_in(s.reg)) == pushed.reg);
}

/// A pop takes the word of the last push, from any word register other than SP
/// into any other than SP and AF, and leaves SP where it was before the push.
pub proof fn lemma_pop_takes_pushed_word(s: CpuState, src: WordRegister, dst: WordRegister)
    requires
        s.wf(),
        src != WordRegister::SP,
        dst != WordRegister::SP,
        dst != WordRegister::AF,
    ensures
        dst.value_in(semantics::pop_spec(semantics::push_spec(s, src), dst).reg) == src.value_in(
            s.reg,
        ),
        semantics::pop_spec(semantics::push_spec(s, src), dst).reg.sp == s.reg.sp,
{
    let pushed = semantics::push_spec(s, src);
    let below = wrap16(s.reg.sp - 2);
    let s1 = s.with_sp(below);
    assert(src.value_in(s1.reg) == src.value_in(s.reg));
    lemma_word_round_trip(s1, below, src.value_in(s.reg));
    let v = src.value_in(s.reg);
    assert(pushed.word_at(below) == v);
    let after = dst.assigned(pushed.reg, v);
    assert(dst.value_in(after) == v);
}

/// A call whose condition holds jumps to its operand; the return that follows
/// resumes just after the operand, with SP back where it was and two more cycles.
pub proof fn lemma_call_then_return<S: Source<u16>>(s: CpuState, word: S, cond: Condition)
    requires
        s.wf(),
        cond.holds(s.reg),
        s.cycles_until_done < u32::MAX - 1,
    ensures
        ({
            let called = semantics::call_spec(s, word, cond);
            let returned = semantics::ret_spec(called, Condition::Unconditional);
            &&& called.reg.pc == word.spec_read(s).1
            &&& returned.reg.pc == word.spec_read(s).0.reg.pc
            &&& returned.reg.sp == s.reg.sp
            &&& returned.cycles_until_done == s.cycles_until_done + 2
        }),
{
    word.lemma_read_moves_only_pc(s);
    let (s1, address) = word.spec_read(s);
    let after = s1.reg.pc;
    let below = wrap16(s.reg.sp - 2);
    let s2 = s1.with_sp(below);
    lemma_word_round_trip(s2, below, after);
    let called = semantics::call_spec(s, word, cond);
    assert(called.word_at(below) == after);
    assert(called.reg.sp == below);
}

/// A restart jumps to its address; the return that follows resumes where the
/// restart was, with SP back where it was and two more cycles.
pub proof fn lemma_restart_then_return(s: CpuState, address: u8)
    requires
        s.wf(),
        s.cycles_until_done < u32::MAX - 1,
    ensures
        ({
            let restarted = semantics::restart_spec(s, address);
            let returned = semantics::ret_spec(restarted, Condition::Unconditional);
            &&& restarted.reg.pc == address as u16
            &&& returned.reg.pc == s.reg.pc
            &&& returned.reg.sp == s.reg.sp
            &&& returned.cycles_until_done == s.cycles_until_done + 2
        }),
{
    let below = wrap16(s.reg.sp - 2);
    let s1 = s.with_sp(below);
    lemma_word_round_trip(s1, below, s.reg.pc);
    let restarted = semantics::restart_spec(s, address);
    assert(restarted.word_at(below) == s.reg.pc);
}

/// Complementing A twice gives A back.
pub proof fn lemma_complement_twice(s: CpuState)
    ensures
        semantics::complement_a_spec(semantics::complement_a_spec(s)).reg.a == s.reg.a,
{
}

/// Incrementing a word register and decrementing it again restores every
/// register (AF excepted: its low nibble of F is forced clear) and takes two cycles.
pub proof fn lemma_increment_then_decrement_word(s: CpuState, r: WordRegister)
    requires
        r != WordRegister::AF,
        s.cycles_until_done < u32::MAX - 1,
    ensures
        semantics::decrement_word_spec(semantics::increment_word_spec(s, r), r).reg == s.reg,
        semantics::decrement_word_spec(semantics::increment_word_spec(s, r), r).cycles_until_done
            == s.cycles_until_done + 2,
{
    let v = r.value_in(s.reg);
    let up = r.assigned(s.reg, wrap16(v + 1));
    assert(r.value_in(up) == wrap16(v + 1));
    let down = r.assigned(up, wrap16(wrap16(v + 1) - 1));
    assert(wrap16(wrap16(v + 1) - 1) == v);
    lemma_assign_own_value(r, s.reg);
}

/// Rotating a register left and then right (RLC then RRC) gives its value back,
/// and so does the opposite order.
pub proof fn lemma_rotate_left_then_right(s: CpuState, r: Register)
    ensures
        r.value_in(semantics::rotate_right_spec(semantics::rotate_left_spec(s, r), r).reg)
            == r.value_in(s.reg),
        r.value_in(semantics::rotate_left_spec(semantics::rotate_right_spec(s, r), r).reg)
            == r.value_in(s.reg),
{
    let v = r.value_in(s.reg);
    let left = ((2 * v + v / 128) % 256) as u8;
    if v < 128 {
        assert(left == 2 * v);
    } else {
        assert(left == 2 * v - 255);
    }
    let right = (v / 2 + 128 * (v % 2)) as u8;
    if v % 2 == 0 {
        assert(right == v / 2);
    } else {
        assert(right == v / 2 + 128);
    }
}

/// Bit `i` of `v | (1 << b)`.
proof fn lemma_or_bit(v: u8, b: u8, i: u8)
    by (bit_vector)
    requires
        b < 8,
        i < 8,
    ensures
        (((v | (1u8 << b)) >> i) & 1 == 1) == (i == b || (v >> i) & 1 == 1),
{
}

/// Bit `i` of `v & !(1 << b)`.
proof fn lemma_and_not_bit(v: u8, b: u8, i: u8)
    by (bit_vector)
    requires
        b < 8,
        i < 8,
    ensures
        (((v & !(1u8 << b)) >> i) & 1 == 1) == (i != b && (v >> i) & 1 == 1),
{
}

/// SET sets bit `b` of a register and leaves its other bits as they were.
pub proof fn lemma_set_bit_changes_one_bit(s: CpuState, b: u8, r: Register)
    requires
        b < 8,
    ensures
        forall|i: u8|
            i < 8 ==> #[trigger] semantics::bit_set(
                r.value_in(semantics::set_bit_spec(s, b, r).reg),
                i,
            ) == (i == b || semantics::bit_set(r.value_in(s.reg), i)),
{
    let v = r.value_in(s.reg);
    assert forall|i: u8| i < 8 implies #[trigger] semantics::bit_set(v | (1u8 << b), i) == (i == b
        || semantics::bit_set(v, i)) by {
        lemma_or_bit(v, b, i);
    }
}

/// RES clears bit `b` of a register and leaves its other bits as they were.
pub proof fn lemma_reset_bit_changes_one_bit(s: CpuState, b: u8, r: Register)
    requires
        b < 8,
    ensures
        forall|i: u8|
            i < 8 ==> #[trigger] semantics::bit_set(
                r.value_in(semantics::reset_bit_spec(s, b, r).reg),
                i,
            ) == (i != b && semantics::bit_set(r.value_in(s.reg), i)),
{
    let v = r.value_in(s.reg);
    assert forall|i: u8| i < 8 implies #[trigger] semantics::bit_set(v & !(1u8 << b), i) == (i != b
        && semantics::bit_set(v, i)) by {
        lemma_and_not_bit(v, b, i);
    }
}

/// BIT `b` right after SET `b` on the same register clears Z; right after RES `b`
/// it sets Z.
pub proof fn lemma_test_after_set_or_reset(s: CpuState, b: u8, r: Register)
    requires
        b < 8,
    ensures
        !semantics::test_bit_spec(semantics::set_bit_spec(s, b, r), b, r).flag_set().zero,
        semantics::test_bit_spec(semantics::reset_bit_spec(s, b, r), b, r).flag_set().zero,
{
    lemma_set_bit_changes_one_bit(s, b, r);
    lemma_reset_bit_changes_one_bit(s, b, r);
    let set = semantics::set_bit_spec(s, b, r);
    let reset = semantics::reset_bit_spec(s, b, r);
    assert(semantics::bit_set(r.value_in(set.reg), b));
    assert(!semantics::bit_set(r.value_in(reset.reg), b));
    lemma_flag_byte_round_trip(
        FlagSet {
            zero: !semantics::bit_set(r.value_in(set.reg), b),
            subtract: false,
            half_carry: true,
            carry: set.flag_set().carry,
        },
    );
    lemma_flag_byte_round_trip(
        FlagSet {
            zero: !semantics::bit_set(r.value_in(reset.reg), b),
            subtract: false,
            half_carry: true,
            carry: reset.flag_set().carry,
        },
    );
}

/// XOR A with itself clears A and sets Z.
pub proof fn lemma_xor_self_clears_a(s: CpuState)
    ensures
        semantics::xor_spec(s, Register::A).reg.a == 0,
        semantics::xor_spec(s, Register::A).flag_set().zero,
{
    let a = s.reg.a;
    assert(a ^ a == 0) by (bit_vector);
    lemma_flag_byte_round_trip(semantics::zero_only(0));
}

/// LD from a register to a register copies the value and leaves the source as it was.
pub proof fn lemma_load_copies(s: CpuState, target: Register, source: Register)
    ensures
        target.value_in(semantics::load_spec(s, target, source).reg) == source.value_in(s.reg),
        source != target ==> source.value_in(semantics::load_spec(s, target, source).reg)
            == source.value_in(s.reg),
{
}

/// LDI (HL), A stores A where HL pointed and moves HL one byte up; LDD moves it
/// one byte down. Neither changes the cycle count.
pub proof fn lemma_load_and_step_hl(s: CpuState)
    requires
        s.wf(),
    ensures
        ({
            let up = semantics::load_and_increment_hl_spec(s, Indirect::HL, Register::A);
            let down = semantics::load_and_decrement_hl_spec(s, Indirect::HL, Register::A);
            &&& up.byte_at(s.reg.spec_hl()) == s.reg.a
            &&& up.reg.spec_hl() == wrap16(s.reg.spec_hl() + 1)
            &&& up.cycles_until_done == s.cycles_until_done
            &&& down.byte_at(s.reg.spec_hl()) == s.reg.a
            &&& down.reg.spec_hl() == wrap16(s.reg.spec_hl() - 1)
            &&& down.cycles_until_done == s.cycles_until_done
        }),
{
}

/// SWAP done twice on a register gives its value back.
pub proof fn lemma_swap_twice(s: CpuState, r: Register)
    ensures
        r.value_in(semantics::swap_spec(semantics::swap_spec(s, r), r).reg) == r.value_in(s.reg),
{
    let v = r.value_in(s.reg);
    let once = (16 * (v % 16) + v / 16) as u8;
    assert(once % 16 == v / 16 && once / 16 == v % 16);
}

/// SUB and CP with the same operand set the same flags; CP leaves A alone.
pub proof fn lemma_compare_flags_are_subtract_flags(s: CpuState, r: Register)
    ensures
        semantics::compare_spec(s, r).reg.f == semantics::subtract_spec(s, r).reg.f,
        semantics::compare_spec(s, r).reg.a == s.reg.a,
{
    let a = s.reg.a;
    let v = r.value_in(s.reg);
    assert((wrap8(a - v) == 0) == (a == v));
}

/// RETI returns exactly as an unconditional RET does and enables interrupts.
pub proof fn lemma_return_and_enable_interrupts(s: CpuState)
    ensures
        semantics::return_and_enable_interrupts_spec(s).reg == semantics::ret_spec(
            s,
            Condition::Unconditional,
        ).reg,
        semantics::return_and_enable_interrupts_spec(s).memory == s.memory,
        semantics::return_and_enable_interrupts_spec(s).ime,
{
}

/// No set of flags puts a bit in the low nibble of F.
proof fn lemma_flag_bytes_clean()
    ensures
        forall|fs: FlagSet| (#[trigger] fs.to_byte()) & 0x0F == 0,
{
    assert forall|fs: FlagSet| (#[trigger] fs.to_byte()) & 0x0F == 0 by {
        lemma_flag_byte_round_trip(fs);
    }
}

/// The instructions on A and a byte operand keep the low nibble of F clear.
pub proof fn lemma_accumulator_ops_keep_f_clean<S: Source<u8>>(s: CpuState, byte: S)
    requires
        s.flags_clean(),
    ensures
        semantics::add_with_carry_spec(s, byte).flags_clean(),
        semantics::add_byte_spec(s, byte).flags_clean(),
        semantics::and_spec(s, byte).flags_clean(),
        semantics::compare_spec(s, byte).flags_clean(),
        semantics::or_spec(s, byte).flags_clean(),
        semantics::subtract_with_carry_spec(s, byte).flags_clean(),
        semantics::subtract_spec(s, byte).flags_clean(),
        semantics::xor_spec(s, byte).flags_clean(),
        forall|b: u8| #[trigger] semantics::test_bit_spec(s, b, byte).flags_clean(),
{
    lemma_flag_bytes_clean();
}

/// The read-modify-write instructions on a byte operand keep the low nibble of F clear.
pub proof fn lemma_byte_updates_keep_f_clean<S: Source<u8> + Target<u8>>(s: CpuState, data: S)
    requires
        s.flags_clean(),
    ensures
        semantics::decrement_byte_spec(s, data).flags_clean(),
        semantics::increment_byte_spec(s, data).flags_clean(),
        semantics::rotate_left_through_carry_spec(s, data).flags_clean(),
        semantics::rotate_right_through_carry_spec(s, data).flags_clean(),
        semantics::rotate_left_spec(s, data).flags_clean(),
        semantics::rotate_right_spec(s, data).flags_clean(),
        semantics::shift_left_spec(s, data).flags_clean(),
        semantics::shift_right_keep_msb_spec(s, data).flags_clean(),
        semantics::shift_right_spec(s, data).flags_clean(),
        semantics::swap_spec(s, data).flags_clean(),
        forall|b: u8| #[trigger] semantics::set_bit_spec(s, b, data).flags_clean(),
        forall|b: u8| #[trigger] semantics::reset_bit_spec(s, b, data).flags_clean(),
{
    lemma_flag_bytes_clean();
    data.lemma_read_moves_only_pc(s);
    let s1 = data.spec_read(s).0;
    assert forall|v: u8| #[trigger] data.spec_write(s1, v).flags_clean() by {
        data.lemma_write_keeps_control(s1, v);
    }
    let v = data.spec_read(s).1;
    assert forall|b: u8| #[trigger] semantics::set_bit_spec(s, b, data).flags_clean() by {
        assert(data.spec_write(s1, v | (1u8 << b)).flags_clean());
    }
    assert forall|b: u8| #[trigger] semantics::reset_bit_spec(s, b, data).flags_clean() by {
        assert(data.spec_write(s1, v & !(1u8 << b)).flags_clean());
    }
}

/// The instructions on word operands, and the stack instructions, keep the low
/// nibble of F clear.
pub proof fn lemma_word_ops_keep_f_clean<W: Source<u16> + Target<u16>, S: Source<u16>>(
    s: CpuState,
    target: W,
    source: S,
)
    requires
        s.flags_clean(),
    ensures
        semantics::add_word_spec(s, target, source).flags_clean(),
        semantics::increment_word_spec(s, target).flags_clean(),
        semantics::decrement_word_spec(s, target).flags_clean(),
        semantics::push_spec(s, source).flags_clean(),
        semantics::pop_spec(s, target).flags_clean(),
{
    lemma_flag_bytes_clean();
    target.lemma_read_moves_only_pc(s);
    let t1 = target.spec_read(s).0;
    target.lemma_write_keeps_control(t1, wrap16(target.spec_read(s).1 + 1));
    target.lemma_write_keeps_control(t1, wrap16(target.spec_read(s).1 - 1));
    target.lemma_write_keeps_control(s, s.word_at(s.reg.sp));
    source.lemma_read_moves_only_pc(s.with_sp(wrap16(s.reg.sp - 2)));
}

/// The loads keep the low nibble of F clear.
pub proof fn lemma_loads_keep_f_clean<T, U: Target<T>, V: Source<T>>(
    s: CpuState,
    target: U,
    source: V,
)
    requires
        s.flags_clean(),
    ensures
        semantics::load_spec(s, target, source).flags_clean(),
        semantics::load_and_increment_hl_spec(s, target, source).flags_clean(),
        semantics::load_and_decrement_hl_spec(s, target, source).flags_clean(),
{
    source.lemma_read_moves_only_pc(s);
    let (s1, v) = source.spec_read(s);
    target.lemma_write_keeps_control(s1, v);
}

/// The jumps, calls, returns, restarts and the instructions without operands
/// keep the low nibble of F clear.
pub proof fn lemma_control_keeps_f_clean<S: Source<u16>>(
    s: CpuState,
    word: S,
    cond: Condition,
    address: u8,
)
    requires
        s.flags_clean(),
    ensures
        semantics::call_spec(s, word, cond).flags_clean(),
        semantics::jump_spec(s, word, cond).flags_clean(),
        semantics::jump_relative_spec(s, cond).flags_clean(),
        semantics::ret_spec(s, cond).flags_clean(),
        semantics::return_and_enable_interrupts_spec(s).flags_clean(),
        semantics::restart_spec(s, address).flags_clean(),
        semantics::complement_a_spec(s).flags_clean(),
        semantics::set_carry_flag_spec(s).flags_clean(),
        semantics::disable_interrupts_spec(s).flags_clean(),
        semantics::enable_interrupts_spec(s).flags_clean(),
        semantics::halt_spec(s).flags_clean(),
        semantics::no_operation_spec(s).flags_clean(),
{
    lemma_flag_bytes_clean();
    word.lemma_read_moves_only_pc(s);
    let s1 = word.spec_read(s).0;
    WordRegister::PC.lemma_read_moves_only_pc(s1.with_sp(wrap16(s1.reg.sp - 2)));
}

} // verus!
