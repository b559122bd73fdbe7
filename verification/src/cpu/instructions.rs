use vstd::prelude::*;

use crate::cpu::flags::Flags;
use crate::cpu::operands::{Indirect, Operand, Source, Target, WordRegister};
use crate::cpu::registers::{Registers, wrap16};
use crate::cpu::semantics;
use crate::cpu::text::{i8_to_decimal, u8_to_decimal, u8_to_hex};
use crate::cpu::{CPUMode, CPU};
use vstd::std_specs::bits::{axiom_u8_trailing_zeros, u8_trailing_zeros};

verus! {

/// The condition under which a jump, call or return is taken.
#[derive(Clone, Copy, Debug, PartialEq, Eq, Structural)]
pub enum Condition {
    Unconditional,
    Zero(bool),
    Carry(bool),
}

impl Condition {
    /// The condition holds for the flags in `reg`.
    pub open spec fn holds(self, reg: Registers) -> bool {
        match self {
            Condition::Unconditional => true,
            Condition::Zero(flag) => reg.flag_set().zero == flag,
            Condition::Carry(flag) => reg.flag_set().carry == flag,
        }
    }

    /// The condition as it is written after the mnemonic.
    pub open spec fn spec_text(self) -> Seq<char> {
        match self {
            Condition::Unconditional => ""@,
            Condition::Zero(flag) => if flag {
                "Z"@
            } else {
                "NZ"@
            },
            Condition::Carry(flag) => if flag {
                "C"@
            } else {
                "NC"@
            },
        }
    }

    pub fn is_satisfied(&self, cpu: &CPU) -> (r: bool)
        ensures
            r == self.holds(cpu.reg),
    {
        match self {
            Condition::Unconditional => true,
            Condition::Zero(flag) => cpu.reg.z_flag() == *flag,
            Condition::Carry(flag) => cpu.reg.c_flag() == *flag,
        }
    }

    /// The condition as it is written after the mnemonic: empty, `Z`, `NZ`, `C` or `NC`.
    pub fn text(&self) -> (s: String)
        ensures
            s@ == self.spec_text(),
    {
        let text = match self {
            Condition::Unconditional => "",
            Condition::Zero(flag) => {
                if *flag {
                    "Z"
                } else {
                    "NZ"
                }
            },
            Condition::Carry(flag) => {
                if *flag {
                    "C"
                } else {
                    "NC"
                }
            },
        };
        String::from_str(text)
    }
}

/// `prefix` followed by `operand`.
fn prefixed(prefix: &str, operand: String) -> (s: String)
    ensures
        s@ == prefix@ + operand@,
{
    let mut s = String::from_str(prefix);
    s.append(operand.as_str());
    s
}

/// `prefix`, `first`, a comma and a space, and `second`.
fn prefixed_pair(prefix: &str, first: String, second: String) -> (s: String)
    ensures
        s@ == prefix@ + first@ + ", "@ + second@,
{
    let mut s = prefixed(prefix, first);
    s.append(", ");
    s.append(second.as_str());
    s
}

/// `prefix`, the condition, a space, and `operand`.
fn conditional(prefix: &str, cond: &Condition, operand: String) -> (s: String)
    ensures
        s@ == prefix@ + cond.spec_text() + " "@ + operand@,
{
    let mut s = prefixed(prefix, cond.text());
    s.append(" ");
    s.append(operand.as_str());
    s
}

/// The low nibble of `x`.
fn low_nibble(x: u8) -> (n: u8)
    ensures
        n == x % 16,
{
    assert(x & 0x0F == x % 16) by (bit_vector);
    x & 0x0F
}

/// The low twelve bits of `x`.
fn low_twelve_bits(x: u16) -> (n: u16)
    ensures
        n == x % 4096,
{
    assert(x & 0x0FFF == x % 4096) by (bit_vector);
    x & 0x0FFF
}

impl CPU {
    /// ADC
    pub fn add_with_carry(&mut self, byte: impl Source<u8>)
        ensures
            final(self)@ == semantics::add_with_carry_spec(old(self)@, byte),
    {
        let instr = prefixed("ADC ", byte.text());
        let v = byte.read(self);
        let carry: u8 = if self.reg.c_flag() {
            1
        } else {
            0
        };
        let half_carry = low_nibble(self.reg.a) + low_nibble(v) + carry > 0x0F;
        let (mut sum, mut overflow) = self.reg.a.overflowing_add(v);
        if self.reg.c_flag() {
            let (sum_2, overflow_2) = sum.overflowing_add(1);
            sum = sum_2;
            overflow = overflow || overflow_2;
        }
        self.reg.a = sum;

        let mut flags = if self.reg.a == 0 {
            Flags::zero()
        } else {
            Flags::empty()
        };
        flags.set(Flags::half_carry(), half_carry);
        if overflow {
            flags.insert(Flags::carry());
        }
        self.reg.set_flags(flags);
        self.curr_instr = instr;
    }

    /// ADD
    pub fn add_byte(&mut self, byte: impl Source<u8>)
        ensures
            final(self)@ == semantics::add_byte_spec(old(self)@, byte),
    {
        let instr = prefixed("ADD ", byte.text());
        let v = byte.read(self);
        let half_carry = low_nibble(self.reg.a) + low_nibble(v) > 0x0F;
        let (sum, overflow) = self.reg.a.overflowing_add(v);
        self.reg.a = sum;

        let mut flags = if self.reg.a == 0 {
            Flags::zero()
        } else {
            Flags::empty()
        };
        flags.set(Flags::half_carry(), half_carry);
        if overflow {
            flags.insert(Flags::carry());
        }
        self.reg.set_flags(flags);
        self.curr_instr = instr;
    }

    /// ADD
    pub fn add_word(&mut self, target: impl Source<u16> + Target<u16>, source: impl Source<u16>)
        ensures
            final(self)@ == semantics::add_word_spec(old(self)@, target, source),
    {
        let instr = prefixed_pair("ADD ", target.text(), source.text());
        let sv = source.read(self);
        let tv = target.read(self);
        let half_carry = low_twelve_bits(sv) + low_twelve_bits(tv) > 0x0FFF;
        let (sum, overflow) = sv.overflowing_add(tv);
        target.write(self, sum);

        let mut flags = self.reg.flags();
        flags.remove(Flags::subtract());
        flags.set(Flags::half_carry(), half_carry);
        flags.set(Flags::carry(), overflow);
        self.reg.set_flags(flags);
        self.curr_instr = instr;
    }

    /// AND
    pub fn and(&mut self, byte: impl Source<u8>)
        ensures
            final(self)@ == semantics::and_spec(old(self)@, byte),
    {
        let instr = prefixed("AND ", byte.text());
        let v = byte.read(self);
        self.reg.a &= v;

        let flags = if self.reg.a == 0 {
            Flags::zero().union(Flags::half_carry())
        } else {
            Flags::half_carry()
        };
        self.reg.set_flags(flags);
        self.curr_instr = instr;
    }

    /// BIT
    pub fn test_bit(&mut self, target_bit: u8, data: impl Source<u8>)
        requires
            target_bit < 8,
        ensures
            final(self)@ == semantics::test_bit_spec(old(self)@, target_bit, data),
    {
        let instr = prefixed_pair("BIT ", u8_to_decimal(target_bit), data.text());
        let byte = data.read(self);

        let mask = 1u8 << target_bit;
        assert(((byte & mask) == 0) == !semantics::bit_set(byte, target_bit)) by (bit_vector)
            requires
                mask == 1u8 << target_bit,
                target_bit < 8,
        ;

        let mut flags = self.reg.flags();
        flags.set(Flags::zero(), (byte & mask) == 0);
        flags.remove(Flags::subtract());
        flags.insert(Flags::half_carry());
        self.reg.set_flags(flags);
        self.curr_instr = instr;
    }

    /// CP
    pub fn compare(&mut self, byte: impl Source<u8>)
        ensures
            final(self)@ == semantics::compare_spec(old(self)@, byte),
    {
        let instr = prefixed("CP ", byte.text());
        let data = byte.read(self);

        let mut flags = self.reg.flags();
        flags.set(Flags::zero(), self.reg.a == data);
        flags.insert(Flags::subtract());
        flags.set(Flags::half_carry(), low_nibble(self.reg.a) < low_nibble(data));
        flags.set(Flags::carry(), self.reg.a < data);
        self.reg.set_flags(flags);
        self.curr_instr = instr;
    }

    /// CPLA
    pub fn complement_a(&mut self)
        ensures
            final(self)@ == semantics::complement_a_spec(old(self)@),
    {
        let a = self.reg.a;
        self.reg.a = !a;
        assert(!a == 255 - a) by (bit_vector);

        let mut flags = self.reg.flags();
        flags.insert(Flags::subtract());
        flags.insert(Flags::half_carry());
        self.reg.set_flags(flags);
        self.curr_instr = String::from_str("CPLA");
    }

    /// DEC
    pub fn decrement_byte(&mut self, data: impl Source<u8> + Target<u8>)
        ensures
            final(self)@ == semantics::decrement_byte_spec(old(self)@, data),
    {
        let instr = prefixed("DEC ", data.text());
        let result = data.read(self).wrapping_sub(1);
        data.write(self, result);
        assert(((result & 0x0F) == 0x0F) == (result % 16 == 15)) by (bit_vector);

        let mut flags = self.reg.flags();
        flags.set(Flags::zero(), result == 0);
        flags.insert(Flags::subtract());
        flags.set(Flags::half_carry(), (result & 0x0F) == 0x0F);
        self.reg.set_flags(flags);
        self.curr_instr = instr;
    }

    /// DI
    pub fn disable_interrupts(&mut self)
        ensures
            final(self)@ == semantics::disable_interrupts_spec(old(self)@),
    {
        self.curr_instr = String::from_str("DI");
        self.ime = false;
    }

    /// EI
    pub fn enable_interrupts(&mut self)
        ensures
            final(self)@ == semantics::enable_interrupts_spec(old(self)@),
    {
        self.curr_instr = String::from_str("EI");
        self.ime = true;
    }

    /// HALT
    pub fn halt(&mut self)
        ensures
            final(self)@ == semantics::halt_spec(old(self)@),
    {
        self.mode = CPUMode::Halt;
    }

    /// INC
    pub fn increment_byte(&mut self, data: impl Source<u8> + Target<u8>)
        ensures
            final(self)@ == semantics::increment_byte_spec(old(self)@, data),
    {
        let instr = prefixed("INC ", data.text());
        let result = data.read(self).wrapping_add(1);
        data.write(self, result);
        proof {
            lemma_trailing_zeros_low_nibble(result);
        }

        let mut flags = self.reg.flags();
        flags.set(Flags::zero(), result == 0);
        flags.remove(Flags::subtract());
        flags.set(Flags::half_carry(), result.trailing_zeros() >= 4);
        self.reg.set_flags(flags);
        self.curr_instr = instr;
    }

    /// NOP
    pub fn no_operation(&mut self)
        ensures
            final(self)@ == semantics::no_operation_spec(old(self)@),
    {
        self.curr_instr = String::from_str("NOP");
    }

    /// OR
    pub fn or(&mut self, byte: impl Source<u8>)
        ensures
            final(self)@ == semantics::or_spec(old(self)@, byte),
    {
        let instr = prefixed("OR ", byte.text());
        let v = byte.read(self);
        self.reg.a |= v;

        let flags = if self.reg.a == 0 {
            Flags::zero()
        } else {
            Flags::empty()
        };
        self.reg.set_flags(flags);
        self.curr_instr = instr;
    }

    /// SBC
    pub fn subtract_with_carry(&mut self, byte: impl Source<u8>)
        ensures
            final(self)@ == semantics::subtract_with_carry_spec(old(self)@, byte),
    {
        let instr = prefixed("SBC ", byte.text());
        let v = byte.read(self);
        let carry: u8 = if self.reg.c_flag() {
            1
        } else {
            0
        };
        let half_carry = low_nibble(self.reg.a) < low_nibble(v) + carry;
        let (mut difference, mut overflow) = self.reg.a.overflowing_sub(v);
        if self.reg.c_flag() {
            let (difference_2, overflow_2) = difference.overflowing_sub(1);
            difference = difference_2;
            overflow = overflow || overflow_2;
        }
        self.reg.a = difference;

        let mut flags = if self.reg.a == 0 {
            Flags::zero().union(Flags::subtract())
        } else {
            Flags::subtract()
        };
        flags.set(Flags::half_carry(), half_carry);
        if overflow {
            flags.insert(Flags::carry());
        }
        self.reg.set_flags(flags);
        self.curr_instr = instr;
    }

    /// SCF
    pub fn set_carry_flag(&mut self)
        ensures
            final(self)@ == semantics::set_carry_flag_spec(old(self)@),
    {
        let mut flags = self.reg.flags();
        flags.insert(Flags::carry());
        flags.remove(Flags::half_carry());
        flags.remove(Flags::subtract());
        self.reg.set_flags(flags);
        self.curr_instr = String::from_str("SCF");
    }

    /// SUB
    pub fn subtract(&mut self, byte: impl Source<u8>)
        ensures
            final(self)@ == semantics::subtract_spec(old(self)@, byte),
    {
        let instr = prefixed("SUB ", byte.text());
        let v = byte.read(self);
        let half_carry = low_nibble(self.reg.a) < low_nibble(v);
        let (difference, overflow) = self.reg.a.overflowing_sub(v);
        self.reg.a = difference;

        let mut flags = if self.reg.a == 0 {
            Flags::zero().union(Flags::subtract())
        } else {
            Flags::subtract()
        };
        flags.set(Flags::half_carry(), half_carry);
        if overflow {
            flags.insert(Flags::carry());
        }
        self.reg.set_flags(flags);
        self.curr_instr = instr;
    }

    /// XOR
    pub fn xor(&mut self, byte: impl Source<u8>)
        ensures
            final(self)@ == semantics::xor_spec(old(self)@, byte),
    {
        let instr = prefixed("XOR ", byte.text());
        let v = byte.read(self);
        self.reg.a ^= v;

        let flags = if self.reg.a == 0 {
            Flags::zero()
        } else {
            Flags::empty()
        };
        self.reg.set_flags(flags);
        self.curr_instr = instr;
    }

    /// DEC
    pub fn decrement_word(&mut self, data: impl Source<u16> + Target<u16>)
        requires
            old(self).cycles_until_done < u32::MAX,
        ensures
            final(self)@ == semantics::decrement_word_spec(old(self)@, data),
    {
        let instr = prefixed("DEC ", data.text());
        proof {
            data.lemma_read_moves_only_pc(self@);
            data.lemma_write_keeps_control(data.spec_read(self@).0, wrap16(data.spec_read(self@).1 - 1));
        }
        let result = data.read(self).wrapping_sub(1);
        data.write(self, result);

        self.cycles_until_done += 1;
        self.curr_instr = instr;
    }

    /// INC
    pub fn increment_word(&mut self, data: impl Source<u16> + Target<u16>)
        requires
            old(self).cycles_until_done < u32::MAX,
        ensures
            final(self)@ == semantics::increment_word_spec(old(self)@, data),
    {
        let instr = prefixed("INC ", data.text());
        proof {
            data.lemma_read_moves_only_pc(self@);
            data.lemma_write_keeps_control(data.spec_read(self@).0, wrap16(data.spec_read(self@).1 + 1));
        }
        let result = data.read(self).wrapping_add(1);
        data.write(self, result);

        self.cycles_until_done += 1;
        self.curr_instr = instr;
    }

    /// JP
    pub fn jump(&mut self, word: impl Source<u16>, cond: Condition)
        requires
            cond.holds(old(self).reg) ==> old(self).cycles_until_done < u32::MAX,
        ensures
            final(self)@ == semantics::jump_spec(old(self)@, word, cond),
    {
        let instr = conditional("JP", &cond, word.text());
        proof {
            word.lemma_read_moves_only_pc(self@);
        }
        let address = word.read(self);

        if cond.is_satisfied(self) {
            self.cycles_until_done += 1;
            self.reg.pc = address;
        }
        self.curr_instr = instr;
    }

    /// JR
    pub fn jump_relative(&mut self, cond: Condition)
        requires
            cond.holds(old(self).reg) ==> old(self).cycles_until_done < u32::MAX,
        ensures
            final(self)@ == semantics::jump_relative_spec(old(self)@, cond),
    {
        let mut instr = conditional("JR", &cond, String::new());

        let immediate: u8 = self.immediate_byte();
        let offset = immediate as i8;
        assert(offset as int == semantics::signed(immediate)) by (bit_vector)
            requires
                offset == immediate as i8,
        ;
        let digits = i8_to_decimal(offset);
        instr.append(digits.as_str());

        if cond.is_satisfied(self) {
            self.cycles_until_done += 1;
            let target = self.reg.pc as i32 + offset as i32;
            assert(target as u16 == (if target < 0 {
                target + 65536
            } else if target >= 65536 {
                target - 65536
            } else {
                target as int
            })) by (bit_vector)
                requires
                    -128 <= target < 65536 + 128,
            ;
            self.reg.pc = target as u16;
        }
        self.curr_instr = instr;
    }

    /// LD
    pub fn load<T, U: Target<T>, V: Source<T>>(&mut self, target: U, source: V)
        ensures
            final(self)@ == semantics::load_spec(old(self)@, target, source),
    {
        let instr = prefixed_pair("LD ", target.text(), source.text());
        let data = source.read(self);
        target.write(self, data);
        self.curr_instr = instr;
    }

    /// LDD
    pub fn load_and_decrement_hl<T>(&mut self, target: impl Target<T>, source: impl Source<T>)
        requires
            old(self).cycles_until_done < u32::MAX,
        ensures
            final(self)@ == semantics::load_and_decrement_hl_spec(old(self)@, target, source),
    {
        let instr = prefixed_pair("LDD ", target.text(), source.text());
        proof {
            source.lemma_read_moves_only_pc(self@);
            let (s1, v) = source.spec_read(self@);
            target.lemma_write_keeps_control(s1, v);
        }
        self.load(target, source);
        self.decrement_word(WordRegister::HL);

        self.cycles_until_done -= 1;
        self.curr_instr = instr;
    }

    /// LDI
    pub fn load_and_increment_hl<T>(&mut self, target: impl Target<T>, source: impl Source<T>)
        requires
            old(self).cycles_until_done < u32::MAX,
        ensures
            final(self)@ == semantics::load_and_increment_hl_spec(old(self)@, target, source),
    {
        let instr = prefixed_pair("LDI ", target.text(), source.text());
        proof {
            source.lemma_read_moves_only_pc(self@);
            let (s1, v) = source.spec_read(self@);
            target.lemma_write_keeps_control(s1, v);
        }
        self.load(target, source);
        self.increment_word(WordRegister::HL);

        self.cycles_until_done -= 1;
        self.curr_instr = instr;
    }

    /// POP
    pub fn pop(&mut self, target: impl Target<u16>)
        ensures
            final(self)@ == semantics::pop_spec(old(self)@, target),
    {
        let instr = prefixed("POP ", target.text());
        self.load(target, Indirect::SP);
        self.reg.sp = self.reg.sp.wrapping_add(2);
        self.curr_instr = instr;
    }

    /// PUSH
    pub fn push(&mut self, source: impl Source<u16>)
        ensures
            final(self)@ == semantics::push_spec(old(self)@, source),
    {
        let instr = prefixed("PUSH ", source.text());
        self.reg.sp = self.reg.sp.wrapping_sub(2);
        self.load(Indirect::SP, source);
        self.curr_instr = instr;
    }

    /// CALL
    pub fn call(&mut self, word: impl Source<u16>, cond: Condition)
        requires
            cond.holds(old(self).reg) ==> old(self).cycles_until_done < u32::MAX,
        ensures
            final(self)@ == semantics::call_spec(old(self)@, word, cond),
    {
        let instr = conditional("CALL", &cond, word.text());
        proof {
            word.lemma_read_moves_only_pc(self@);
        }
        let address = word.read(self);

        if cond.is_satisfied(self) {
            self.push(WordRegister::PC);
            self.cycles_until_done += 1;
            self.reg.pc = address;
        }
        self.curr_instr = instr;
    }

    /// RET
    pub fn ret(&mut self, cond: Condition)
        requires
            cond.holds(old(self).reg) ==> old(self).cycles_until_done < u32::MAX,
        ensures
            final(self)@ == semantics::ret_spec(old(self)@, cond),
    {
        let instr = prefixed("RET", cond.text());
        if cond.is_satisfied(self) {
            self.pop(WordRegister::PC);
            self.cycles_until_done += 1;
        }
        self.curr_instr = instr;
    }

    /// RETI
    pub fn return_and_enable_interrupts(&mut self)
        requires
            old(self).cycles_until_done < u32::MAX,
        ensures
            final(self)@ == semantics::return_and_enable_interrupts_spec(old(self)@),
    {
        self.ret(Condition::Unconditional);
        self.enable_interrupts();
        self.curr_instr = String::from_str("RETI");
    }

    /// RST
    pub fn restart(&mut self, address: u8)
        requires
            old(self).cycles_until_done < u32::MAX,
        ensures
            final(self)@ == semantics::restart_spec(old(self)@, address),
    {
        let instr = prefixed("RST ", u8_to_hex(address));
        self.push(WordRegister::PC);
        self.cycles_until_done += 1;
        self.reg.pc = u16::from(address);
        self.curr_instr = instr;
    }

    /// RES
    pub fn reset_bit(&mut self, target_bit: u8, data: impl Source<u8> + Target<u8>)
        requires
            target_bit < 8,
        ensures
            final(self)@ == semantics::reset_bit_spec(old(self)@, target_bit, data),
    {
        let instr = prefixed_pair("RES ", u8_to_decimal(target_bit), data.text());
        let byte = data.read(self);
        let mask = !(1u8 << target_bit);
        data.write(self, byte & mask);
        self.curr_instr = instr;
    }

    /// RL
    pub fn rotate_left_through_carry(&mut self, data: impl Source<u8> + Target<u8>)
        ensures
            final(self)@ == semantics::rotate_left_through_carry_spec(old(self)@, data),
    {
        let instr = prefixed("RL ", data.text());
        let v = data.read(self);
        let carry_out = (v & 0b1000_0000) != 0;
        let mut byte = v << 1u32;
        let carry = self.reg.c_flag();
        if carry {
            byte |= 0b0000_0001;
        }
        assert(carry_out == (v >= 128) && byte as int == (2 * v + (if carry {
            1int
        } else {
            0
        })) % 256) by (bit_vector)
            requires
                carry_out == ((v & 0b1000_0000) != 0),
                byte == (if carry {
                    (v << 1u32) | 1
                } else {
                    v << 1u32
                }),
        ;
        data.write(self, byte);

        let mut flags = if byte == 0 {
            Flags::zero()
        } else {
            Flags::empty()
        };
        flags.set(Flags::carry(), carry_out);
        self.reg.set_flags(flags);
        self.curr_instr = instr;
    }

    /// RR
    pub fn rotate_right_through_carry(&mut self, data: impl Source<u8> + Target<u8>)
        ensures
            final(self)@ == semantics::rotate_right_through_carry_spec(old(self)@, data),
    {
        let instr = prefixed("RR ", data.text());
        let v = data.read(self);
        let carry_out = (v & 0b0000_0001) != 0;
        let mut byte = v >> 1u32;
        let carry = self.reg.c_flag();
        if carry {
            byte |= 0b1000_0000;
        }
        assert(carry_out == (v % 2 == 1) && byte as int == v / 2 + 128 * (if carry {
            1int
        } else {
            0
        })) by (bit_vector)
            requires
                carry_out == ((v & 0b0000_0001) != 0),
                byte == (if carry {
                    (v >> 1u32) | 0x80
                } else {
                    v >> 1u32
                }),
        ;
        data.write(self, byte);

        let mut flags = if byte == 0 {
            Flags::zero()
        } else {
            Flags::empty()
        };
        flags.set(Flags::carry(), carry_out);
        self.reg.set_flags(flags);
        self.curr_instr = instr;
    }

    /// RLC
    pub fn rotate_left(&mut self, data: impl Source<u8> + Target<u8>)
        ensures
            final(self)@ == semantics::rotate_left_spec(old(self)@, data),
    {
        let instr = prefixed("RLC ", data.text());
        let v = data.read(self);
        let byte = v.rotate_left(1);
        assert(byte as int == (2 * v + v / 128) % 256 && ((byte & 0b0000_0001) != 0) == (v >= 128))
            by (bit_vector)
            requires
                byte == (v << 1u32) | (v >> 7u32),
        ;
        data.write(self, byte);

        let mut flags = if byte == 0 {
            Flags::zero()
        } else {
            Flags::empty()
        };
        flags.set(Flags::carry(), (byte & 0b0000_0001) != 0);
        self.reg.set_flags(flags);
        self.curr_instr = instr;
    }

    /// RRC
    pub fn rotate_right(&mut self, data: impl Source<u8> + Target<u8>)
        ensures
            final(self)@ == semantics::rotate_right_spec(old(self)@, data),
    {
        let instr = prefixed("RRC ", data.text());
        let v = data.read(self);
        let byte = v.rotate_right(1);
        assert(byte as int == v / 2 + 128 * (v % 2) && ((byte & 0b1000_0000) != 0) == (v % 2 == 1))
            by (bit_vector)
            requires
                byte == (v >> 1u32) | (v << 7u32),
        ;
        data.write(self, byte);

        let mut flags = if byte == 0 {
            Flags::zero()
        } else {
            Flags::empty()
        };
        flags.set(Flags::carry(), (byte & 0b1000_0000) != 0);
        self.reg.set_flags(flags);
        self.curr_instr = instr;
    }

    /// SET
    pub fn set_bit(&mut self, target_bit: u8, data: impl Source<u8> + Target<u8>)
        requires
            target_bit < 8,
        ensures
            final(self)@ == semantics::set_bit_spec(old(self)@, target_bit, data),
    {
        let instr = prefixed_pair("SET ", u8_to_decimal(target_bit), data.text());
        let byte = data.read(self);
        let mask = 1u8 << target_bit;
        data.write(self, byte | mask);
        self.curr_instr = instr;
    }

    /// SLA
    pub fn shift_left(&mut self, data: impl Source<u8> + Target<u8>)
        ensures
            final(self)@ == semantics::shift_left_spec(old(self)@, data),
    {
        let instr = prefixed("SLA ", data.text());
        let v = data.read(self);
        let carry_out = (v & 0b1000_0000) != 0;
        let byte = v << 1u32;
        assert(carry_out == (v >= 128) && byte as int == (2 * v) % 256) by (bit_vector)
            requires
                carry_out == ((v & 0b1000_0000) != 0),
                byte == v << 1u32,
        ;
        data.write(self, byte);

        let mut flags = if byte == 0 {
            Flags::zero()
        } else {
            Flags::empty()
        };
        flags.set(Flags::carry(), carry_out);
        self.reg.set_flags(flags);
        self.curr_instr = instr;
    }

    /// SRA
    pub fn shift_right_keep_msb(&mut self, data: impl Source<u8> + Target<u8>)
        ensures
            final(self)@ == semantics::shift_right_keep_msb_spec(old(self)@, data),
    {
        let instr = prefixed("SRA ", data.text());
        let v = data.read(self);
        let carry_out = (v & 0b0000_0001) != 0;
        let shifted = v >> 1u32;
        let byte = shifted | ((shifted & 0b0100_0000) << 1u32);
        assert(carry_out == (v % 2 == 1) && byte as int == v / 2 + 128 * (v / 128))
            by (bit_vector)
            requires
                carry_out == ((v & 0b0000_0001) != 0),
                shifted == v >> 1u32,
                byte == shifted | ((shifted & 0b0100_0000) << 1u32),
        ;
        data.write(self, byte);

        let mut flags = if byte == 0 {
            Flags::zero()
        } else {
            Flags::empty()
        };
        flags.set(Flags::carry(), carry_out);
        self.reg.set_flags(flags);
        self.curr_instr = instr;
    }

    /// SRL
    pub fn shift_right(&mut self, data: impl Source<u8> + Target<u8>)
        ensures
            final(self)@ == semantics::shift_right_spec(old(self)@, data),
    {
        let instr = prefixed("SRL ", data.text());
        let v = data.read(self);
        let carry_out = (v & 0b0000_0001) != 0;
        let byte = v >> 1u32;
        assert(carry_out == (v % 2 == 1) && byte == v / 2) by (bit_vector)
            requires
                carry_out == ((v & 0b0000_0001) != 0),
                byte == v >> 1u32,
        ;
        data.write(self, byte);

        let mut flags = if byte == 0 {
            Flags::zero()
        } else {
            Flags::empty()
        };
        flags.set(Flags::carry(), carry_out);
        self.reg.set_flags(flags);
        self.curr_instr = instr;
    }

    /// SWAP
    pub fn swap(&mut self, data: impl Source<u8> + Target<u8>)
        ensures
            final(self)@ == semantics::swap_spec(old(self)@, data),
    {
        let instr = prefixed("SWAP ", data.text());
        let byte = data.read(self);
        let low_nibble = byte & 0b0000_1111;
        let high_nibble = byte & 0b1111_0000;

        let swapped = (low_nibble << 4u8) | (high_nibble >> 4u8);
        assert(swapped as int == 16 * (byte % 16) + byte / 16) by (bit_vector)
            requires
                low_nibble == byte & 0b0000_1111,
                high_nibble == byte & 0b1111_0000,
                swapped == (low_nibble << 4u8) | (high_nibble >> 4u8),
        ;
        data.write(self, swapped);

        let flags = if swapped == 0 {
            Flags::zero()
        } else {
            Flags::empty()
        };
        self.reg.set_flags(flags);
        self.curr_instr = instr;
    }
}

/// `r` has at least four trailing zeros exactly when its low nibble is zero.
proof fn lemma_trailing_zeros_low_nibble(r: u8)
    ensures
        (u8_trailing_zeros(r) >= 4) == (r % 16 == 0),
{
    axiom_u8_trailing_zeros(r);
    let t = u8_trailing_zeros(r);
    if t >= 4 {
        assert((r >> 0u8) & 1 == 0);
        assert((r >> 1u8) & 1 == 0);
        assert((r >> 2u8) & 1 == 0);
        assert((r >> 3u8) & 1 == 0);
        assert(r % 16 == 0) by (bit_vector)
            requires
                (r >> 0u8) & 1 == 0,
                (r >> 1u8) & 1 == 0,
                (r >> 2u8) & 1 == 0,
                (r >> 3u8) & 1 == 0,
        ;
    } else {
        let tb = t as u8;
        assert((r >> tb) & 1 == 1);
        assert(r % 16 != 0) by (bit_vector)
            requires
                (r >> tb) & 1 == 1,
                tb < 4,
        ;
    }
}

} // verus!
