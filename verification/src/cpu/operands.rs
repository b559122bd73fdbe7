use vstd::prelude::*;

use crate::cpu::registers::{Registers, word};
use crate::cpu::state::CpuState;
use crate::cpu::CPU;

verus! {

/// Anything an instruction names in its text.
pub trait Operand {
    /// The operand as it is written in an instruction's text.
    spec fn spec_text(&self) -> Seq<char>;

    fn text(&self) -> (s: String)
        ensures
            s@ == self.spec_text(),
    ;
}

/// An operand an instruction reads a `T` from.
pub trait Source<T>: Operand {
    /// The state after the read (reading an immediate advances PC) and the value read.
    spec fn spec_read(&self, s: CpuState) -> (CpuState, T);

    /// A read changes nothing but PC.
    proof fn lemma_read_moves_only_pc(&self, s: CpuState)
        ensures
            self.spec_read(s).0 == s.with_pc(self.spec_read(s).0.reg.pc),
    ;

    fn read(&self, cpu: &mut CPU) -> (v: T)
        ensures
            final(cpu)@ == self.spec_read(old(cpu)@).0,
            v == self.spec_read(old(cpu)@).1,
    ;
}

/// An operand an instruction writes a `T` to.
pub trait Target<T>: Operand {
    /// The state after `v` is written.
    spec fn spec_write(&self, s: CpuState, v: T) -> CpuState;

    /// A write changes registers and memory only, keeps memory covering the
    /// address space, and keeps the low nibble of F clear.
    proof fn lemma_write_keeps_control(&self, s: CpuState, v: T)
        ensures
            self.spec_write(s, v).ime == s.ime,
            self.spec_write(s, v).mode == s.mode,
            self.spec_write(s, v).cycles_until_done == s.cycles_until_done,
            self.spec_write(s, v).curr_instr == s.curr_instr,
            s.wf() ==> self.spec_write(s, v).wf(),
            s.flags_clean() ==> self.spec_write(s, v).flags_clean(),
    ;

    fn write(&self, cpu: &mut CPU, v: T)
        ensures
            final(cpu)@ == self.spec_write(old(cpu)@, v),
    ;
}

/// An 8-bit register.
#[derive(Clone, Copy, Debug, PartialEq, Eq, Structural)]
pub enum Register {
    A,
    B,
    C,
    D,
    E,
    H,
    L,
}

impl Register {
    /// The value this register holds in `r`.
    pub open spec fn value_in(self, r: Registers) -> u8 {
        match self {
            Register::A => r.a,
            Register::B => r.b,
            Register::C => r.c,
            Register::D => r.d,
            Register::E => r.e,
            Register::H => r.h,
            Register::L => r.l,
        }
    }

    /// `r` with this register set to `v`.
    pub open spec fn assigned(self, r: Registers, v: u8) -> Registers {
        match self {
            Register::A => Registers { a: v, ..r },
            Register::B => Registers { b: v, ..r },
            Register::C => Registers { c: v, ..r },
            Register::D => Registers { d: v, ..r },
            Register::E => Registers { e: v, ..r },
            Register::H => Registers { h: v, ..r },
            Register::L => Registers { l: v, ..r },
        }
    }
}

impl Operand for Register {
    open spec fn spec_text(&self) -> Seq<char> {
        match self {
            Register::A => "A"@,
            Register::B => "B"@,
            Register::C => "C"@,
            Register::D => "D"@,
            Register::E => "E"@,
            Register::H => "H"@,
            Register::L => "L"@,
        }
    }

    fn text(&self) -> (s: String) {
        match self {
            Register::A => String::from_str("A"),
            Register::B => String::from_str("B"),
            Register::C => String::from_str("C"),
            Register::D => String::from_str("D"),
            Register::E => String::from_str("E"),
            Register::H => String::from_str("H"),
            Register::L => String::from_str("L"),
        }
    }
}

impl Source<u8> for Register {
    open spec fn spec_read(&self, s: CpuState) -> (CpuState, u8) {
        (s, self.value_in(s.reg))
    }

    proof fn lemma_read_moves_only_pc(&self, s: CpuState) {
    }

    fn read(&self, cpu: &mut CPU) -> (v: u8) {
        match self {
            Register::A => cpu.reg.a,
            Register::B => cpu.reg.b,
            Register::C => cpu.reg.c,
            Register::D => cpu.reg.d,
            Register::E => cpu.reg.e,
            Register::H => cpu.reg.h,
            Register::L => cpu.reg.l,
        }
    }
}

impl Target<u8> for Register {
    open spec fn spec_write(&self, s: CpuState, v: u8) -> CpuState {
        s.with_reg(self.assigned(s.reg, v))
    }

    proof fn lemma_write_keeps_control(&self, s: CpuState, v: u8) {
    }

    fn write(&self, cpu: &mut CPU, v: u8) {
        match self {
            Register::A => cpu.reg.a = v,
            Register::B => cpu.reg.b = v,
            Register::C => cpu.reg.c = v,
            Register::D => cpu.reg.d = v,
            Register::E => cpu.reg.e = v,
            Register::H => cpu.reg.h = v,
            Register::L => cpu.reg.l = v,
        }
    }
}

/// A 16-bit register: one of the register pairs, SP or PC.
#[derive(Clone, Copy, Debug, PartialEq, Eq, Structural)]
pub enum WordRegister {
    AF,
    BC,
    DE,
    HL,
    SP,
    PC,
}

impl WordRegister {
    /// The value this register holds in `r`.
    pub open spec fn value_in(self, r: Registers) -> u16 {
        match self {
            WordRegister::AF => r.spec_af(),
            WordRegister::BC => r.spec_bc(),
            WordRegister::DE => r.spec_de(),
            WordRegister::HL => r.spec_hl(),
            WordRegister::SP => r.sp,
            WordRegister::PC => r.pc,
        }
    }

    /// `r` with this register set to `v` (for AF, the low nibble of F stays clear).
    pub open spec fn assigned(self, r: Registers, v: u16) -> Registers {
        match self {
            WordRegister::AF => r.with_af(v),
            WordRegister::BC => r.with_bc(v),
            WordRegister::DE => r.with_de(v),
            WordRegister::HL => r.with_hl(v),
            WordRegister::SP => Registers { sp: v, ..r },
            WordRegister::PC => Registers { pc: v, ..r },
        }
    }
}

impl Operand for WordRegister {
    open spec fn spec_text(&self) -> Seq<char> {
        match self {
            WordRegister::AF => "AF"@,
            WordRegister::BC => "BC"@,
            WordRegister::DE => "DE"@,
            WordRegister::HL => "HL"@,
            WordRegister::SP => "SP"@,
            WordRegister::PC => "PC"@,
        }
    }

    fn text(&self) -> (s: String) {
        match self {
            WordRegister::AF => String::from_str("AF"),
            WordRegister::BC => String::from_str("BC"),
            WordRegister::DE => String::from_str("DE"),
            WordRegister::HL => String::from_str("HL"),
            WordRegister::SP => String::from_str("SP"),
            WordRegister::PC => String::from_str("PC"),
        }
    }
}

impl Source<u16> for WordRegister {
    open spec fn spec_read(&self, s: CpuState) -> (CpuState, u16) {
        (s, self.value_in(s.reg))
    }

    proof fn lemma_read_moves_only_pc(&self, s: CpuState) {
    }

    fn read(&self, cpu: &mut CPU) -> (v: u16) {
        match self {
            WordRegister::AF => cpu.reg.af(),
            WordRegister::BC => cpu.reg.bc(),
            WordRegister::DE => cpu.reg.de(),
            WordRegister::HL => cpu.reg.hl(),
            WordRegister::SP => cpu.reg.sp,
            WordRegister::PC => cpu.reg.pc,
        }
    }
}

impl Target<u16> for WordRegister {
    open spec fn spec_write(&self, s: CpuState, v: u16) -> CpuState {
        s.with_reg(self.assigned(s.reg, v))
    }

    proof fn lemma_write_keeps_control(&self, s: CpuState, v: u16) {
        let low = (v % 256) as u8;
        assert((low & 0xF0) & 0x0F == 0) by (bit_vector);
    }

    fn write(&self, cpu: &mut CPU, v: u16) {
        match self {
            WordRegister::AF => cpu.reg.set_af(v),
            WordRegister::BC => cpu.reg.set_bc(v),
            WordRegister::DE => cpu.reg.set_de(v),
            WordRegister::HL => cpu.reg.set_hl(v),
            WordRegister::SP => cpu.reg.sp = v,
            WordRegister::PC => cpu.reg.pc = v,
        }
    }
}

/// A memory operand, addressed by a register pair, by SP, by `0xFF00 + C`, by
/// an immediate word, or by `0xFF00` plus an immediate byte.
#[derive(Clone, Copy, Debug, PartialEq, Eq, Structural)]
pub enum Indirect {
    BC,
    DE,
    HL,
    SP,
    C,
    Immediate,
    HighImmediate,
}

impl Indirect {
    /// The state after the address is formed (an immediate is read from PC) and the address.
    pub open spec fn address(self, s: CpuState) -> (CpuState, u16) {
        match self {
            Indirect::BC => (s, s.reg.spec_bc()),
            Indirect::DE => (s, s.reg.spec_de()),
            Indirect::HL => (s, s.reg.spec_hl()),
            Indirect::SP => (s, s.reg.sp),
            Indirect::C => (s, word(0xFF, s.reg.c)),
            Indirect::Immediate => s.fetch_word(),
            Indirect::HighImmediate => (s.fetch_byte().0, word(0xFF, s.fetch_byte().1)),
        }
    }

    /// Forms the address, reading an immediate from PC where the operand has one.
    pub fn resolve(&self, cpu: &mut CPU) -> (addr: u16)
        ensures
            final(cpu)@ == self.address(old(cpu)@).0,
            addr == self.address(old(cpu)@).1,
    {
        match self {
            Indirect::BC => cpu.reg.bc(),
            Indirect::DE => cpu.reg.de(),
            Indirect::HL => cpu.reg.hl(),
            Indirect::SP => cpu.reg.sp,
            Indirect::C => 0xFF00 + cpu.reg.c as u16,
            Indirect::Immediate => cpu.immediate_word(),
            Indirect::HighImmediate => {
                let offset = cpu.immediate_byte();
                0xFF00 + offset as u16
            },
        }
    }
}

impl Operand for Indirect {
    open spec fn spec_text(&self) -> Seq<char> {
        match self {
            Indirect::BC => "(BC)"@,
            Indirect::DE => "(DE)"@,
            Indirect::HL => "(HL)"@,
            Indirect::SP => "(SP)"@,
            Indirect::C => "(C)"@,
            Indirect::Immediate => "(a16)"@,
            Indirect::HighImmediate => "(a8)"@,
        }
    }

    fn text(&self) -> (s: String) {
        match self {
            Indirect::BC => String::from_str("(BC)"),
            Indirect::DE => String::from_str("(DE)"),
            Indirect::HL => String::from_str("(HL)"),
            Indirect::SP => String::from_str("(SP)"),
            Indirect::C => String::from_str("(C)"),
            Indirect::Immediate => String::from_str("(a16)"),
            Indirect::HighImmediate => String::from_str("(a8)"),
        }
    }
}

impl Source<u8> for Indirect {
    open spec fn spec_read(&self, s: CpuState) -> (CpuState, u8) {
        let (s1, addr) = self.address(s);
        (s1, s1.byte_at(addr))
    }

    proof fn lemma_read_moves_only_pc(&self, s: CpuState) {
    }

    fn read(&self, cpu: &mut CPU) -> (v: u8) {
        let addr = self.resolve(cpu);
        cpu.read_byte(addr)
    }
}

impl Target<u8> for Indirect {
    open spec fn spec_write(&self, s: CpuState, v: u8) -> CpuState {
        let (s1, addr) = self.address(s);
        s1.with_byte(addr, v)
    }

    proof fn lemma_write_keeps_control(&self, s: CpuState, v: u8) {
    }

    fn write(&self, cpu: &mut CPU, v: u8) {
        let addr = self.resolve(cpu);
        cpu.write_byte(addr, v);
    }
}

impl Source<u16> for Indirect {
    open spec fn spec_read(&self, s: CpuState) -> (CpuState, u16) {
        let (s1, addr) = self.address(s);
        (s1, s1.word_at(addr))
    }

    proof fn lemma_read_moves_only_pc(&self, s: CpuState) {
    }

    fn read(&self, cpu: &mut CPU) -> (v: u16) {
        let addr = self.resolve(cpu);
        cpu.read_word(addr)
    }
}

impl Target<u16> for Indirect {
    open spec fn spec_write(&self, s: CpuState, v: u16) -> CpuState {
        let (s1, addr) = self.address(s);
        s1.with_word(addr, v)
    }

    proof fn lemma_write_keeps_control(&self, s: CpuState, v: u16) {
    }

    fn write(&self, cpu: &mut CPU, v: u16) {
        let addr = self.resolve(cpu);
        cpu.write_word(addr, v);
    }
}

/// The byte that follows the opcode (`d8`).
#[derive(Clone, Copy, Debug, PartialEq, Eq, Structural)]
pub struct Immediate8;

/// The word that follows the opcode (`d16`).
#[derive(Clone, Copy, Debug, PartialEq, Eq, Structural)]
pub struct Immediate16;

impl Operand for Immediate8 {
    open spec fn spec_text(&self) -> Seq<char> {
        "d8"@
    }

    fn text(&self) -> (s: String) {
        String::from_str("d8")
    }
}

impl Source<u8> for Immediate8 {
    open spec fn spec_read(&self, s: CpuState) -> (CpuState, u8) {
        s.fetch_byte()
    }

    proof fn lemma_read_moves_only_pc(&self, s: CpuState) {
    }

    fn read(&self, cpu: &mut CPU) -> (v: u8) {
        cpu.immediate_byte()
    }
}

impl Operand for Immediate16 {
    open spec fn spec_text(&self) -> Seq<char> {
        "d16"@
    }

    fn text(&self) -> (s: String) {
        String::from_str("d16")
    }
}

impl Source<u16> for Immediate16 {
    open spec fn spec_read(&self, s: CpuState) -> (CpuState, u16) {
        s.fetch_word()
    }

    proof fn lemma_read_moves_only_pc(&self, s: CpuState) {
    }

    fn read(&self, cpu: &mut CPU) -> (v: u16) {
        cpu.immediate_word()
    }
}

} // verus!
