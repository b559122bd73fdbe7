use vstd::prelude::*;

use crate::cpu::flags::{FlagSet, Flags};

verus! {

/// The 16-bit word whose high byte is `hi` and whose low byte is `lo`.
pub open spec fn word(hi: u8, lo: u8) -> u16 {
    (hi as int * 256 + lo as int) as u16
}

/// The high byte of `w`.
pub open spec fn high_byte(w: u16) -> u8 {
    (w / 256) as u8
}

/// The low byte of `w`.
pub open spec fn low_byte(w: u16) -> u8 {
    (w % 256) as u8
}

/// `i` reduced modulo 2^16.
pub open spec fn wrap16(i: int) -> u16 {
    (i % 65536) as u16
}

/// `i` reduced modulo 2^8.
pub open spec fn wrap8(i: int) -> u8 {
    (i % 256) as u8
}

/// The register file: eight byte registers, which pair up as AF, BC, DE and HL,
/// the stack pointer and the program counter.
#[derive(Clone, Copy, Debug, PartialEq, Eq, Structural)]
pub struct Registers {
    pub a: u8,
    pub f: u8,
    pub b: u8,
    pub c: u8,
    pub d: u8,
    pub e: u8,
    pub h: u8,
    pub l: u8,
    pub sp: u16,
    pub pc: u16,
}

impl Registers {
    /// Every register zero.
    pub open spec fn zeroed() -> Registers {
        Registers { a: 0, f: 0, b: 0, c: 0, d: 0, e: 0, h: 0, l: 0, sp: 0, pc: 0 }
    }

    /// The flags that the F register holds.
    pub open spec fn flag_set(self) -> FlagSet {
        FlagSet::from_byte(self.f)
    }

    pub open spec fn spec_af(self) -> u16 {
        word(self.a, self.f)
    }

    pub open spec fn spec_bc(self) -> u16 {
        word(self.b, self.c)
    }

    pub open spec fn spec_de(self) -> u16 {
        word(self.d, self.e)
    }

    pub open spec fn spec_hl(self) -> u16 {
        word(self.h, self.l)
    }

    /// AF set to `v`; the low nibble of F holds no flag and stays clear.
    pub open spec fn with_af(self, v: u16) -> Registers {
        Registers { a: high_byte(v), f: low_byte(v) & 0xF0, ..self }
    }

    pub open spec fn with_bc(self, v: u16) -> Registers {
        Registers { b: high_byte(v), c: low_byte(v), ..self }
    }

    pub open spec fn with_de(self, v: u16) -> Registers {
        Registers { d: high_byte(v), e: low_byte(v), ..self }
    }

    pub open spec fn with_hl(self, v: u16) -> Registers {
        Registers { h: high_byte(v), l: low_byte(v), ..self }
    }

    /// A register file with every register zero.
    pub fn new() -> (r: Registers)
        ensures
            r == Registers::zeroed(),
    {
        Registers { a: 0, f: 0, b: 0, c: 0, d: 0, e: 0, h: 0, l: 0, sp: 0, pc: 0 }
    }

    pub fn af(&self) -> (v: u16)
        ensures
            v == self.spec_af(),
    {
        self.a as u16 * 256 + self.f as u16
    }

    pub fn bc(&self) -> (v: u16)
        ensures
            v == self.spec_bc(),
    {
        self.b as u16 * 256 + self.c as u16
    }

    pub fn de(&self) -> (v: u16)
        ensures
            v == self.spec_de(),
    {
        self.d as u16 * 256 + self.e as u16
    }

    pub fn hl(&self) -> (v: u16)
        ensures
            v == self.spec_hl(),
    {
        self.h as u16 * 256 + self.l as u16
    }

    pub fn set_af(&mut self, v: u16)
        ensures
            *final(self) == old(self).with_af(v),
    {
        self.a = (v / 256) as u8;
        self.f = ((v % 256) as u8) & 0xF0;
    }

    pub fn set_bc(&mut self, v: u16)
        ensures
            *final(self) == old(self).with_bc(v),
    {
        self.b = (v / 256) as u8;
        self.c = (v % 256) as u8;
    }

    pub fn set_de(&mut self, v: u16)
        ensures
            *final(self) == old(self).with_de(v),
    {
        self.d = (v / 256) as u8;
        self.e = (v % 256) as u8;
    }

    pub fn set_hl(&mut self, v: u16)
        ensures
            *final(self) == old(self).with_hl(v),
    {
        self.h = (v / 256) as u8;
        self.l = (v % 256) as u8;
    }

    /// The flags held in F.
    pub fn flags(&self) -> (fl: Flags)
        ensures
            fl@ == self.flag_set(),
    {
        Flags::from_bits_truncate(self.f)
    }

    /// Stores `flags` in F.
    pub fn set_flags(&mut self, flags: Flags)
        ensures
            *final(self) == (Registers { f: flags@.to_byte(), ..*old(self) }),
    {
        self.f = flags.bits();
    }

    /// The zero flag.
    pub fn z_flag(&self) -> (z: bool)
        ensures
            z == self.flag_set().zero,
    {
        self.flags().contains(Flags::zero())
    }

    /// The carry flag.
    pub fn c_flag(&self) -> (c: bool)
        ensures
            c == self.flag_set().carry,
    {
        self.flags().contains(Flags::carry())
    }
}

} // verus!
