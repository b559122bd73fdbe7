use vstd::prelude::*;

use crate::cpu::flags::FlagSet;
use crate::cpu::registers::{Registers, word, high_byte, low_byte, wrap16};
use crate::cpu::CPUMode;

verus! {

/// The abstract state of the CPU: what every instruction's contract speaks of.
#[verifier::ext_equal]
pub ghost struct CpuState {
    pub reg: Registers,
    /// The 64 KiB address space, one byte per address.
    pub memory: Seq<u8>,
    /// The interrupt master enable.
    pub ime: bool,
    pub mode: CPUMode,
    /// Machine cycles that the current instruction still takes.
    pub cycles_until_done: u32,
    /// The text of the instruction being executed.
    pub curr_instr: Seq<char>,
}

impl CpuState {
    /// The memory covers the whole 16-bit address space.
    pub open spec fn wf(self) -> bool {
        self.memory.len() == 0x10000
    }

    /// The low nibble of F, which holds no flag, is clear.
    pub open spec fn flags_clean(self) -> bool {
        self.reg.f & 0x0F == 0
    }

    pub open spec fn flag_set(self) -> FlagSet {
        self.reg.flag_set()
    }

    /// The byte at `addr`.
    pub open spec fn byte_at(self, addr: u16) -> u8 {
        self.memory[addr as int]
    }

    /// The little-endian word at `addr`: its low byte at `addr`, its high byte at
    /// the next address (wrapping).
    pub open spec fn word_at(self, addr: u16) -> u16 {
        word(self.byte_at(wrap16(addr + 1)), self.byte_at(addr))
    }

    pub open spec fn with_byte(self, addr: u16, v: u8) -> CpuState {
        CpuState { memory: self.memory.update(addr as int, v), ..self }
    }

    /// The little-endian word `v` stored at `addr`.
    pub open spec fn with_word(self, addr: u16, v: u16) -> CpuState {
        self.with_byte(addr, low_byte(v)).with_byte(wrap16(addr + 1), high_byte(v))
    }

    pub open spec fn with_reg(self, reg: Registers) -> CpuState {
        CpuState { reg, ..self }
    }

    pub open spec fn with_a(self, a: u8) -> CpuState {
        self.with_reg(Registers { a, ..self.reg })
    }

    pub open spec fn with_pc(self, pc: u16) -> CpuState {
        self.with_reg(Registers { pc, ..self.reg })
    }

    pub open spec fn with_sp(self, sp: u16) -> CpuState {
        self.with_reg(Registers { sp, ..self.reg })
    }

    /// F set to exactly the flags `fs`.
    pub open spec fn with_flags(self, fs: FlagSet) -> CpuState {
        self.with_reg(Registers { f: fs.to_byte(), ..self.reg })
    }

    pub open spec fn with_ime(self, ime: bool) -> CpuState {
        CpuState { ime, ..self }
    }

    pub open spec fn with_mode(self, mode: CPUMode) -> CpuState {
        CpuState { mode, ..self }
    }

    pub open spec fn with_cycles(self, cycles: int) -> CpuState {
        CpuState { cycles_until_done: cycles as u32, ..self }
    }

    pub open spec fn with_instr(self, text: Seq<char>) -> CpuState {
        CpuState { curr_instr: text, ..self }
    }

    /// Reads the byte at PC and advances PC past it.
    pub open spec fn fetch_byte(self) -> (CpuState, u8) {
        (self.with_pc(wrap16(self.reg.pc + 1)), self.byte_at(self.reg.pc))
    }

    /// Reads the little-endian word at PC and advances PC past it.
    pub open spec fn fetch_word(self) -> (CpuState, u16) {
        (self.with_pc(wrap16(self.reg.pc + 2)), self.word_at(self.reg.pc))
    }
}

} // verus!
