pub mod flags;
pub mod instructions;
pub mod laws;
pub mod operands;
pub mod properties;
pub mod registers;
pub mod semantics;
pub mod state;
pub mod text;

use vstd::prelude::*;

use crate::cpu::registers::Registers;
use crate::cpu::state::CpuState;

verus! {

/// Whether the CPU runs or waits.
#[derive(Clone, Copy, Debug, PartialEq, Eq, Structural)]
pub enum CPUMode {
    Normal,
    Halt,
    Stop,
}

/// The CPU: its registers, the memory it addresses, and the state of the
/// instruction in progress.
pub struct CPU {
    pub reg: Registers,
    pub memory: [u8; 65536],
    pub ime: bool,
    pub mode: CPUMode,
    pub cycles_until_done: u32,
    pub curr_instr: String,
}

impl View for CPU {
    type V = CpuState;

    open spec fn view(&self) -> CpuState {
        CpuState {
            reg: self.reg,
            memory: self.memory@,
            ime: self.ime,
            mode: self.mode,
            cycles_until_done: self.cycles_until_done,
            curr_instr: self.curr_instr@,
        }
    }
}

impl CPU {
    /// A CPU with every register and every byte of memory zero, interrupts
    /// disabled, running, and no instruction in progress.
    pub fn new() -> (cpu: CPU)
        ensures
            cpu@.wf(),
            cpu@.reg == Registers::zeroed(),
            forall|i: int| 0 <= i < 0x10000 ==> #[trigger] cpu@.memory[i] == 0,
            !cpu@.ime,
            cpu@.mode == CPUMode::Normal,
            cpu@.cycles_until_done == 0,
            cpu@.curr_instr == Seq::<char>::empty(),
    {
        CPU {
            reg: Registers::new(),
            memory: [0u8; 65536],
            ime: false,
            mode: CPUMode::Normal,
            cycles_until_done: 0,
            curr_instr: String::new(),
        }
    }

    /// The byte at `addr`.
    pub fn read_byte(&self, addr: u16) -> (v: u8)
        ensures
            v == self@.byte_at(addr),
    {
        self.memory[addr as usize]
    }

    /// Stores `v` at `addr`.
    pub fn write_byte(&mut self, addr: u16, v: u8)
        ensures
            final(self)@ == old(self)@.with_byte(addr, v),
    {
        self.memory[addr as usize] = v;
    }

    /// The little-endian word at `addr`.
    pub fn read_word(&self, addr: u16) -> (v: u16)
        ensures
            v == self@.word_at(addr),
    {
        let lo = self.read_byte(addr);
        let hi = self.read_byte(addr.wrapping_add(1));
        hi as u16 * 256 + lo as u16
    }

    /// Stores `v` at `addr`, low byte first.
    pub fn write_word(&mut self, addr: u16, v: u16)
        ensures
            final(self)@ == old(self)@.with_word(addr, v),
    {
        self.write_byte(addr, (v % 256) as u8);
        self.write_byte(addr.wrapping_add(1), (v / 256) as u8);
    }

    /// Reads the byte at PC and advances PC past it.
    pub fn immediate_byte(&mut self) -> (v: u8)
        ensures
            final(self)@ == old(self)@.fetch_byte().0,
            v == old(self)@.fetch_byte().1,
    {
        let v = self.read_byte(self.reg.pc);
        self.reg.pc = self.reg.pc.wrapping_add(1);
        v
    }

    /// Reads the little-endian word at PC and advances PC past it.
    pub fn immediate_word(&mut self) -> (v: u16)
        ensures
            final(self)@ == old(self)@.fetch_word().0,
            v == old(self)@.fetch_word().1,
    {
        let v = self.read_word(self.reg.pc);
        self.reg.pc = self.reg.pc.wrapping_add(2);
        v
    }
}

} // verus!
