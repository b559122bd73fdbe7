//! A verified model of the instruction set of an 8-bit Game Boy style CPU.
//!
//! The crate is organised around [`cpu::CPU`], whose abstract view
//! [`cpu::state::CpuState`] is what every instruction's contract speaks of.

pub mod cpu;
mod numeric;
