# lib: a verified Game Boy style CPU instruction set

The crate models the instruction set of an 8-bit Game Boy (LR35902) style CPU
and proves, with Verus, that every instruction does exactly what its
contract states.

Layout of `src/cpu/`:

- `mod.rs`: `CPU` (registers, 64 KiB of memory, interrupt enable, mode,
  cycle counter, text of the current instruction) and its memory accessors.
- `state.rs`: `CpuState`, the abstract view of a `CPU` that contracts speak of.
- `registers.rs`, `flags.rs`: the register file and the flag bits of F.
- `operands.rs`: registers, memory operands and immediates, through the
  `Source` and `Target` traits.
- `semantics.rs`: one spec function per instruction, stating its effect.
- `instructions.rs`: the executable instructions, each proved to follow its
  spec function.
- `laws.rs`: properties across instructions (stack round trips, call and
  return, bit set/test, the low nibble of F staying clear, ...).
- `text.rs`: decimal and hexadecimal text of numbers for instruction texts.

`src/numeric.rs` gives contracts to the few `u8`/`u16` methods of the
standard library that vstd does not specify.
