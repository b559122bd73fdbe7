use vstd::prelude::*;

verus! {

/// The four condition flags, as the mathematical view of [`Flags`].
#[derive(Clone, Copy, Debug, PartialEq, Eq, Structural)]
pub struct FlagSet {
    /// Z: the result was zero.
    pub zero: bool,
    /// N: the last operation was a subtraction.
    pub subtract: bool,
    /// H: half carry.
    pub half_carry: bool,
    /// C: carry.
    pub carry: bool,
}

/// Bit of the zero flag in the F register.
pub const ZERO_BIT: u8 = 0x80;

/// Bit of the subtract flag in the F register.
pub const SUBTRACT_BIT: u8 = 0x40;

/// Bit of the half-carry flag in the F register.
pub const HALF_CARRY_BIT: u8 = 0x20;

/// Bit of the carry flag in the F register.
pub const CARRY_BIT: u8 = 0x10;

impl FlagSet {
    /// The flags that the byte `b` of the F register holds (its low nibble is ignored).
    pub open spec fn from_byte(b: u8) -> FlagSet {
        FlagSet {
            zero: b & 0x80 != 0,
            subtract: b & 0x40 != 0,
            half_carry: b & 0x20 != 0,
            carry: b & 0x10 != 0,
        }
    }

    /// The byte of the F register that holds exactly these flags.
    pub open spec fn to_byte(self) -> u8 {
        (if self.zero { 0x80u8 } else { 0u8 }) | (if self.subtract { 0x40u8 } else { 0u8 }) | (
        if self.half_carry {
            0x20u8
        } else {
            0u8
        }) | (if self.carry { 0x10u8 } else { 0u8 })
    }

    /// No flag set.
    pub open spec fn none() -> FlagSet {
        FlagSet { zero: false, subtract: false, half_carry: false, carry: false }
    }

    /// The flags set in either operand.
    pub open spec fn union(self, other: FlagSet) -> FlagSet {
        FlagSet {
            zero: self.zero || other.zero,
            subtract: self.subtract || other.subtract,
            half_carry: self.half_carry || other.half_carry,
            carry: self.carry || other.carry,
        }
    }

    /// The flags of `self` that are not in `other`.
    pub open spec fn difference(self, other: FlagSet) -> FlagSet {
        FlagSet {
            zero: self.zero && !other.zero,
            subtract: self.subtract && !other.subtract,
            half_carry: self.half_carry && !other.half_carry,
            carry: self.carry && !other.carry,
        }
    }

    /// Every flag of `other` is in `self`.
    pub open spec fn contains(self, other: FlagSet) -> bool {
        (other.zero ==> self.zero) && (other.subtract ==> self.subtract) && (other.half_carry
            ==> self.half_carry) && (other.carry ==> self.carry)
    }
}

/// Reading back the byte that encodes a set of flags gives that set.
pub proof fn lemma_flag_byte_round_trip(fs: FlagSet)
    ensures
        FlagSet::from_byte(fs.to_byte()) == fs,
        fs.to_byte() & 0x0F == 0,
{
    let (z, n, h, c) = (fs.zero, fs.subtract, fs.half_carry, fs.carry);
    let b = fs.to_byte();
    assert(b == (if z { 0x80u8 } else { 0u8 }) | (if n { 0x40u8 } else { 0u8 }) | (if h {
        0x20u8
    } else {
        0u8
    }) | (if c { 0x10u8 } else { 0u8 }));
    assert(((b & 0x80 != 0) == z && (b & 0x40 != 0) == n && (b & 0x20 != 0) == h && (b & 0x10
        != 0) == c && b & 0x0F == 0)) by (bit_vector)
        requires
            b == (if z { 0x80u8 } else { 0u8 }) | (if n { 0x40u8 } else { 0u8 }) | (if h {
                0x20u8
            } else {
                0u8
            }) | (if c { 0x10u8 } else { 0u8 }),
    ;
}

/// A byte whose low nibble is clear is the encoding of the flags it holds.
pub proof fn lemma_byte_round_trip(b: u8)
    requires
        b & 0x0F == 0,
    ensures
        FlagSet::from_byte(b).to_byte() == b,
{
    let fs = FlagSet::from_byte(b);
    assert(((if b & 0x80 != 0 { 0x80u8 } else { 0u8 }) | (if b & 0x40 != 0 { 0x40u8 } else {
        0u8
    }) | (if b & 0x20 != 0 { 0x20u8 } else { 0u8 }) | (if b & 0x10 != 0 { 0x10u8 } else { 0u8 }))
        == b) by (bit_vector)
        requires
            b & 0x0F == 0,
    ;
}

/// What each single-flag byte, and the empty byte, decode to.
proof fn lemma_flag_constants()
    ensures
        FlagSet::from_byte(ZERO_BIT) == (FlagSet { zero: true, ..FlagSet::none() }),
        FlagSet::from_byte(SUBTRACT_BIT) == (FlagSet { subtract: true, ..FlagSet::none() }),
        FlagSet::from_byte(HALF_CARRY_BIT) == (FlagSet { half_carry: true, ..FlagSet::none() }),
        FlagSet::from_byte(CARRY_BIT) == (FlagSet { carry: true, ..FlagSet::none() }),
        FlagSet::from_byte(0) == FlagSet::none(),
        ZERO_BIT & 0x0F == 0,
        SUBTRACT_BIT & 0x0F == 0,
        HALF_CARRY_BIT & 0x0F == 0,
        CARRY_BIT & 0x0F == 0,
        0u8 & 0x0F == 0,
{
    assert(0x80u8 & 0x80 != 0 && 0x80u8 & 0x40 == 0 && 0x80u8 & 0x20 == 0 && 0x80u8 & 0x10 == 0
        && 0x80u8 & 0x0F == 0) by (bit_vector);
    assert(0x40u8 & 0x80 == 0 && 0x40u8 & 0x40 != 0 && 0x40u8 & 0x20 == 0 && 0x40u8 & 0x10 == 0
        && 0x40u8 & 0x0F == 0) by (bit_vector);
    assert(0x20u8 & 0x80 == 0 && 0x20u8 & 0x40 == 0 && 0x20u8 & 0x20 != 0 && 0x20u8 & 0x10 == 0
        && 0x20u8 & 0x0F == 0) by (bit_vector);
    assert(0x10u8 & 0x80 == 0 && 0x10u8 & 0x40 == 0 && 0x10u8 & 0x20 == 0 && 0x10u8 & 0x10 != 0
        && 0x10u8 & 0x0F == 0) by (bit_vector);
    assert(0u8 & 0x80 == 0 && 0u8 & 0x40 == 0 && 0u8 & 0x20 == 0 && 0u8 & 0x10 == 0 && 0u8 & 0x0F
        == 0) by (bit_vector);
}

/// The flag bits of the F register, as a small bit set.
///
/// Only the high nibble is ever set.
#[derive(Clone, Copy, Debug)]
pub struct Flags {
    bits: u8,
}

impl View for Flags {
    type V = FlagSet;

    closed spec fn view(&self) -> FlagSet {
        FlagSet::from_byte(self.bits)
    }
}

impl Flags {
    #[verifier::type_invariant]
    spec fn low_nibble_clear(self) -> bool {
        self.bits & 0x0F == 0
    }

    /// The zero flag alone.
    pub fn zero() -> (f: Flags)
        ensures
            f@ == (FlagSet { zero: true, ..FlagSet::none() }),
    {
        proof {
            lemma_flag_constants();
        }
        Flags { bits: ZERO_BIT }
    }

    /// The subtract flag alone.
    pub fn subtract() -> (f: Flags)
        ensures
            f@ == (FlagSet { subtract: true, ..FlagSet::none() }),
    {
        proof {
            lemma_flag_constants();
        }
        Flags { bits: SUBTRACT_BIT }
    }

    /// The half-carry flag alone.
    pub fn half_carry() -> (f: Flags)
        ensures
            f@ == (FlagSet { half_carry: true, ..FlagSet::none() }),
    {
        proof {
            lemma_flag_constants();
        }
        Flags { bits: HALF_CARRY_BIT }
    }

    /// The carry flag alone.
    pub fn carry() -> (f: Flags)
        ensures
            f@ == (FlagSet { carry: true, ..FlagSet::none() }),
    {
        proof {
            lemma_flag_constants();
        }
        Flags { bits: CARRY_BIT }
    }

    /// No flag set.
    pub fn empty() -> (f: Flags)
        ensures
            f@ == FlagSet::none(),
    {
        proof {
            lemma_flag_constants();
        }
        Flags { bits: 0 }
    }

    /// The flags whose bits are set in `b`; the low nibble is dropped.
    pub fn from_bits_truncate(b: u8) -> (f: Flags)
        ensures
            f@ == FlagSet::from_byte(b),
    {
        let bits = b & 0xF0;
        assert(bits & 0x0F == 0 && (bits & 0x80 != 0) == (b & 0x80 != 0) && (bits & 0x40 != 0) == (b
            & 0x40 != 0) && (bits & 0x20 != 0) == (b & 0x20 != 0) && (bits & 0x10 != 0) == (b & 0x10
            != 0)) by (bit_vector)
            requires
                bits == b & 0xF0,
        ;
        Flags { bits }
    }

    /// The byte that encodes these flags in the F register.
    pub fn bits(&self) -> (b: u8)
        ensures
            b == self@.to_byte(),
    {
        proof {
            use_type_invariant(self);
            lemma_byte_round_trip(self.bits);
        }
        self.bits
    }

    /// The flags set in `self` or in `other`.
    pub fn union(self, other: Flags) -> (f: Flags)
        ensures
            f@ == self@.union(other@),
    {
        proof {
            use_type_invariant(self);
            use_type_invariant(other);
        }
        let (a, b) = (self.bits, other.bits);
        let bits = a | b;
        assert(bits & 0x0F == 0 && (bits & 0x80 != 0) == (a & 0x80 != 0 || b & 0x80 != 0) && (bits
            & 0x40 != 0) == (a & 0x40 != 0 || b & 0x40 != 0) && (bits & 0x20 != 0) == (a & 0x20 != 0
            || b & 0x20 != 0) && (bits & 0x10 != 0) == (a & 0x10 != 0 || b & 0x10 != 0))
            by (bit_vector)
            requires
                bits == a | b,
                a & 0x0F == 0,
                b & 0x0F == 0,
        ;
        Flags { bits }
    }

    /// Adds the flags of `other`.
    pub fn insert(&mut self, other: Flags)
        ensures
            final(self)@ == old(self)@.union(other@),
    {
        *self = self.union(other);
    }

    /// Clears the flags of `other`.
    pub fn remove(&mut self, other: Flags)
        ensures
            final(self)@ == old(self)@.difference(other@),
    {
        proof {
            use_type_invariant(&*self);
            use_type_invariant(other);
        }
        let (a, b) = (self.bits, other.bits);
        let bits = a & !b;
        assert(bits & 0x0F == 0 && (bits & 0x80 != 0) == (a & 0x80 != 0 && !(b & 0x80 != 0)) && (
        bits & 0x40 != 0) == (a & 0x40 != 0 && !(b & 0x40 != 0)) && (bits & 0x20 != 0) == (a & 0x20
            != 0 && !(b & 0x20 != 0)) && (bits & 0x10 != 0) == (a & 0x10 != 0 && !(b & 0x10 != 0)))
            by (bit_vector)
            requires
                bits == a & !b,
                a & 0x0F == 0,
        ;
        *self = Flags { bits };
    }

    /// Adds the flags of `other` where `value` holds, and clears them otherwise.
    pub fn set(&mut self, other: Flags, value: bool)
        ensures
            final(self)@ == (if value {
                old(self)@.union(other@)
            } else {
                old(self)@.difference(other@)
            }),
    {
        if value {
            self.insert(other);
        } else {
            self.remove(other);
        }
    }

    /// All the flags of `other` are set in `self`.
    pub fn contains(&self, other: Flags) -> (r: bool)
        ensures
            r == self@.contains(other@),
    {
        proof {
            use_type_invariant(self);
            use_type_invariant(other);
        }
        let (a, b) = (self.bits, other.bits);
        assert(((a & b) == b) == ((b & 0x80 != 0 ==> a & 0x80 != 0) && (b & 0x40 != 0 ==> a & 0x40
            != 0) && (b & 0x20 != 0 ==> a & 0x20 != 0) && (b & 0x10 != 0 ==> a & 0x10 != 0)))
            by (bit_vector)
            requires
                a & 0x0F == 0,
                b & 0x0F == 0,
        ;
        (a & b) == b
    }
}

} // verus!
