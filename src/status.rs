use vstd::prelude::*;

verus! {

/// One of the eight bits of the processor status register.
///
/// ```text
/// 7  bit  0
/// NV1B DIZC
/// ```
#[derive(Debug, Clone, Copy, PartialEq, Eq, Structural)]
pub enum Flag {
    Carry,
    Zero,
    InterruptDisable,
    Decimal,
    Break,
    Unused,
    Overflow,
    Negative,
}

impl Flag {
    /// Position of the flag in the status byte.
    pub open spec fn position(self) -> u8 {
        match self {
            Flag::Carry => 0,
            Flag::Zero => 1,
            Flag::InterruptDisable => 2,
            Flag::Decimal => 3,
            Flag::Break => 4,
            Flag::Unused => 5,
            Flag::Overflow => 6,
            Flag::Negative => 7,
        }
    }

    /// The single-bit mask of the flag in the status byte.
    pub open spec fn mask(self) -> u8 {
        1u8 << self.position()
    }

    pub fn bit(self) -> (r: u8)
        ensures
            r == self.mask(),
    {
        let p: u8 = match self {
            Flag::Carry => 0,
            Flag::Zero => 1,
            Flag::InterruptDisable => 2,
            Flag::Decimal => 3,
            Flag::Break => 4,
            Flag::Unused => 5,
            Flag::Overflow => 6,
            Flag::Negative => 7,
        };
        1u8 << p
    }
}

/// Whether flag `f` is set in the status byte `bits`.
pub open spec fn has_flag(bits: u8, f: Flag) -> bool {
    bits & f.mask() != 0
}

/// The status byte `bits` with flag `f` set to `on` and every other bit kept.
pub open spec fn with_flag(bits: u8, f: Flag, on: bool) -> u8 {
    if on {
        bits | f.mask()
    } else {
        bits & !f.mask()
    }
}

/// Setting one flag decides that flag and leaves every other flag as it was.
pub proof fn lemma_with_flag(bits: u8, f: Flag, on: bool, g: Flag)
    ensures
        has_flag(with_flag(bits, f, on), g) == if f == g {
            on
        } else {
            has_flag(bits, g)
        },
{
    let i = f.position();
    let j = g.position();
    assert(i < 8 && j < 8);
    assert(f == g <==> i == j);
    if on {
        assert((bits | (1u8 << i)) & (1u8 << j) != 0 <==> (i == j || bits & (1u8 << j) != 0))
            by (bit_vector)
            requires
                i < 8,
                j < 8,
        ;
    } else {
        assert((bits & !(1u8 << i)) & (1u8 << j) != 0 <==> (i != j && bits & (1u8 << j) != 0))
            by (bit_vector)
            requires
                i < 8,
                j < 8,
        ;
    }
}

/// The status register: eight independent named flags, viewed as the byte
/// that holds them (bit positions as in [`Flag`]).
#[derive(Debug, Clone, Copy, PartialEq, Eq, Structural)]
pub struct CPUStatus {
    bits: u8,
}

impl View for CPUStatus {
    type V = u8;

    closed spec fn view(&self) -> u8 {
        self.bits
    }
}

impl CPUStatus {
    /// The status with every flag clear.
    pub fn empty() -> (r: CPUStatus)
        ensures
            r@ == 0,
    {
        CPUStatus { bits: 0 }
    }

    /// The status whose flags are the bits of `bits`, all eight of them.
    pub fn from_bits(bits: u8) -> (r: CPUStatus)
        ensures
            r@ == bits,
    {
        CPUStatus { bits }
    }

    /// The byte that holds the flags.
    pub fn bits(&self) -> (r: u8)
        ensures
            r == self@,
    {
        self.bits
    }

    pub fn contains(&self, f: Flag) -> (r: bool)
        ensures
            r == has_flag(self@, f),
    {
        self.bits & f.bit() != 0
    }

    pub fn insert(&mut self, f: Flag)
        ensures
            final(self)@ == with_flag(old(self)@, f, true),
    {
        self.bits = self.bits | f.bit();
    }

    pub fn remove(&mut self, f: Flag)
        ensures
            final(self)@ == with_flag(old(self)@, f, false),
    {
        self.bits = self.bits & !f.bit();
    }

    pub fn set(&mut self, f: Flag, on: bool)
        ensures
            final(self)@ == with_flag(old(self)@, f, on),
    {
        if on {
            self.insert(f);
        } else {
            self.remove(f);
        }
    }
}

} // verus!
