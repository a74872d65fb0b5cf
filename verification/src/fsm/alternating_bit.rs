//! One-bit sequence numbers of the stop-and-wait acknowledgement sublayer.

use vstd::prelude::*;

verus! {

/// A single-bit sequence number.
#[derive(Clone, Copy, Debug, PartialEq, Eq, Structural)]
pub enum AlternatingBit {
    Zero,
    One,
}

impl AlternatingBit {
    /// The other bit.
    pub open spec fn flipped(self) -> AlternatingBit {
        match self {
            AlternatingBit::Zero => AlternatingBit::One,
            AlternatingBit::One => AlternatingBit::Zero,
        }
    }

    /// The bit as it travels in a message: `false` for zero, `true` for one.
    pub open spec fn spec_as_bool(self) -> bool {
        self == AlternatingBit::One
    }

    /// The bit that a message flag stands for.
    pub open spec fn spec_from_bool(bit: bool) -> AlternatingBit {
        if bit {
            AlternatingBit::One
        } else {
            AlternatingBit::Zero
        }
    }

    /// Every session starts with both of its bits at zero.
    pub fn new() -> (bit: AlternatingBit)
        ensures
            bit == AlternatingBit::Zero,
    {
        AlternatingBit::Zero
    }

    pub fn from_bool(bit: bool) -> (res: AlternatingBit)
        ensures
            res == Self::spec_from_bool(bit),
    {
        if bit {
            AlternatingBit::One
        } else {
            AlternatingBit::Zero
        }
    }

    pub fn as_bool(&self) -> (bit: bool)
        ensures
            bit == self.spec_as_bool(),
    {
        match self {
            AlternatingBit::Zero => false,
            AlternatingBit::One => true,
        }
    }

    /// Flips the bit in place.
    pub fn alternate(&mut self)
        ensures
            *final(self) == old(self).flipped(),
    {
        let next = match self {
            AlternatingBit::Zero => AlternatingBit::One,
            AlternatingBit::One => AlternatingBit::Zero,
        };
        *self = next;
    }
}

/// Flipping twice gives the bit back, and flipping never leaves it as it was.
pub proof fn lemma_flip_is_an_involution(bit: AlternatingBit)
    ensures
        bit.flipped().flipped() == bit,
        bit.flipped() != bit,
{
}

/// A bit survives the trip through a message flag.
pub proof fn lemma_bool_round_trip(bit: AlternatingBit, flag: bool)
    ensures
        AlternatingBit::spec_from_bool(bit.spec_as_bool()) == bit,
        AlternatingBit::spec_from_bool(flag).spec_as_bool() == flag,
{
}

} // verus!
