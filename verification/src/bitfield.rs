//! An 8-bit register of independent flags, addressed by bit position.

use vstd::prelude::*;

verus! {

/// Whether bit `index` of `value` is set. Bit 0 is the least significant.
pub open spec fn bit_of(value: u8, index: u8) -> bool {
    (value >> index) & 1 == 1
}

/// `value` with bit `index` forced to `on` and every other bit kept.
pub open spec fn with_bit(value: u8, index: u8, on: bool) -> u8 {
    if on {
        value | (1u8 << index)
    } else {
        value & !(1u8 << index)
    }
}

/// Writing one bit is seen when that bit is read back, and at no other
/// position.
pub proof fn lemma_with_bit_reads(value: u8, index: u8, on: bool, other: u8)
    requires
        index < 8,
        other < 8,
    ensures
        bit_of(with_bit(value, index, on), other) == (if other == index {
            on
        } else {
            bit_of(value, other)
        }),
{
    assert(bit_of(with_bit(value, index, on), other) == (if other == index {
        on
    } else {
        bit_of(value, other)
    })) by (bit_vector)
        requires
            index < 8,
            other < 8,
    ;
}

/// Eight flags packed into one byte.
#[derive(Debug)]
pub struct Bitfield {
    value: u8,
}

impl View for Bitfield {
    type V = u8;

    closed spec fn view(&self) -> u8 {
        self.value
    }
}

impl Bitfield {
    /// A register holding exactly the bits of `value`.
    pub fn new(value: u8) -> (r: Bitfield)
        ensures
            r@ == value,
    {
        Bitfield { value }
    }

    /// The packed byte.
    pub fn value(&self) -> (r: u8)
        ensures
            r == self@,
    {
        self.value
    }

    /// Reads the flag at position `bit`.
    pub fn get_bit(&self, bit: u8) -> (r: bool)
        requires
            bit < 8,
        ensures
            r == bit_of(self@, bit),
    {
        let v: u8 = self.value;
        assert(((v & (1u8 << bit)) != 0) == ((v >> bit) & 1 == 1)) by (bit_vector)
            requires
                bit < 8,
        ;
        (self.value & (1u8 << bit)) != 0
    }

    /// Sets or clears the flag at position `bit`; no other flag moves.
    pub fn set_bit(&mut self, bit: u8, value: bool)
        requires
            bit < 8,
        ensures
            final(self)@ == with_bit(old(self)@, bit, value),
            forall|i: u8|
                i < 8 ==> #[trigger] bit_of(final(self)@, i) == (if i == bit {
                    value
                } else {
                    bit_of(old(self)@, i)
                }),
    {
        if value {
            self.value = self.value | (1u8 << bit);
        } else {
            self.value = self.value & !(1u8 << bit);
        }
        proof {
            let before = old(self)@;
            assert forall|i: u8| i < 8 implies #[trigger] bit_of(self@, i) == (if i == bit {
                value
            } else {
                bit_of(before, i)
            }) by {
                lemma_with_bit_reads(before, bit, value, i);
            }
        }
    }
}

} // verus!
