//! # Register
//!
//! Light wrapper for manipulating one 32-bit memory-mapped register.
//! The word is held by value: every access is an explicit read/modify/write
//! on the stored content, which models the device register it stands for.

use vstd::prelude::*;

verus! {

/// A block of `length` low-order one bits: `low_ones(3) == 0b111`.
/// For a length of 32 or more, the whole word.
pub open spec fn low_ones(length: u32) -> u32 {
    if length >= 32 {
        0xffff_ffffu32
    } else {
        ((1u32 << length) - 1) as u32
    }
}

/// One 32-bit register.
pub struct Register {
    register: u32,
}

impl Register {
    /// The register's current content, for specifications.
    pub closed spec fn val(self) -> u32 {
        self.register
    }

    /// A register holding `value`.
    pub fn new(value: u32) -> (r: Register)
        ensures
            r.val() == value,
    {
        Register { register: value }
    }

    /// Returns the content of the register.
    pub fn read(&mut self) -> (r: u32)
        ensures
            *final(self) == *old(self),
            r == old(self).val(),
    {
        self.register
    }

    /// Returns the content without taking the register mutably.
    pub fn get(&self) -> (r: u32)
        ensures
            r == self.val(),
    {
        self.register
    }

    /// Overwrites the whole register with `value`.
    pub fn write(&mut self, value: u32)
        ensures
            final(self).val() == value,
    {
        self.register = value;
    }

    /// Reads the field of `length` bits starting at bit `pos` (LSB).
    pub fn read_bits(&mut self, pos: u32, length: u32) -> (r: u32)
        requires
            pos < 32,
        ensures
            *final(self) == *old(self),
            r == (old(self).val() >> pos) & low_ones(length),
    {
        let ones = Register::length_to_ones_in_bit(length);
        (self.register >> pos) & ones
    }

    /// Sets the single bit at position `pos` to one.
    pub fn set_bit(&mut self, pos: u32)
        requires
            pos < 32,
        ensures
            final(self).val() == old(self).val() | (1u32 << pos),
    {
        self.register = self.register | (1u32 << pos);
    }

    /// Turns the block of `length` bits starting at `pos` to ones.
    pub fn set_bits(&mut self, pos: u32, length: u32)
        requires
            pos < 32,
        ensures
            final(self).val() == old(self).val() | (low_ones(length) << pos),
    {
        let bit_ones = Register::length_to_ones_in_bit(length);
        self.register = self.register | (bit_ones << pos);
    }

    /// Replaces the block of `length` bits starting at `pos` with
    /// `new_value`: the matching positions are cleared first, then the
    /// new pattern is merged in. `new_value` must fit the field.
    pub fn replace_bits(&mut self, pos: u32, new_value: u32, length: u32)
        requires
            pos < 32,
            new_value <= low_ones(length),
        ensures
            final(self).val() == (old(self).val() & !(low_ones(length) << pos)) | (new_value
                << pos),
    {
        self.clear_bits(pos, length);
        self.register = self.register | (new_value << pos);
    }

    /// Toggles the block of `length` bits starting at `pos`.
    pub fn flip_bits(&mut self, pos: u32, length: u32)
        requires
            pos < 32,
        ensures
            final(self).val() == old(self).val() ^ (low_ones(length) << pos),
    {
        let bit_ones = Register::length_to_ones_in_bit(length);
        let mask = bit_ones << pos;
        self.register = self.register ^ mask;
    }

    /// Clears the single bit at position `pos`.
    pub fn clear_bit(&mut self, pos: u32)
        requires
            pos < 32,
        ensures
            final(self).val() == old(self).val() & !(1u32 << pos),
    {
        self.register = self.register & !(1u32 << pos);
    }

    /// Clears the block of `length` bits starting at `pos`.
    pub fn clear_bits(&mut self, pos: u32, length: u32)
        requires
            pos < 32,
        ensures
            final(self).val() == old(self).val() & !(low_ones(length) << pos),
    {
        let bit_ones = Register::length_to_ones_in_bit(length);
        self.register = self.register & !(bit_ones << pos);
    }

    /// Converts an amount of bits into a block of that many one bits,
    /// e.g. 4 into `0b1111`.
    pub fn length_to_ones_in_bit(length: u32) -> (r: u32)
        ensures
            r == low_ones(length),
    {
        let mut bit_ones: u32 = 0;
        let mut i: u32 = 0;
        assert(low_ones(0) == 0) by (bit_vector);
        while i < length
            invariant
                i <= length,
                bit_ones == low_ones(i),
            decreases length - i,
        {
            assert((low_ones(i) << 1) | 1 == low_ones((i + 1) as u32)) by (bit_vector)
                requires
                    i < 0xffff_ffffu32,
            ;
            bit_ones = (bit_ones << 1) | 0b1;
            i = i + 1;
        }
        bit_ones
    }
}

} // verus!
