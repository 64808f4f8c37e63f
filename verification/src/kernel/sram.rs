//! # Process-stack SRAM
//!
//! The slice of SRAM that holds the process stacks, as one word-addressed
//! block of memory owned by value. Addresses are the device addresses;
//! the block covers every process stack region, from the lowest stack
//! base up to one region above the base of pid0's stack.

use vstd::prelude::*;

verus! {

/// Lowest address of the modeled block.
pub const SRAM_BASE: u32 = 0x2000_2000;

/// One past the highest address of the modeled block.
pub const SRAM_END: u32 = 0x2000_7000;

/// Number of 32-bit words in the block.
pub const SRAM_WORDS: usize = 0x1400;

/// A word-aligned address inside the modeled block.
pub open spec fn addr_in_range(addr: u32) -> bool {
    SRAM_BASE <= addr < SRAM_END && addr % 4 == 0
}

/// The word offset of an address from the base of the block.
pub open spec fn word_index(addr: u32) -> int {
    (addr - SRAM_BASE) / 4
}

/// The process-stack memory.
pub struct Sram {
    words: Vec<u32>,
}

impl Sram {
    /// The memory content, one entry per word, for specifications.
    pub closed spec fn mem(self) -> Seq<u32> {
        self.words@
    }

    pub open spec fn wf(self) -> bool {
        self.mem().len() == SRAM_WORDS
    }

    /// The word stored at a word-aligned address.
    pub open spec fn word_at(self, addr: u32) -> u32 {
        self.mem()[word_index(addr)]
    }

    /// Fresh memory, zero-filled as after the boot runtime cleared it.
    pub fn new() -> (s: Sram)
        ensures
            s.wf(),
            forall|a: u32| addr_in_range(a) ==> #[trigger] s.word_at(a) == 0,
    {
        let mut words: Vec<u32> = Vec::new();
        let mut i: usize = 0;
        while i < SRAM_WORDS
            invariant
                i <= SRAM_WORDS,
                words@.len() == i,
                forall|j: int| 0 <= j < i ==> words@[j] == 0,
            decreases SRAM_WORDS - i,
        {
            words.push(0);
            i = i + 1;
        }
        Sram { words }
    }

    /// The word at `addr`.
    pub fn read_word(&self, addr: u32) -> (r: u32)
        requires
            self.wf(),
            addr_in_range(addr),
        ensures
            r == self.word_at(addr),
    {
        self.words[((addr - SRAM_BASE) / 4) as usize]
    }

    /// Stores `value` at `addr`; no other word changes.
    pub fn write_word(&mut self, addr: u32, value: u32)
        requires
            old(self).wf(),
            addr_in_range(addr),
        ensures
            final(self).wf(),
            final(self).mem() == old(self).mem().update(word_index(addr), value),
            final(self).word_at(addr) == value,
            forall|a: u32|
                addr_in_range(a) && a != addr ==> #[trigger] final(self).word_at(a) == old(
                    self,
                ).word_at(a),
    {
        let idx = ((addr - SRAM_BASE) / 4) as usize;
        self.words.set(idx, value);
    }
}

} // verus!
