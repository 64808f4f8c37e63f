//! # Context Switch
//!
//! Holds the addresses of the saved-process-stack-pointer fields of the
//! outgoing (`from`) and incoming (`next`) process control blocks. The
//! scheduler writes the pair before pending PendSV; PendSV consumes and
//! swaps it, so that the following PendSV returns to the previous
//! process — in this kernel always back to pid0, the scheduler task.

use vstd::prelude::*;

verus! {

/// Holds addresses required for a context switch.
pub struct ContextSwitch {
    pub psp_from_addr: u32,
    pub psp_next_addr: u32,
}

/// What one `get_addr_and_swap` call yields: the `(next, from)` pair it
/// returns, and the swapped state it leaves behind.
pub open spec fn swap_spec(cs: ContextSwitch) -> ((u32, u32), ContextSwitch) {
    (
        (cs.psp_next_addr, cs.psp_from_addr),
        ContextSwitch { psp_from_addr: cs.psp_next_addr, psp_next_addr: cs.psp_from_addr },
    )
}

impl ContextSwitch {
    /// A slot pair with both addresses cleared; an address of zero means
    /// "no process", as on the very first dispatch.
    pub fn new() -> (r: ContextSwitch)
        ensures
            r.psp_from_addr == 0,
            r.psp_next_addr == 0,
    {
        ContextSwitch { psp_from_addr: 0, psp_next_addr: 0 }
    }

    /// Retrieves the psp addresses for loading and saving the processes.
    ///
    /// Swaps the `from` and `next` addresses, so that the second context
    /// switch returns to the previous process.
    pub fn get_addr_and_swap(&mut self) -> (jump_to: (u32, u32))
        ensures
            jump_to == swap_spec(*old(self)).0,
            *final(self) == swap_spec(*old(self)).1,
    {
        let jump_to = (self.psp_next_addr, self.psp_from_addr);
        let tmp = self.psp_next_addr;
        self.psp_next_addr = self.psp_from_addr;
        self.psp_from_addr = tmp;
        jump_to
    }

    pub fn set_from_addr(&mut self, psp_from_addr: u32)
        ensures
            final(self).psp_from_addr == psp_from_addr,
            final(self).psp_next_addr == old(self).psp_next_addr,
    {
        self.psp_from_addr = psp_from_addr;
    }

    pub fn set_next_addr(&mut self, psp_next_addr: u32)
        ensures
            final(self).psp_next_addr == psp_next_addr,
            final(self).psp_from_addr == old(self).psp_from_addr,
    {
        self.psp_next_addr = psp_next_addr;
    }
}

/// Round-trip law of the swap protocol: from any slot state, after
/// `set_next(a)` the first `get_addr_and_swap` returns `a` as the address
/// to jump to, and a second `get_addr_and_swap` returns `a` as the
/// address to save into — the switch after next returns to `a`.
pub proof fn lemma_round_trip_swap(cs: ContextSwitch, a: u32)
    ensures
        ({
            let cs1 = ContextSwitch { psp_next_addr: a, psp_from_addr: cs.psp_from_addr };
            let (first, cs2) = swap_spec(cs1);
            let (second, _cs3) = swap_spec(cs2);
            first.0 == a && second.1 == a
        }),
{
}

} // verus!
