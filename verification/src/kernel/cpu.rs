//! # CPU context
//!
//! The callee-saved register file and the process stack pointer: the
//! part of the CPU state that the context-switch primitive saves and
//! restores by hand. On the device the primitive is a few instructions
//! of assembly reached from PendSV; here it acts on this register file,
//! on the PCBs' saved-psp fields (through their addresses) and on the
//! process-stack memory, with the same contract.

use crate::kernel::scheduler::PCB_PSP_SLOT_BASE;
use crate::kernel::scheduler::Scheduler;
use crate::kernel::scheduler::is_psp_slot_addr;
use crate::kernel::scheduler::slot_pid;
use crate::kernel::sram::SRAM_BASE;
use crate::kernel::sram::SRAM_END;
use crate::kernel::sram::Sram;
use crate::kernel::sram::addr_in_range;
use vstd::prelude::*;

verus! {

/// The registers the context-switch primitive moves: the callee-saved
/// registers r4..r11, the link register holding the exception-return
/// code, and the process stack pointer.
pub struct Cpu {
    pub r4: u32,
    pub r5: u32,
    pub r6: u32,
    pub r7: u32,
    pub r8: u32,
    pub r9: u32,
    pub r10: u32,
    pub r11: u32,
    pub lr: u32,
    pub psp: u32,
}

/// The load frame as a sequence: r4..r11 and lr, in stacking order.
pub open spec fn regs_of(cpu: Cpu) -> Seq<u32> {
    seq![cpu.r4, cpu.r5, cpu.r6, cpu.r7, cpu.r8, cpu.r9, cpu.r10, cpu.r11, cpu.lr]
}

/// The nine words stored at `sp`, the shape of a saved load frame.
pub open spec fn frame_at(m: Sram, sp: u32) -> Seq<u32> {
    Seq::new(9, |i: int| m.word_at((sp + 4 * i) as u32))
}

impl Cpu {
    /// A cleared register file.
    pub fn new() -> (c: Cpu)
        ensures
            regs_of(c) =~= Seq::new(9, |i: int| 0u32),
            c.psp == 0,
    {
        Cpu { r4: 0, r5: 0, r6: 0, r7: 0, r8: 0, r9: 0, r10: 0, r11: 0, lr: 0, psp: 0 }
    }
}

/// What one context switch from `from` (0 on the very first dispatch) to
/// `next` does to the scheduler's PCBs, the register file and the stack
/// memory.
pub open spec fn switch_transition(
    pre_s: Scheduler,
    post_s: Scheduler,
    pre_c: Cpu,
    post_c: Cpu,
    pre_m: Sram,
    post_m: Sram,
    psp_next_addr: u32,
    psp_from_addr: u32,
) -> bool {
    let loaded_psp = pre_s.table()[slot_pid(psp_next_addr)]->Some_0.psp;
    &&& post_s.current() == pre_s.current()
    &&& post_s.sched_policy() == pre_s.sched_policy()
    &&& post_s.cycle_index() == pre_s.cycle_index()
    &&& post_s.timer_model() == pre_s.timer_model()
    &&& (psp_from_addr == 0 ==> post_s.table() == pre_s.table() && post_m == pre_m)
    &&& (psp_from_addr != 0 ==> {
        let fp = slot_pid(psp_from_addr);
        let sp = (pre_c.psp - 36) as u32;
        &&& post_s.table() == pre_s.table().update(
            fp,
            Some(
                (crate::kernel::scheduler::ProcessControlBlock {
                    psp: sp,
                    pid: pre_s.table()[fp]->Some_0.pid,
                    state: pre_s.table()[fp]->Some_0.state,
                }),
            ),
        )
        &&& frame_at(post_m, sp) == regs_of(pre_c)
        &&& (forall|a: u32|
            addr_in_range(a) && !(sp <= a < pre_c.psp) ==> #[trigger] post_m.word_at(a)
                == pre_m.word_at(a))
    })
    &&& regs_of(post_c) == frame_at(post_m, loaded_psp)
    &&& post_c.psp == loaded_psp + 36
}

/// The context-switch primitive. If `psp_from_addr` is not zero, pushes
/// r4..r11 and lr onto the outgoing process's stack and stores the
/// resulting psp through `psp_from_addr`; then loads the incoming psp
/// through `psp_next_addr`, pops r4..r11 and lr from it, and leaves the
/// psp pointing at the incoming exception frame, which the hardware pops
/// on exception return. The outgoing process observes no register
/// clobber on resume: its callee-saved registers and stack pointer are
/// saved exactly.
pub fn context_switch(
    sched: &mut Scheduler,
    cpu: &mut Cpu,
    sram: &mut Sram,
    psp_next_addr: u32,
    psp_from_addr: u32,
)
    requires
        old(sched).wf(),
        old(sram).wf(),
        is_psp_slot_addr(psp_next_addr),
        old(sched).table()[slot_pid(psp_next_addr)] is Some,
        ({
            let npsp = old(sched).table()[slot_pid(psp_next_addr)]->Some_0.psp;
            npsp % 4 == 0 && SRAM_BASE <= npsp && npsp + 36 <= SRAM_END
        }),
        psp_from_addr != 0 ==> {
            &&& is_psp_slot_addr(psp_from_addr)
            &&& psp_from_addr != psp_next_addr
            &&& old(sched).table()[slot_pid(psp_from_addr)] is Some
            &&& old(cpu).psp % 4 == 0
            &&& SRAM_BASE + 36 <= old(cpu).psp
            &&& old(cpu).psp <= SRAM_END
        },
    ensures
        final(sched).wf(),
        final(sram).wf(),
        switch_transition(
            *old(sched),
            *final(sched),
            *old(cpu),
            *final(cpu),
            *old(sram),
            *final(sram),
            psp_next_addr,
            psp_from_addr,
        ),
{
    let next_pid = ((psp_next_addr - PCB_PSP_SLOT_BASE) / 4) as usize;
    if psp_from_addr != 0 {
        let from_pid = ((psp_from_addr - PCB_PSP_SLOT_BASE) / 4) as usize;
        let sp = cpu.psp - 36;
        sram.write_word(sp, cpu.r4);
        sram.write_word(sp + 4, cpu.r5);
        sram.write_word(sp + 8, cpu.r6);
        sram.write_word(sp + 12, cpu.r7);
        sram.write_word(sp + 16, cpu.r8);
        sram.write_word(sp + 20, cpu.r9);
        sram.write_word(sp + 24, cpu.r10);
        sram.write_word(sp + 28, cpu.r11);
        sram.write_word(sp + 32, cpu.lr);
        sched.store_psp(from_pid, sp);
        proof {
            assert(frame_at(*sram, sp) =~= regs_of(*old(cpu)));
        }
    }
    let npsp = sched.pcb_psp(next_pid);
    cpu.r4 = sram.read_word(npsp);
    cpu.r5 = sram.read_word(npsp + 4);
    cpu.r6 = sram.read_word(npsp + 8);
    cpu.r7 = sram.read_word(npsp + 12);
    cpu.r8 = sram.read_word(npsp + 16);
    cpu.r9 = sram.read_word(npsp + 20);
    cpu.r10 = sram.read_word(npsp + 24);
    cpu.r11 = sram.read_word(npsp + 28);
    cpu.lr = sram.read_word(npsp + 32);
    cpu.psp = npsp + 36;
    proof {
        assert(regs_of(*cpu) =~= frame_at(*sram, npsp));
    }
}

/// Round-trip guarantee of the switch protocol: a process whose load
/// frame was saved at `sp` when it was switched away from, and whose
/// save area no one wrote to in between, gets back exactly the
/// callee-saved registers it had when it is switched to again.
pub proof fn lemma_context_round_trip(m1: Sram, m2: Sram, sp: u32, cpu0: Cpu, cpu2: Cpu)
    requires
        frame_at(m1, sp) == regs_of(cpu0),
        frame_at(m2, sp) == frame_at(m1, sp),
        regs_of(cpu2) == frame_at(m2, sp),
    ensures
        cpu2.r4 == cpu0.r4,
        cpu2.r5 == cpu0.r5,
        cpu2.r6 == cpu0.r6,
        cpu2.r7 == cpu0.r7,
        cpu2.r8 == cpu0.r8,
        cpu2.r9 == cpu0.r9,
        cpu2.r10 == cpu0.r10,
        cpu2.r11 == cpu0.r11,
        cpu2.lr == cpu0.lr,
{
    assert(regs_of(cpu2) == regs_of(cpu0));
    assert(regs_of(cpu2)[0] == regs_of(cpu0)[0]);
    assert(regs_of(cpu2)[1] == regs_of(cpu0)[1]);
    assert(regs_of(cpu2)[2] == regs_of(cpu0)[2]);
    assert(regs_of(cpu2)[3] == regs_of(cpu0)[3]);
    assert(regs_of(cpu2)[4] == regs_of(cpu0)[4]);
    assert(regs_of(cpu2)[5] == regs_of(cpu0)[5]);
    assert(regs_of(cpu2)[6] == regs_of(cpu0)[6]);
    assert(regs_of(cpu2)[7] == regs_of(cpu0)[7]);
    assert(regs_of(cpu2)[8] == regs_of(cpu0)[8]);
}

} // verus!
