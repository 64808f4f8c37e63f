//! # Exceptions
//!
//! The handlers the vector table points at. SysTick only pends PendSV,
//! deferring the switch to the lowest-priority exception; PendSV
//! consumes and swaps the context-switch state and runs the primitive;
//! SVCall dispatches supervisor requests and, on Yield, disables the
//! tick, clears any pending SysTick and pends PendSV.

use crate::kernel::cpu::Cpu;
use crate::kernel::cpu::context_switch;
use crate::kernel::cpu::switch_transition;
use crate::kernel::cs::ContextSwitch;
use crate::kernel::cs::swap_spec;
use crate::kernel::scheduler::Scheduler;
use crate::kernel::scheduler::is_psp_slot_addr;
use crate::kernel::scheduler::psp_slot_addr_spec;
use crate::kernel::scheduler::slot_pid;
use crate::kernel::sram::SRAM_BASE;
use crate::kernel::sram::SRAM_END;
use crate::kernel::sram::Sram;
use crate::kernel::svc::Semihosting;
use crate::kernel::svc::SvcOrder;
use crate::kernel::svc::SvcRequest;
use crate::kernel::svc::SvcResult;
use crate::kernel::svc::cstr_prefix;
use crate::kernel::svc::lemma_cstr_prefix_take;
use crate::util::register::Register;
use vstd::prelude::*;

verus! {

/// # SysTick exception
///
/// Called on each tick of the system timer: sets the PendSV pending bit
/// and returns. The switch itself is deferred to PendSV so it runs at
/// the lowest priority, after any other pending exception.
#[allow(non_snake_case)]
pub fn SysTick(icsr: &mut Register)
    ensures
        final(icsr).val() == old(icsr).val() | 0x1000_0000u32,
{
    trigger_PendSV(icsr);
}

/// Set PendSV to pending: bit 28 (PENDSVSET) of the interrupt control
/// and state register (ICSR).
#[allow(non_snake_case)]
pub fn trigger_PendSV(icsr: &mut Register)
    ensures
        final(icsr).val() == old(icsr).val() | 0x1000_0000u32,
{
    let ghost before = icsr.val();
    icsr.set_bit(28);
    proof {
        assert(before | (1u32 << 28u32) == before | 0x1000_0000u32) by (bit_vector);
    }
}

/// # PendSV exception
///
/// Has the lowest priority and therefore runs last when exceptions
/// nest. Performs the deferred context switch: retrieves and swaps the
/// context-switch addresses, then runs the primitive with the returned
/// `(next, from)` pair. Entering the exception clears its pending bit.
#[allow(non_snake_case)]
pub fn PendSV(
    cs: &mut ContextSwitch,
    scheduler: &mut Scheduler,
    cpu: &mut Cpu,
    sram: &mut Sram,
    icsr: &mut Register,
)
    requires
        old(scheduler).wf(),
        old(sram).wf(),
        is_psp_slot_addr(old(cs).psp_next_addr),
        old(scheduler).table()[slot_pid(old(cs).psp_next_addr)] is Some,
        ({
            let npsp = old(scheduler).table()[slot_pid(old(cs).psp_next_addr)]->Some_0.psp;
            npsp % 4 == 0 && SRAM_BASE <= npsp && npsp + 36 <= SRAM_END
        }),
        old(cs).psp_from_addr != 0 ==> {
            &&& is_psp_slot_addr(old(cs).psp_from_addr)
            &&& old(cs).psp_from_addr != old(cs).psp_next_addr
            &&& old(scheduler).table()[slot_pid(old(cs).psp_from_addr)] is Some
            &&& old(cpu).psp % 4 == 0
            &&& SRAM_BASE + 36 <= old(cpu).psp
            &&& old(cpu).psp <= SRAM_END
        },
    ensures
        final(scheduler).wf(),
        final(sram).wf(),
        final(icsr).val() == old(icsr).val() & !0x1000_0000u32,
        *final(cs) == swap_spec(*old(cs)).1,
        switch_transition(
            *old(scheduler),
            *final(scheduler),
            *old(cpu),
            *final(cpu),
            *old(sram),
            *final(sram),
            old(cs).psp_next_addr,
            old(cs).psp_from_addr,
        ),
{
    let ghost before = icsr.val();
    icsr.clear_bit(28);
    proof {
        assert(before & !(1u32 << 28u32) == before & !0x1000_0000u32) by (bit_vector);
    }
    let addrs = cs.get_addr_and_swap();
    context_switch(scheduler, cpu, sram, addrs.0, addrs.1);
}

/// # SVCall exception
///
/// Reads the order the caller passed and dispatches on the request:
/// the semihosting requests exchange bytes with the debug host and
/// write the response back into the order; Yield disables the tick
/// timer, clears any pending SysTick (ICSR bit 25) and pends PendSV,
/// returning control to pid0 on exception exit.
#[allow(non_snake_case)]
pub fn SVCall(
    order: &mut SvcOrder,
    scheduler: &mut Scheduler,
    icsr: &mut Register,
    host: &mut Semihosting,
)
    requires
        old(scheduler).wf(),
        old(order).request is SemihostingReadC ==> old(host).input@.len() > 0,
    ensures
        final(scheduler).wf(),
        final(scheduler).table() == old(scheduler).table(),
        final(scheduler).current() == old(scheduler).current(),
        final(scheduler).sched_policy() == old(scheduler).sched_policy(),
        final(scheduler).cycle_index() == old(scheduler).cycle_index(),
        final(order).request == old(order).request,
        match old(order).request {
            SvcRequest::SemihostingWrite0(text) => {
                &&& final(order).response == SvcResult::Empty
                &&& final(host).output@ == old(host).output@ + cstr_prefix(text@)
                &&& final(host).input@ == old(host).input@
                &&& *final(icsr) == *old(icsr)
                &&& final(scheduler).timer_model() == old(scheduler).timer_model()
            },
            SvcRequest::SemihostingWriteC(c) => {
                &&& final(order).response == SvcResult::Empty
                &&& final(host).output@ == old(host).output@.push(c)
                &&& final(host).input@ == old(host).input@
                &&& *final(icsr) == *old(icsr)
                &&& final(scheduler).timer_model() == old(scheduler).timer_model()
            },
            SvcRequest::SemihostingReadC => {
                &&& final(order).response == SvcResult::Char(old(host).input@[0])
                &&& final(host).input@ == old(host).input@.drop_first()
                &&& final(host).output@ == old(host).output@
                &&& *final(icsr) == *old(icsr)
                &&& final(scheduler).timer_model() == old(scheduler).timer_model()
            },
            SvcRequest::Yield => {
                &&& final(order).response == old(order).response
                &&& final(scheduler).timer_model().stk_ctrl.val() == old(
                    scheduler,
                ).timer_model().stk_ctrl.val() & !1u32
                &&& final(scheduler).timer_model().stk_load == old(
                    scheduler,
                ).timer_model().stk_load
                &&& final(scheduler).timer_model().stk_val == old(scheduler).timer_model().stk_val
                &&& final(icsr).val() == (old(icsr).val() | 0x0200_0000u32) | 0x1000_0000u32
                &&& final(host).input@ == old(host).input@
                &&& final(host).output@ == old(host).output@
            },
        },
{
    match &order.request {
        SvcRequest::SemihostingWrite0(text) => {
            let mut index: usize = 0;
            while index < text.len() && text[index] != 0
                invariant
                    index <= text@.len(),
                    host.output@ == old(host).output@ + text@.take(index as int),
                    host.input@ == old(host).input@,
                    forall|j: int| 0 <= j < index ==> text@[j] != 0,
                decreases text@.len() - index,
            {
                let b = text[index];
                host.output.push(b);
                proof {
                    assert(host.output@ =~= old(host).output@ + text@.take(index + 1));
                }
                index = index + 1;
            }
            proof {
                lemma_cstr_prefix_take(text@, index as int);
            }
            order.response = SvcResult::Empty;
        },
        SvcRequest::SemihostingWriteC(c) => {
            let b = *c;
            host.output.push(b);
            order.response = SvcResult::Empty;
        },
        SvcRequest::SemihostingReadC => {
            let c = host.input.remove(0);
            proof {
                assert(host.input@ =~= old(host).input@.drop_first());
            }
            order.response = SvcResult::Char(c);
        },
        SvcRequest::Yield => {
            scheduler.disable_timed_context_switch();
            // clear any pending SysTick: PENDSTCLR, bit 25 of the ICSR
            let ghost before = icsr.val();
            icsr.set_bit(25);
            proof {
                assert(before | (1u32 << 25u32) == before | 0x0200_0000u32) by (bit_vector);
            }
            trigger_PendSV(icsr);
        },
    }
}

/// Yield returns to pid0: once the scheduler has dispatched a user
/// process, the swapped context-switch state holds pid0's psp-field
/// address as next; Yield pends PendSV without touching that state, so
/// the dispatch that follows jumps to pid0, the policy task.
pub proof fn lemma_yield_returns_to_pid0(cs: ContextSwitch)
    requires
        cs.psp_next_addr == psp_slot_addr_spec(0),
    ensures
        swap_spec(cs).0.0 == psp_slot_addr_spec(0),
{
}

} // verus!
