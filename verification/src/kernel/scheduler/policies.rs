//! # Policies
//!
//! ## RoundRobin
//!
//! Between each user process turn the policy task pid0 runs and selects
//! the next process to be scheduled:
//!
//! ```text
//!  pid
//! curr  0      1      0      2      0      3      0
//! next  1      0      2      0      3      0      ...
//!
//!    0  *             *             *             *
//!    1         *
//!    2                       *
//!    3                                     *
//! etc.
//!       m      t      m      t      m      t      m
//!       |______|______|______|______|______|______|_... -> time axis
//!
//! PendSV trigger:
//! m = triggered manually
//! t = triggered from timer
//! ```

use super::ALLOWED_PROCESSES;
use super::Scheduler;
use super::psp_slot_addr;
use super::psp_slot_addr_spec;
use super::schedule_transition;
use crate::cp::stk::STK_RELOAD_MAX;
use crate::kernel::cs::ContextSwitch;
use crate::util::register::Register;
use vstd::prelude::*;

verus! {

/// Minimum switch rate in clock cycles, ensuring the scheduler does not
/// jump back too early.
pub const SWITCH_RATE_CC_MIN: u32 = 0x50;

#[derive(Clone, Copy, Debug)]
pub enum SchedulerPolicy {
    /// RoundRobin with an optional custom context-switch rate in clock
    /// cycles. Accepted between [`SWITCH_RATE_CC_MIN`] and
    /// [`STK_RELOAD_MAX`]; the default is [`SWITCH_RATE_CC_MIN`].
    RoundRobin(Option<u32>),
}

/// The tick reload value a policy comes to: the custom rate when it lies
/// within bounds, the default otherwise.
pub open spec fn effective_reload(p: SchedulerPolicy) -> u32 {
    match p {
        SchedulerPolicy::RoundRobin(custom) => match custom {
            Some(cc) => if SWITCH_RATE_CC_MIN <= cc <= STK_RELOAD_MAX {
                cc
            } else {
                SWITCH_RATE_CC_MIN
            },
            None => SWITCH_RATE_CC_MIN,
        },
    }
}

/// The pid the round-robin cycle visits at turn `j` when starting from
/// cycle index `c0`: the user pids 1, 2, 3, 4, 1, 2, ... in order.
pub open spec fn rr_pick(c0: int, j: int) -> int {
    1 + ((c0 - 1 + j) % (ALLOWED_PROCESSES - 1))
}

/// How many of the first `m` turns of the cycle starting at `c0` visit
/// pid `p`.
pub open spec fn rr_count(c0: int, m: nat, p: int) -> int
    decreases m,
{
    if m == 0 {
        0
    } else {
        rr_count(c0, (m - 1) as nat, p) + if rr_pick(c0, m - 1) == p {
            1int
        } else {
            0int
        }
    }
}

/// The policy task's state: whether its first turn has programmed the
/// tick timer yet.
pub struct Policy {
    timer_started: bool,
}

impl Policy {
    /// Whether the tick timer has been programmed.
    pub closed spec fn started(self) -> bool {
        self.timer_started
    }

    /// Captures pid0's PCB as the initial outgoing process in the
    /// context-switch state, so that the first preemption correctly
    /// saves the policy task's context.
    pub fn init(scheduler: &Scheduler, cs: &mut ContextSwitch) -> (p: Policy)
        requires
            scheduler.wf(),
            scheduler.table()[0] is Some,
        ensures
            final(cs).psp_from_addr == psp_slot_addr_spec(0),
            final(cs).psp_next_addr == old(cs).psp_next_addr,
            !p.started(),
    {
        cs.set_from_addr(psp_slot_addr(0));
        Policy { timer_started: false }
    }

    /// One turn of the policy task pid0. The first turn programs the
    /// tick timer — reload value, clear current value, tick interrupt
    /// on, counter on. Every turn then advances the round-robin cycle:
    /// the first ready pid is switched to and PendSV pended; errors are
    /// skipped.
    pub fn schedule(
        &mut self,
        scheduler: &mut Scheduler,
        cs: &mut ContextSwitch,
        icsr: &mut Register,
    ) -> (r: Option<usize>)
        requires
            old(scheduler).wf(),
        ensures
            final(self).started(),
            final(scheduler).wf(),
            final(scheduler).sched_policy() == old(scheduler).sched_policy(),
            !old(self).started() ==> ({
                let reload = effective_reload(old(scheduler).sched_policy());
                let timer = old(scheduler).timer_model();
                &&& final(scheduler).timer_model().stk_load.val() == (timer.stk_load.val()
                    & 0x8000_0000u32) | reload
                &&& final(scheduler).timer_model().stk_val.val() == timer.stk_val.val() | 1u32
                &&& final(scheduler).timer_model().stk_ctrl.val() == ((timer.stk_ctrl.val() & !2u32)
                    | 2u32) | 1u32
            }),
            old(self).started() ==> final(scheduler).timer_model() == old(
                scheduler,
            ).timer_model(),
            schedule_transition(
                *old(scheduler),
                *final(scheduler),
                *old(cs),
                *final(cs),
                *old(icsr),
                *final(icsr),
                r,
            ),
    {
        if !self.timer_started {
            let reload_val = match scheduler.policy {
                SchedulerPolicy::RoundRobin(custom) => match custom {
                    Some(cc) => if SWITCH_RATE_CC_MIN <= cc && cc <= STK_RELOAD_MAX {
                        cc
                    } else {
                        SWITCH_RATE_CC_MIN
                    },
                    None => SWITCH_RATE_CC_MIN,
                },
            };
            scheduler.configure_timer(reload_val);
            self.timer_started = true;
        }
        scheduler.schedule(cs, icsr)
    }
}

/// One full block of the cycle visits pid `p` exactly once more.
proof fn lemma_rr_block(c0: int, m: nat, p: int)
    requires
        1 <= c0 <= 4,
        1 <= p <= 4,
    ensures
        rr_count(c0, m + 4, p) == rr_count(c0, m as nat, p) + 1,
{
    reveal_with_fuel(rr_count, 5);
    let q = c0 - 1 + m;
    assert(q >= 0);
    let rq = q % 4;
    assert(0 <= rq < 4) by (nonlinear_arith)
        requires
            q >= 0 && rq == q % 4,
    ;
    assert((q + 1) % 4 == (rq + 1) % 4 && (q + 2) % 4 == (rq + 2) % 4 && (q + 3) % 4 == (rq
        + 3) % 4) by (nonlinear_arith)
        requires
            q >= 0 && rq == q % 4,
    ;
    if rq == 0 {
        assert((rq + 1) % 4 == 1 && (rq + 2) % 4 == 2 && (rq + 3) % 4 == 3);
    } else if rq == 1 {
        assert((rq + 1) % 4 == 2 && (rq + 2) % 4 == 3 && (rq + 3) % 4 == 0);
    } else if rq == 2 {
        assert((rq + 1) % 4 == 3 && (rq + 2) % 4 == 0 && (rq + 3) % 4 == 1);
    } else {
        assert((rq + 1) % 4 == 0 && (rq + 2) % 4 == 1 && (rq + 3) % 4 == 2);
    }
}

/// Round-robin fairness: over any `4 * k` consecutive turns of the
/// cycle, each user pid (1 to 4) is visited exactly `k` times — so over
/// `k * (ALLOWED_PROCESSES - 1)` tick events in the steady state, each
/// user process is made current exactly `k` times.
pub proof fn lemma_round_robin_fairness(c0: int, k: nat, p: int)
    requires
        1 <= c0 <= 4,
        1 <= p <= 4,
    ensures
        rr_count(c0, 4 * k, p) == k,
    decreases k,
{
    if k == 0 {
        assert(rr_count(c0, 0, p) == 0);
    } else {
        lemma_round_robin_fairness(c0, (k - 1) as nat, p);
        lemma_rr_block(c0, (4 * (k - 1)) as nat, p);
        assert(4 * k == 4 * (k - 1) + 4);
    }
}

} // verus!
