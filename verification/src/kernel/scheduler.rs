//! # Scheduler
//!
//! Processes are placed at the top of SRAM:
//!
//! ```text
//!     Memory model
//!   |     ...      |
//!   |  Peripheral  |
//!   |--------------| 0x4000_0000
//!   |     ...      |
//!   |              | <<<< msp <<<< | start main stack |
//!   |              |
//! | |              |
//! | |              | <<<< psp <<<< | Process stack 0 (pid0) | 0x2000_6000
//! | |     SRAM     |               | Process stack 1 (pid1) | 0x2000_5000
//! v*|              |               | Process stack 2 (pid2) | 0x2000_4000
//!   |              |               | Process stack 3 (pid3) | 0x2000_3000
//!   |              |               | ...
//!   |              | <<<<<<<<<<<<< | static variables |
//!   |--------------| 0x2000_0000
//!
//! *full descending stack
//! ```
//!
//! The scheduler owns the fixed table of process control blocks, creates
//! processes by synthesizing their initial stack frames, and prepares
//! context switches by writing the address of the incoming PCB's saved
//! stack pointer into the context-switch state. It is a process-wide
//! singleton, guarded by a one-shot taken flag passed in explicitly.

pub mod policies;

use self::policies::SchedulerPolicy;
use self::policies::rr_pick;
use crate::cp::stk::SystemTimer;
use crate::kernel::cs::ContextSwitch;
use crate::kernel::exceptions::trigger_PendSV;
use crate::kernel::sram::Sram;
use crate::kernel::sram::addr_in_range;
use crate::util::register::Register;
use vstd::prelude::*;

verus! {

/// Maximum allowed processes, the policy task pid0 included.
pub const ALLOWED_PROCESSES: usize = 5;

/// Starting address of processes (processes are stacked descending).
pub const PROCESS_BASE: u32 = 0x2000_6000;

/// The memory reserved for one process. This does not protect against
/// memory overflow.
pub const PROCESS_MEMORY_SIZE: u32 = 0x1000;

/// Address of the first PCB's saved-psp field: the scheduler lives in
/// kernel data on the main stack, above the process stack block, and its
/// five PCB psp fields sit at word offsets from this base.
pub const PCB_PSP_SLOT_BASE: u32 = 0x2000_9000;

/// Base address of the stack region of process `pid`.
pub open spec fn stack_base(pid: int) -> int {
    PROCESS_BASE - pid * PROCESS_MEMORY_SIZE
}

/// The saved process stack pointer a fresh process starts with: the
/// address of its exception frame's `r0` word, 64 bytes above the stack
/// base (seven alignment words plus r4..r11 and lr come first).
pub open spec fn initial_psp(pid: int) -> int {
    stack_base(pid) + 64
}

/// The address of the psp field inside the PCB of process `pid`.
pub open spec fn psp_slot_addr_spec(pid: int) -> int {
    PCB_PSP_SLOT_BASE + 4 * pid
}

/// Whether `addr` is the psp-field address of some PCB.
pub open spec fn is_psp_slot_addr(addr: u32) -> bool {
    PCB_PSP_SLOT_BASE <= addr < PCB_PSP_SLOT_BASE + 4 * ALLOWED_PROCESSES && (addr
        - PCB_PSP_SLOT_BASE) % 4 == 0
}

/// The pid whose PCB psp field lives at `addr`.
pub open spec fn slot_pid(addr: u32) -> int {
    (addr - PCB_PSP_SLOT_BASE) / 4
}

/// Word `j` (of 24) of the initial stack frame for entry point `entry`:
/// seven alignment words, then r4..r11 and lr of the load frame, then
/// the eight-word exception frame r0..r3, r12, lr, pc, xpsr.
pub open spec fn initial_frame_word(entry: u32, j: int) -> u32 {
    if j == 7 {
        0x3u32  // r4: initial CONTROL value for the first switch
    } else if j == 15 {
        0xffff_fffdu32  // lr: return to Thread mode using the psp
    } else if j == 22 {
        entry  // pc: the process entry point
    } else if j == 23 {
        0x0100_0000u32  // xpsr: Thumb bit set
    } else {
        0u32
    }
}

#[derive(Debug, PartialEq, Eq, Structural)]
pub enum SchedulerError {
    /// Process stack is completely occupied.
    ProcessStackFull,
    /// Process was not initialized.
    NotInitialized,
    /// Process is not available. (Index out of bounds)
    NotAvailable,
    /// Process is already running.
    AlreadyRunning,
}

#[derive(Clone, Copy, Debug, PartialEq, Eq, Structural)]
pub enum ProcessState {
    Ready,
    Running,
}

/// Every process has a process control block: the saved process stack
/// pointer (psp), the process id (pid), and the process state.
#[derive(Clone, Copy, Debug, PartialEq, Eq, Structural)]
pub struct ProcessControlBlock {
    pub psp: u32,
    pub pid: usize,
    pub state: ProcessState,
}

impl ProcessControlBlock {
    pub fn init(pid: usize, psp: u32, state: ProcessState) -> (pcb: ProcessControlBlock)
        ensures
            pcb == (ProcessControlBlock { pid, psp, state }),
    {
        ProcessControlBlock { pid, psp, state }
    }
}

/// The scheduler: the process table, the active policy, the current pid
/// and the system timer the policy programs.
pub struct Scheduler {
    processes: Vec<Option<ProcessControlBlock>>,
    policy: SchedulerPolicy,
    current_pid: Option<usize>,
    pub system_timer: SystemTimer,
    next_candidate: usize,
}

impl Scheduler {
    /// The process table, for specifications.
    pub closed spec fn table(self) -> Seq<Option<ProcessControlBlock>> {
        self.processes@
    }

    /// The pid of the process currently marked Running, if any.
    pub closed spec fn current(self) -> Option<usize> {
        self.current_pid
    }

    /// The configured scheduling policy.
    pub closed spec fn sched_policy(self) -> SchedulerPolicy {
        self.policy
    }

    /// The next candidate of the round-robin cycle 1..ALLOWED_PROCESSES.
    pub closed spec fn cycle_index(self) -> usize {
        self.next_candidate
    }

    /// The system timer the scheduler owns, for specifications.
    pub closed spec fn timer_model(self) -> SystemTimer {
        self.system_timer
    }

    /// Slot `i` holds a PCB in the Running state.
    pub open spec fn slot_running(self, i: int) -> bool {
        slot_is_running(self.table(), i)
    }

    /// Slot `pid` holds a PCB that a prepare-switch would accept.
    pub open spec fn switchable(self, pid: int) -> bool {
        &&& 0 <= pid < ALLOWED_PROCESSES
        &&& match self.table()[pid] {
            Some(pcb) => pcb.state == ProcessState::Ready,
            None => false,
        }
    }

    /// Every filled slot holds the PCB of its own pid.
    pub open spec fn pid_indexed(self) -> bool {
        forall|i: int|
            0 <= i < self.table().len() ==> match #[trigger] self.table()[i] {
                Some(pcb) => pcb.pid == i,
                None => true,
            }
    }

    /// At most one process is Running: exactly the current one when a
    /// process is current, none before the first dispatch.
    pub open spec fn running_ok(self) -> bool {
        match self.current() {
            Some(p) => {
                &&& (p as int) < ALLOWED_PROCESSES
                &&& self.slot_running(p as int)
                &&& forall|i: int|
                    0 <= i < ALLOWED_PROCESSES && i != p as int ==> !(
                    #[trigger] self.slot_running(i))
            },
            None => forall|i: int|
                0 <= i < ALLOWED_PROCESSES ==> !(#[trigger] self.slot_running(i)),
        }
    }

    /// The scheduler's invariant, established by `init` and preserved by
    /// every operation.
    pub open spec fn wf(self) -> bool {
        &&& self.table().len() == ALLOWED_PROCESSES
        &&& self.pid_indexed()
        &&& 1 <= self.cycle_index() < ALLOWED_PROCESSES
        &&& self.running_ok()
    }

    /// Whether an `init` call that finds the taken flag in the given
    /// state yields a scheduler.
    pub open spec fn init_succeeds(taken: bool) -> bool {
        !taken
    }

    /// Only the first call returns Some: the taken flag is a one-shot
    /// handoff of the process-wide scheduler singleton. Creates pid0,
    /// the policy task, bound to `pid0_entry`.
    pub fn init(
        taken: &mut bool,
        system_timer: SystemTimer,
        policy: SchedulerPolicy,
        sram: &mut Sram,
        pid0_entry: u32,
    ) -> (r: Option<Scheduler>)
        requires
            old(sram).wf(),
        ensures
            *final(taken),
            (r is Some) == Self::init_succeeds(*old(taken)),
            *old(taken) ==> r is None && *final(sram) == *old(sram),
            !*old(taken) ==> (r matches Some(s) && {
                &&& s.wf()
                &&& s.table()[0] == Some(
                    (ProcessControlBlock {
                        psp: initial_psp(0) as u32,
                        pid: 0usize,
                        state: ProcessState::Ready,
                    }),
                )
                &&& forall|i: int| 1 <= i < ALLOWED_PROCESSES ==> s.table()[i] is None
                &&& s.current() is None
                &&& s.cycle_index() == 1
                &&& s.sched_policy() == policy
                &&& s.timer_model() == system_timer
                &&& final(sram).wf()
                &&& forall|j: int|
                    0 <= j < 24 ==> #[trigger] final(sram).word_at(
                        (stack_base(0) + 4 * j) as u32,
                    ) == initial_frame_word(pid0_entry, j)
                &&& forall|a: u32|
                    addr_in_range(a) && !(stack_base(0) <= a < stack_base(0) + 96)
                        ==> #[trigger] final(sram).word_at(a) == old(sram).word_at(a)
            }),
    {
        if *taken {
            return None;
        }
        *taken = true;

        let mut processes: Vec<Option<ProcessControlBlock>> = Vec::new();
        let mut i: usize = 0;
        while i < ALLOWED_PROCESSES
            invariant
                i <= ALLOWED_PROCESSES,
                processes@.len() == i,
                forall|j: int| 0 <= j < i ==> processes@[j] is None,
            decreases ALLOWED_PROCESSES - i,
        {
            processes.push(None);
            i = i + 1;
        }

        let mut scheduler = Scheduler {
            processes,
            policy,
            current_pid: None,
            system_timer,
            next_candidate: 1,
        };

        let ghost pre = scheduler;
        let created = scheduler.create_process(sram, pid0_entry);
        proof {
            assert(pre.table()[1] is None);
            assert(created is Ok);
            let p = created->Ok_0;
            if p != 0 {
                assert(pre.table()[0] is Some);
            }
            assert(p == 0);
        }
        Some(scheduler)
    }

    /// All processes are created relative to [`PROCESS_BASE`], spaced by
    /// [`PROCESS_MEMORY_SIZE`]. Finds the lowest empty slot, synthesizes
    /// the initial stack frame in the process's stack region, and stores
    /// a Ready PCB whose psp is the address of the exception frame's
    /// `r0` word. Returns the new pid, or `ProcessStackFull` when every
    /// slot is occupied.
    pub fn create_process(&mut self, sram: &mut Sram, entry: u32) -> (r: Result<
        usize,
        SchedulerError,
    >)
        requires
            old(self).wf(),
            old(sram).wf(),
        ensures
            final(self).wf(),
            final(sram).wf(),
            create_transition(*old(self), *final(self), *old(sram), *final(sram), entry, r),
            r matches Ok(pid) ==> {
                let psp = initial_psp(pid as int);
                &&& psp % 8 == 0
                &&& final(sram).word_at((psp + 24) as u32) == entry
                &&& final(sram).word_at((psp + 28) as u32) == 0x0100_0000u32
                &&& final(self).table()[pid as int] matches Some(pcb) && pcb.psp == psp
            },
    {
        let mut pid: usize = 0;
        while pid < ALLOWED_PROCESSES && self.processes[pid].is_some()
            invariant
                old(self).wf(),
                *self == *old(self),
                pid <= ALLOWED_PROCESSES,
                forall|i: int| 0 <= i < pid ==> (#[trigger] self.table()[i]) is Some,
            decreases ALLOWED_PROCESSES - pid,
        {
            pid = pid + 1;
        }

        if pid == ALLOWED_PROCESSES {
            return Err(SchedulerError::ProcessStackFull);
        }

        let base: u32 = PROCESS_BASE - (pid as u32) * PROCESS_MEMORY_SIZE;
        proof {
            assert(base == stack_base(pid as int));
            assert(base % 4 == 0 && crate::kernel::sram::SRAM_BASE <= base && base + 96
                <= crate::kernel::sram::SRAM_END);
        }

        let frame = InitialStackFrame {
            load_stack: LoadStackFrame::default(),
            auto_stack: AutoStackFrame::default(entry),
        };
        proof {
            assert forall|k: int| 0 <= k < 24 implies #[trigger] frame_layout_word(frame, k)
                == initial_frame_word(entry, k) by {}
        }
        let mut j: u32 = 0;
        while j < 24
            invariant
                old(self).wf(),
                *self == *old(self),
                sram.wf(),
                j <= 24,
                pid < ALLOWED_PROCESSES,
                base == stack_base(pid as int),
                forall|k: int|
                    0 <= k < 24 ==> #[trigger] frame_layout_word(frame, k) == initial_frame_word(
                        entry,
                        k,
                    ),
                forall|k: int|
                    0 <= k < j ==> #[trigger] sram.word_at((base + 4 * k) as u32)
                        == initial_frame_word(entry, k),
                forall|a: u32|
                    addr_in_range(a) && !(base <= a < base + 96) ==> #[trigger] sram.word_at(a)
                        == old(sram).word_at(a),
            decreases 24 - j,
        {
            let w = frame.word(j);
            sram.write_word(base + 4 * j, w);
            j = j + 1;
        }

        let psp: u32 = base + 64;
        self.processes.set(pid, Some(ProcessControlBlock::init(pid, psp, ProcessState::Ready)));
        proof {
            assert((initial_psp(pid as int) + 24) as u32 == (base + 4 * 22) as u32);
            assert((initial_psp(pid as int) + 28) as u32 == (base + 4 * 23) as u32);
            assert(initial_psp(pid as int) % 8 == 0);
            let pre = *old(self);
            let post = *self;
            assert(pre.table()[pid as int] is None);
            assert forall|i: int| 0 <= i < ALLOWED_PROCESSES && i != pid as int implies
                post.slot_running(i) == pre.slot_running(i) by {}
            assert(!post.slot_running(pid as int));
            if pre.current() is Some {
                let c = pre.current()->Some_0;
                assert(pre.slot_running(c as int));
                assert(c != pid);
            }
            assert(post.pid_indexed()) by {
                assert forall|i: int| 0 <= i < post.table().len() implies (match #[trigger] post.table()[i] {
                    Some(pcb) => pcb.pid == i,
                    None => true,
                }) by {
                    assert(match pre.table()[i] {
                        Some(pcb) => pcb.pid == i,
                        None => true,
                    });
                }
            }
        }
        Ok(pid)
    }

    /// Prepares a context switch to `pid`: validates that the pid is in
    /// range, the slot holds a PCB and its state is Ready; marks it
    /// Running, writes the address of its psp field into the
    /// context-switch state, marks the previously current process Ready
    /// and records `pid` as current. Does not pend PendSV — the caller
    /// does.
    pub fn prepare_switch_to_pid(&mut self, cs: &mut ContextSwitch, pid: usize) -> (r: Result<
        (),
        SchedulerError,
    >)
        requires
            old(self).wf(),
        ensures
            final(self).wf(),
            final(self).sched_policy() == old(self).sched_policy(),
            final(self).cycle_index() == old(self).cycle_index(),
            final(self).timer_model() == old(self).timer_model(),
            prepare_transition(*old(self), *final(self), *old(cs), *final(cs), pid, r),
    {
        if pid >= ALLOWED_PROCESSES {
            return Err(SchedulerError::NotAvailable);
        }
        let psp_next_addr: u32;
        match self.processes[pid] {
            Some(next_pcb) => {
                match next_pcb.state {
                    ProcessState::Ready => {
                        let mut updated = next_pcb;
                        updated.state = ProcessState::Running;
                        self.processes.set(pid, Some(updated));
                        psp_next_addr = psp_slot_addr(pid);
                    },
                    ProcessState::Running => {
                        return Err(SchedulerError::AlreadyRunning);
                    },
                }
            },
            None => {
                return Err(SchedulerError::NotInitialized);
            },
        }
        cs.set_next_addr(psp_next_addr);

        proof {
            assert(old(self).switchable(pid as int));
            if old(self).current() is Some {
                let c = old(self).current()->Some_0;
                assert(old(self).slot_running(c as int));
                assert(c != pid);
                assert(old(self).table()[c as int] matches Some(pcb) && pcb.pid == c);
            }
        }
        if let Some(current_pid) = self.current_pid {
            let mut cur = self.processes[current_pid].unwrap();
            cur.state = ProcessState::Ready;
            self.processes.set(current_pid, Some(cur));
        }
        self.current_pid = Some(pid);

        proof {
            let pre = *old(self);
            let post = *self;
            assert forall|i: int| 0 <= i < ALLOWED_PROCESSES && i != pid as int implies !(
            post.slot_running(i)) by {
                assert(!pre.slot_running(i) || (pre.current() matches Some(c) && c == i));
            }
            assert(post.pid_indexed()) by {
                assert forall|i: int| 0 <= i < post.table().len() implies (match #[trigger] post.table()[i] {
                    Some(pcb) => pcb.pid == i,
                    None => true,
                }) by {
                    assert(match pre.table()[i] {
                        Some(pcb) => pcb.pid == i,
                        None => true,
                    });
                }
            }
        }
        Ok(())
    }

    /// Starts the scheduling of the created processes: prepares a switch
    /// to pid0, the policy task, and pends PendSV. On the device the
    /// call would then spin on the main stack, never to be resumed.
    pub fn start_scheduling(&mut self, cs: &mut ContextSwitch, icsr: &mut Register)
        requires
            old(self).wf(),
            old(self).switchable(0),
        ensures
            final(self).wf(),
            prepare_transition(
                *old(self),
                *final(self),
                *old(cs),
                *final(cs),
                0usize,
                Ok::<(), SchedulerError>(()),
            ),
            final(self).current() == Some(0usize),
            final(cs).psp_next_addr == psp_slot_addr_spec(0),
            final(icsr).val() == old(icsr).val() | 0x1000_0000u32,
    {
        let r = self.prepare_switch_to_pid(cs, 0);
        proof {
            assert(r is Ok);
            assert(r == Ok::<(), SchedulerError>(r->Ok_0));
        }
        trigger_PendSV(icsr);
    }

    /// One scheduling turn: starting from the cycle index, tries up to
    /// the four user pids in round-robin order with `prepare_switch_to_pid`,
    /// skipping every error; on the first success pends PendSV and
    /// returns the chosen pid. Returns None when no user process can be
    /// switched to, with the cycle back where it started.
    pub fn schedule(&mut self, cs: &mut ContextSwitch, icsr: &mut Register) -> (r: Option<usize>)
        requires
            old(self).wf(),
        ensures
            final(self).wf(),
            final(self).sched_policy() == old(self).sched_policy(),
            final(self).timer_model() == old(self).timer_model(),
            schedule_transition(*old(self), *final(self), *old(cs), *final(cs), *old(icsr), *final(icsr), r),
    {
        let ghost c0 = self.next_candidate as int;
        let mut attempts: usize = 0;
        while attempts < ALLOWED_PROCESSES - 1
            invariant
                old(self).wf(),
                self.wf(),
                attempts <= ALLOWED_PROCESSES - 1,
                c0 == old(self).cycle_index() as int,
                self.table() == old(self).table(),
                self.current() == old(self).current(),
                self.sched_policy() == old(self).sched_policy(),
                self.timer_model() == old(self).timer_model(),
                self.cycle_index() as int == rr_pick(c0, attempts as int),
                *cs == *old(cs),
                *icsr == *old(icsr),
                forall|j: int| 0 <= j < attempts ==> !old(self).switchable(rr_pick(c0, j)),
            decreases ALLOWED_PROCESSES - 1 - attempts,
        {
            let ghost before = *self;
            let pid = self.next_candidate;
            self.next_candidate = if pid >= ALLOWED_PROCESSES - 1 {
                1
            } else {
                pid + 1
            };
            proof {
                lemma_rr_step(c0, attempts as int);
                assert forall|i: int| 0 <= i < ALLOWED_PROCESSES implies (
                #[trigger] self.slot_running(i)) == before.slot_running(i) by {
                    assert(self.table() == before.table());
                }
                assert(self.wf());
            }
            let ghost mid = *self;
            let ghost cs_mid = *cs;
            match self.prepare_switch_to_pid(cs, pid) {
                Ok(()) => {
                    trigger_PendSV(icsr);
                    proof {
                        let k = attempts as int;
                        assert(pid as int == rr_pick(c0, k));
                        assert(mid.switchable(pid as int));
                        assert(old(self).switchable(pid as int));
                        assert(exists|k: int|
                            0 <= k < 4 && old(self).switchable(
                                #[trigger] rr_pick(old(self).cycle_index() as int, k),
                            ));
                        assert(prepare_transition(
                            mid,
                            *self,
                            cs_mid,
                            *cs,
                            pid,
                            Ok::<(), SchedulerError>(()),
                        ));
                        assert(mid.table() == old(self).table() && mid.current() == old(
                            self,
                        ).current());
                        assert(prepare_transition(
                            *old(self),
                            *self,
                            *old(cs),
                            *cs,
                            pid,
                            Ok::<(), SchedulerError>(()),
                        ));
                    }
                    return Some(pid);
                },
                Err(_) => {},
            }
            attempts = attempts + 1;
        }
        None
    }

    /// Programs the tick timer in the manual's sequence: reload value,
    /// clear current value, tick interrupt on, counter on.
    pub fn configure_timer(&mut self, reload: u32)
        requires
            old(self).wf(),
            reload <= crate::cp::stk::STK_RELOAD_MAX,
        ensures
            final(self).wf(),
            final(self).table() == old(self).table(),
            final(self).current() == old(self).current(),
            final(self).sched_policy() == old(self).sched_policy(),
            final(self).cycle_index() == old(self).cycle_index(),
            final(self).timer_model().stk_load.val() == (old(self).timer_model().stk_load.val()
                & 0x8000_0000u32) | reload,
            final(self).timer_model().stk_val.val() == old(self).timer_model().stk_val.val()
                | 1u32,
            final(self).timer_model().stk_ctrl.val() == ((old(self).timer_model().stk_ctrl.val()
                & !2u32) | 2u32) | 1u32,
            final(self).timer_model().stk_calib == old(self).timer_model().stk_calib,
    {
        self.system_timer.set_reload(reload);
        self.system_timer.clear_val();
        self.system_timer.tickint(true);
        self.system_timer.enable();
        proof {
            assert forall|i: int| 0 <= i < ALLOWED_PROCESSES implies self.slot_running(i) == old(
                self,
            ).slot_running(i) by {}
        }
    }

    /// Disables the tick timer, ending timed preemption until the policy
    /// task programs the timer again on its next turn.
    pub fn disable_timed_context_switch(&mut self)
        requires
            old(self).wf(),
        ensures
            final(self).wf(),
            final(self).table() == old(self).table(),
            final(self).current() == old(self).current(),
            final(self).sched_policy() == old(self).sched_policy(),
            final(self).cycle_index() == old(self).cycle_index(),
            final(self).timer_model().stk_ctrl.val() == old(self).timer_model().stk_ctrl.val()
                & !1u32,
            final(self).timer_model().stk_load == old(self).timer_model().stk_load,
            final(self).timer_model().stk_val == old(self).timer_model().stk_val,
            final(self).timer_model().stk_calib == old(self).timer_model().stk_calib,
    {
        self.system_timer.disable();
        proof {
            assert forall|i: int| 0 <= i < ALLOWED_PROCESSES implies self.slot_running(i) == old(
                self,
            ).slot_running(i) by {}
        }
    }

    /// The PCB of the currently running process, or None when no process
    /// was ever dispatched.
    pub fn get_current_process(&self) -> (r: Option<ProcessControlBlock>)
        requires
            self.wf(),
        ensures
            match self.current() {
                Some(p) => r == self.table()[p as int],
                None => r is None,
            },
    {
        match self.current_pid {
            Some(p) => self.processes[p],
            None => None,
        }
    }

    /// The pid of the currently running process.
    pub fn current_pid(&self) -> (r: Option<usize>)
        ensures
            r == self.current(),
    {
        self.current_pid
    }

    /// The PCB in slot `pid`.
    pub fn pcb(&self, pid: usize) -> (r: Option<ProcessControlBlock>)
        requires
            self.wf(),
            pid < ALLOWED_PROCESSES,
        ensures
            r == self.table()[pid as int],
    {
        self.processes[pid]
    }

    /// The saved psp of the PCB in slot `pid`: what the context-switch
    /// primitive reads through the PCB's psp-field address.
    pub fn pcb_psp(&self, pid: usize) -> (r: u32)
        requires
            self.wf(),
            pid < ALLOWED_PROCESSES,
            self.table()[pid as int] is Some,
        ensures
            r == self.table()[pid as int]->Some_0.psp,
    {
        self.processes[pid].unwrap().psp
    }

    /// Stores a new saved psp into the PCB in slot `pid`: what the
    /// context-switch primitive's write through the PCB's psp-field
    /// address comes to.
    pub fn store_psp(&mut self, pid: usize, psp: u32)
        requires
            old(self).wf(),
            pid < ALLOWED_PROCESSES,
            old(self).table()[pid as int] is Some,
        ensures
            final(self).wf(),
            final(self).table() == old(self).table().update(
                pid as int,
                Some(
                    (ProcessControlBlock {
                        psp,
                        pid: old(self).table()[pid as int]->Some_0.pid,
                        state: old(self).table()[pid as int]->Some_0.state,
                    }),
                ),
            ),
            final(self).current() == old(self).current(),
            final(self).sched_policy() == old(self).sched_policy(),
            final(self).cycle_index() == old(self).cycle_index(),
            final(self).timer_model() == old(self).timer_model(),
    {
        let mut pcb = self.processes[pid].unwrap();
        pcb.psp = psp;
        self.processes.set(pid, Some(pcb));
        proof {
            assert forall|i: int| 0 <= i < ALLOWED_PROCESSES implies self.slot_running(i) == old(
                self,
            ).slot_running(i) by {}
        }
    }
}

/// The address of the psp field inside the PCB of process `pid`.
pub fn psp_slot_addr(pid: usize) -> (r: u32)
    requires
        pid < ALLOWED_PROCESSES,
    ensures
        r == psp_slot_addr_spec(pid as int),
{
    PCB_PSP_SLOT_BASE + 4 * (pid as u32)
}

/// The initial stack frame of a fresh process. The first context switch
/// into the process unwinds it in two layers: the load frame, popped by
/// the context-switch primitive, and below it the exception frame,
/// popped by the hardware on exception return. `create_process` lays the
/// frame down word by word at the base of the process's stack region.
pub struct InitialStackFrame {
    pub load_stack: LoadStackFrame,
    pub auto_stack: AutoStackFrame,
}

/// The load frame: loaded manually when the first context switch into
/// the process occurs. In memory a seven-word alignment buffer precedes
/// these registers, so that the eight-byte-aligned exception frame
/// follows directly.
pub struct LoadStackFrame {
    pub r4: u32,
    pub r5: u32,
    pub r6: u32,
    pub r7: u32,
    pub r8: u32,
    pub r9: u32,
    pub r10: u32,
    pub r11: u32,
    pub lr: u32,
}

impl LoadStackFrame {
    /// The load frame of a fresh process: r4 carries the initial CONTROL
    /// value for the first switch, lr the exception-return code that
    /// selects Thread mode on the process stack pointer.
    pub fn default() -> (f: LoadStackFrame)
        ensures
            f == (LoadStackFrame {
                r4: 0x3u32,
                r5: 0u32,
                r6: 0u32,
                r7: 0u32,
                r8: 0u32,
                r9: 0u32,
                r10: 0u32,
                r11: 0u32,
                lr: 0xffff_fffdu32,
            }),
    {
        LoadStackFrame {
            r4: 0x3,
            r5: 0,
            r6: 0,
            r7: 0,
            r8: 0,
            r9: 0,
            r10: 0,
            r11: 0,
            lr: 0xffff_fffd,
        }
    }
}

/// The exception frame (auto stack frame): read automatically by the
/// processor when the first context switch into the process occurs.
/// Afterwards the processor stacks one itself on each exception. It must
/// be eight-byte aligned; pc initially holds the process entry point and
/// xpsr the Thumb bit.
pub struct AutoStackFrame {
    pub r0: u32,
    pub r1: u32,
    pub r2: u32,
    pub r3: u32,
    pub r12: u32,
    pub lr: u32,
    pub pc: u32,
    pub xpsr: u32,
}

impl AutoStackFrame {
    /// The exception frame of a fresh process entering at `init_fn`.
    pub fn default(init_fn: u32) -> (f: AutoStackFrame)
        ensures
            f == (AutoStackFrame {
                r0: 0u32,
                r1: 0u32,
                r2: 0u32,
                r3: 0u32,
                r12: 0u32,
                lr: 0u32,
                pc: init_fn,
                xpsr: 0x0100_0000u32,
            }),
    {
        AutoStackFrame { r0: 0, r1: 0, r2: 0, r3: 0, r12: 0, lr: 0, pc: init_fn, xpsr: 0x0100_0000 }
    }
}

/// Word `j` of an initial stack frame as it lies in memory: seven
/// alignment words, the load frame, then the exception frame.
pub open spec fn frame_layout_word(f: InitialStackFrame, j: int) -> u32 {
    if j < 7 {
        0u32
    } else if j == 7 {
        f.load_stack.r4
    } else if j == 8 {
        f.load_stack.r5
    } else if j == 9 {
        f.load_stack.r6
    } else if j == 10 {
        f.load_stack.r7
    } else if j == 11 {
        f.load_stack.r8
    } else if j == 12 {
        f.load_stack.r9
    } else if j == 13 {
        f.load_stack.r10
    } else if j == 14 {
        f.load_stack.r11
    } else if j == 15 {
        f.load_stack.lr
    } else if j == 16 {
        f.auto_stack.r0
    } else if j == 17 {
        f.auto_stack.r1
    } else if j == 18 {
        f.auto_stack.r2
    } else if j == 19 {
        f.auto_stack.r3
    } else if j == 20 {
        f.auto_stack.r12
    } else if j == 21 {
        f.auto_stack.lr
    } else if j == 22 {
        f.auto_stack.pc
    } else {
        f.auto_stack.xpsr
    }
}

impl InitialStackFrame {
    /// Word `j` of this frame in memory layout order.
    pub fn word(&self, j: u32) -> (r: u32)
        requires
            j < 24,
        ensures
            r == frame_layout_word(*self, j as int),
    {
        if j < 7 {
            0
        } else if j == 7 {
            self.load_stack.r4
        } else if j == 8 {
            self.load_stack.r5
        } else if j == 9 {
            self.load_stack.r6
        } else if j == 10 {
            self.load_stack.r7
        } else if j == 11 {
            self.load_stack.r8
        } else if j == 12 {
            self.load_stack.r9
        } else if j == 13 {
            self.load_stack.r10
        } else if j == 14 {
            self.load_stack.r11
        } else if j == 15 {
            self.load_stack.lr
        } else if j == 16 {
            self.auto_stack.r0
        } else if j == 17 {
            self.auto_stack.r1
        } else if j == 18 {
            self.auto_stack.r2
        } else if j == 19 {
            self.auto_stack.r3
        } else if j == 20 {
            self.auto_stack.r12
        } else if j == 21 {
            self.auto_stack.lr
        } else if j == 22 {
            self.auto_stack.pc
        } else {
            self.auto_stack.xpsr
        }
    }
}

/// The relation `create_process` establishes between the scheduler and
/// the stack memory before and after a call with entry `entry` that
/// returned `r`.
pub open spec fn create_transition(
    pre: Scheduler,
    post: Scheduler,
    pre_m: Sram,
    post_m: Sram,
    entry: u32,
    r: Result<usize, SchedulerError>,
) -> bool {
    &&& post.current() == pre.current()
    &&& post.sched_policy() == pre.sched_policy()
    &&& post.cycle_index() == pre.cycle_index()
    &&& post.timer_model() == pre.timer_model()
    &&& ((r is Err) <==> (forall|i: int|
        0 <= i < ALLOWED_PROCESSES ==> (#[trigger] pre.table()[i]) is Some))
    &&& (r is Err ==> r == Err::<usize, SchedulerError>(SchedulerError::ProcessStackFull) && post
        == pre && post_m == pre_m)
    &&& (r matches Ok(pid) ==> {
        &&& pid < ALLOWED_PROCESSES
        &&& pre.table()[pid as int] is None
        &&& (forall|i: int| 0 <= i < pid ==> (#[trigger] pre.table()[i]) is Some)
        &&& post.table() == pre.table().update(
            pid as int,
            Some(
                (ProcessControlBlock {
                    psp: initial_psp(pid as int) as u32,
                    pid: pid,
                    state: ProcessState::Ready,
                }),
            ),
        )
        &&& (forall|j: int|
            0 <= j < 24 ==> #[trigger] post_m.word_at((stack_base(pid as int) + 4 * j) as u32)
                == initial_frame_word(entry, j))
        &&& (forall|a: u32|
            addr_in_range(a) && !(stack_base(pid as int) <= a < stack_base(pid as int) + 96)
                ==> #[trigger] post_m.word_at(a) == pre_m.word_at(a))
    })
}

/// The relation `prepare_switch_to_pid` establishes between the
/// scheduler and the context-switch state before and after a call for
/// `pid` that returned `r`.
pub open spec fn prepare_transition(
    pre: Scheduler,
    post: Scheduler,
    pre_cs: ContextSwitch,
    post_cs: ContextSwitch,
    pid: usize,
    r: Result<(), SchedulerError>,
) -> bool {
    &&& post_cs.psp_from_addr == pre_cs.psp_from_addr
    &&& ((r is Ok) <==> pre.switchable(pid as int))
    &&& (pid >= ALLOWED_PROCESSES ==> r == Err::<(), SchedulerError>(SchedulerError::NotAvailable))
    &&& (pid < ALLOWED_PROCESSES && pre.table()[pid as int] is None ==> r == Err::<
        (),
        SchedulerError,
    >(SchedulerError::NotInitialized))
    &&& (pid < ALLOWED_PROCESSES && pre.slot_running(pid as int) ==> r == Err::<
        (),
        SchedulerError,
    >(SchedulerError::AlreadyRunning))
    &&& (r is Err ==> post == pre && post_cs == pre_cs)
    &&& (r is Ok ==> {
        &&& post.current() == Some(pid)
        &&& post.slot_running(pid as int)
        &&& (forall|i: int|
            0 <= i < ALLOWED_PROCESSES && i != pid ==> !(#[trigger] post.slot_running(i)))
        &&& post_cs.psp_next_addr == psp_slot_addr_spec(pid as int)
        &&& ({
            let run = Some(
                (ProcessControlBlock {
                    psp: pre.table()[pid as int]->Some_0.psp,
                    pid: pid,
                    state: ProcessState::Running,
                }),
            );
            match pre.current() {
                Some(c) => post.table() == pre.table().update(pid as int, run).update(
                    c as int,
                    Some(
                        (ProcessControlBlock {
                            psp: pre.table()[c as int]->Some_0.psp,
                            pid: c,
                            state: ProcessState::Ready,
                        }),
                    ),
                ),
                None => post.table() == pre.table().update(pid as int, run),
            }
        })
    })
}

/// The relation one `schedule` turn establishes: the first ready
/// candidate in cyclic order 1, 2, 3, 4 from the cycle index is switched
/// to and PendSV is pended; when none is ready, nothing changes.
pub open spec fn schedule_transition(
    pre: Scheduler,
    post: Scheduler,
    pre_cs: ContextSwitch,
    post_cs: ContextSwitch,
    pre_icsr: Register,
    post_icsr: Register,
    r: Option<usize>,
) -> bool {
    &&& ((r is Some) <==> exists|k: int|
        0 <= k < 4 && pre.switchable(#[trigger] rr_pick(pre.cycle_index() as int, k)))
    &&& (r matches Some(pid) ==> exists|k: int|
        {
            &&& 0 <= k < 4
            &&& pid as int == #[trigger] rr_pick(pre.cycle_index() as int, k)
            &&& pre.switchable(pid as int)
            &&& (forall|j: int|
                0 <= j < k ==> !pre.switchable(#[trigger] rr_pick(pre.cycle_index() as int, j)))
            &&& post.cycle_index() as int == rr_pick(pre.cycle_index() as int, k + 1)
            &&& prepare_transition(pre, post, pre_cs, post_cs, pid, Ok::<(), SchedulerError>(()))
            &&& post_icsr.val() == pre_icsr.val() | 0x1000_0000u32
        })
    &&& (r is None ==> {
        &&& post.table() == pre.table()
        &&& post.current() == pre.current()
        &&& post.cycle_index() == pre.cycle_index()
        &&& post_cs == pre_cs
        &&& post_icsr == pre_icsr
    })
}

/// Slot `i` of a process table holds a PCB in the Running state.
pub open spec fn slot_is_running(t: Seq<Option<ProcessControlBlock>>, i: int) -> bool {
    match t[i] {
        Some(pcb) => pcb.state == ProcessState::Running,
        None => false,
    }
}

/// The count of Running PCBs among the first `n` table slots.
pub open spec fn running_count(t: Seq<Option<ProcessControlBlock>>, n: int) -> int
    decreases n,
{
    if n <= 0 {
        0
    } else {
        running_count(t, n - 1) + (if slot_is_running(t, n - 1) {
            1int
        } else {
            0int
        })
    }
}

/// At-most-one-running: a well-formed scheduler has exactly one Running
/// PCB whenever a process is current — so after every successful
/// prepare-switch, which makes its pid current and preserves
/// well-formedness, exactly one PCB is Running — and none before the
/// first dispatch.
pub proof fn lemma_at_most_one_running(s: Scheduler)
    requires
        s.wf(),
    ensures
        s.current() is Some ==> running_count(s.table(), ALLOWED_PROCESSES as int) == 1,
        s.current() is None ==> running_count(s.table(), ALLOWED_PROCESSES as int) == 0,
{
    let t = s.table();
    reveal_with_fuel(running_count, 6);
    match s.current() {
        Some(p) => {
            assert forall|i: int| 0 <= i < ALLOWED_PROCESSES && i != p as int implies !slot_is_running(
                t,
                i,
            ) by {
                assert(!s.slot_running(i));
            }
            assert(slot_is_running(t, p as int)) by {
                assert(s.slot_running(p as int));
            }
            assert(running_count(t, ALLOWED_PROCESSES as int) == 1);
        },
        None => {
            assert forall|i: int| 0 <= i < ALLOWED_PROCESSES implies !slot_is_running(t, i) by {
                assert(!s.slot_running(i));
            }
            assert(running_count(t, ALLOWED_PROCESSES as int) == 0);
        },
    }
}

/// Singleton: every `init` call leaves the taken flag set, and a call
/// that finds the flag set cannot succeed — after one success, a second
/// `Scheduler::init` returns None.
pub proof fn lemma_scheduler_singleton()
    ensures
        !Scheduler::init_succeeds(true),
{
}

/// Capacity: from a freshly initialized scheduler, whose table holds
/// pid0 alone, four creations succeed and are assigned pids 1 to 4; the
/// fifth returns ProcessStackFull.
pub proof fn lemma_capacity(
    s0: Scheduler,
    s1: Scheduler,
    s2: Scheduler,
    s3: Scheduler,
    s4: Scheduler,
    s5: Scheduler,
    m0: Sram,
    m1: Sram,
    m2: Sram,
    m3: Sram,
    m4: Sram,
    m5: Sram,
    e1: u32,
    e2: u32,
    e3: u32,
    e4: u32,
    e5: u32,
    r1: Result<usize, SchedulerError>,
    r2: Result<usize, SchedulerError>,
    r3: Result<usize, SchedulerError>,
    r4: Result<usize, SchedulerError>,
    r5: Result<usize, SchedulerError>,
)
    requires
        s0.table().len() == ALLOWED_PROCESSES,
        s0.table()[0] is Some,
        forall|i: int| 1 <= i < ALLOWED_PROCESSES ==> s0.table()[i] is None,
        create_transition(s0, s1, m0, m1, e1, r1),
        create_transition(s1, s2, m1, m2, e2, r2),
        create_transition(s2, s3, m2, m3, e3, r3),
        create_transition(s3, s4, m3, m4, e4, r4),
        create_transition(s4, s5, m4, m5, e5, r5),
    ensures
        r1 == Ok::<usize, SchedulerError>(1usize),
        r2 == Ok::<usize, SchedulerError>(2usize),
        r3 == Ok::<usize, SchedulerError>(3usize),
        r4 == Ok::<usize, SchedulerError>(4usize),
        r5 == Err::<usize, SchedulerError>(SchedulerError::ProcessStackFull),
{
    assert(s0.table()[1] is None);
    assert(r1 is Ok);
    let p1 = r1->Ok_0;
    if p1 != 0 && p1 != 1 {
        assert(s0.table()[1] is Some);
    }
    assert(p1 == 1);

    assert(s1.table()[2] is None);
    assert(r2 is Ok);
    let p2 = r2->Ok_0;
    if p2 != 2 {
        if (p2 as int) < 2 {
            assert(s1.table()[p2 as int] is Some);
        } else {
            assert(s1.table()[2] is Some);
        }
    }
    assert(p2 == 2);

    assert(s2.table()[3] is None);
    assert(r3 is Ok);
    let p3 = r3->Ok_0;
    if p3 != 3 {
        if (p3 as int) < 3 {
            assert(s2.table()[p3 as int] is Some);
        } else {
            assert(s2.table()[3] is Some);
        }
    }
    assert(p3 == 3);

    assert(s3.table()[4] is None);
    assert(r4 is Ok);
    let p4 = r4->Ok_0;
    if p4 != 4 {
        if (p4 as int) < 4 {
            assert(s3.table()[p4 as int] is Some);
        } else {
            assert(s3.table()[4] is Some);
        }
    }
    assert(p4 == 4);

    assert(forall|i: int| 0 <= i < ALLOWED_PROCESSES ==> (#[trigger] s4.table()[i]) is Some);
}

/// Stack independence: the stack regions of two distinct processes are
/// disjoint address ranges, so what one process stores in its region no
/// other process's stores can change.
pub proof fn lemma_stack_regions_disjoint(j: int, k: int)
    requires
        0 <= j < k < ALLOWED_PROCESSES,
    ensures
        stack_base(k) + PROCESS_MEMORY_SIZE <= stack_base(j),
{
}

/// Advancing the round-robin cycle: the candidate after the one at
/// attempt `k` is the one at attempt `k + 1`.
proof fn lemma_rr_step(c0: int, k: int)
    requires
        1 <= c0 <= 4,
        k >= 0,
    ensures
        rr_pick(c0, k) < 4 ==> rr_pick(c0, k + 1) == rr_pick(c0, k) + 1,
        rr_pick(c0, k) == 4 ==> rr_pick(c0, k + 1) == 1,
        1 <= rr_pick(c0, k) <= 4,
{
    let q = c0 - 1 + k;
    assert(q % 4 == (q + 1 - 1) % 4);
    assert((q + 1) % 4 == if q % 4 == 3 {
        0int
    } else {
        q % 4 + 1
    }) by (nonlinear_arith)
        requires
            q >= 0,
    ;
}

} // verus!
