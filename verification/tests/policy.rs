//! The round-robin policy: timer programming, reload bounds, the cycle
//! order and its fairness.

use lake_rtos::cp::CorePeripherals;
use lake_rtos::cp::stk::SystemTimer;
use lake_rtos::kernel::cs::ContextSwitch;
use lake_rtos::kernel::scheduler::ProcessState;
use lake_rtos::kernel::scheduler::Scheduler;
use lake_rtos::kernel::scheduler::policies::Policy;
use lake_rtos::kernel::scheduler::policies::SchedulerPolicy;
use lake_rtos::kernel::scheduler::psp_slot_addr;
use lake_rtos::kernel::sram::Sram;
use lake_rtos::util::register::Register;

const PID0_ENTRY: u32 = 0x0800_0041;
const TASK_ENTRY: u32 = 0x0800_1001;

fn fresh_timer() -> SystemTimer {
    let mut flag = false;
    let mut cp = CorePeripherals::take(&mut flag).unwrap();
    cp.take_system_timer().unwrap()
}

fn boot(policy: SchedulerPolicy, user_tasks: usize) -> (Scheduler, Sram, ContextSwitch, Register) {
    let mut taken = false;
    let mut sram = Sram::new();
    let mut sched =
        Scheduler::init(&mut taken, fresh_timer(), policy, &mut sram, PID0_ENTRY).unwrap();
    for _ in 0..user_tasks {
        sched.create_process(&mut sram, TASK_ENTRY).unwrap();
    }
    let mut cs = ContextSwitch::new();
    let mut icsr = Register::new(0);
    sched.start_scheduling(&mut cs, &mut icsr);
    (sched, sram, cs, icsr)
}

#[test]
fn first_turn_programs_the_timer() {
    let (mut sched, _sram, mut cs, mut icsr) =
        boot(SchedulerPolicy::RoundRobin(Some(0x1f40)), 4);
    let mut policy = Policy::init(&sched, &mut cs);
    assert_eq!(cs.psp_from_addr, psp_slot_addr(0));
    let picked = policy.schedule(&mut sched, &mut cs, &mut icsr);
    assert_eq!(picked, Some(1));
    // the custom rate went into the reload register; interrupt and
    // counter are enabled
    assert_eq!(sched.system_timer.stk_load.get(), 0x1f40);
    assert_eq!(sched.system_timer.stk_ctrl.get() & 0b11, 0b11);
}

#[test]
fn reload_rates_outside_bounds_fall_back_to_the_minimum() {
    // too small
    let (mut sched, _sram, mut cs, mut icsr) = boot(SchedulerPolicy::RoundRobin(Some(0x10)), 1);
    let mut policy = Policy::init(&sched, &mut cs);
    policy.schedule(&mut sched, &mut cs, &mut icsr);
    assert_eq!(sched.system_timer.stk_load.get(), 0x50);

    // too large
    let (mut sched, _sram, mut cs, mut icsr) =
        boot(SchedulerPolicy::RoundRobin(Some(0x0100_0000)), 1);
    let mut policy = Policy::init(&sched, &mut cs);
    policy.schedule(&mut sched, &mut cs, &mut icsr);
    assert_eq!(sched.system_timer.stk_load.get(), 0x50);

    // the maximum itself is accepted
    let (mut sched, _sram, mut cs, mut icsr) =
        boot(SchedulerPolicy::RoundRobin(Some(0x00ff_ffff)), 1);
    let mut policy = Policy::init(&sched, &mut cs);
    policy.schedule(&mut sched, &mut cs, &mut icsr);
    assert_eq!(sched.system_timer.stk_load.get(), 0x00ff_ffff);

    // no custom rate: the default
    let (mut sched, _sram, mut cs, mut icsr) = boot(SchedulerPolicy::RoundRobin(None), 1);
    let mut policy = Policy::init(&sched, &mut cs);
    policy.schedule(&mut sched, &mut cs, &mut icsr);
    assert_eq!(sched.system_timer.stk_load.get(), 0x50);
}

#[test]
fn preemptive_slicing_cycles_through_the_user_pids() {
    // four spinning tasks under a custom tick rate: after four tick
    // periods each task has been running once, and the current pid
    // cycles one, two, three, four and back to one
    let (mut sched, _sram, mut cs, mut icsr) =
        boot(SchedulerPolicy::RoundRobin(Some(0x1f40)), 4);
    let mut policy = Policy::init(&sched, &mut cs);
    let mut seen = [false; 5];
    for expected in [1usize, 2, 3, 4] {
        let picked = policy.schedule(&mut sched, &mut cs, &mut icsr).unwrap();
        assert_eq!(picked, expected);
        assert_eq!(sched.current_pid(), Some(expected));
        assert_eq!(sched.pcb(expected).unwrap().state, ProcessState::Running);
        seen[picked] = true;
    }
    assert!(seen[1] && seen[2] && seen[3] && seen[4]);
    // the cycle wraps
    assert_eq!(policy.schedule(&mut sched, &mut cs, &mut icsr), Some(1));
}

#[test]
fn round_robin_is_fair_over_whole_cycles() {
    // over 3 * 4 turns, each user pid is made current exactly 3 times
    let (mut sched, _sram, mut cs, mut icsr) = boot(SchedulerPolicy::RoundRobin(None), 4);
    let mut policy = Policy::init(&sched, &mut cs);
    let mut counts = [0usize; 5];
    for _ in 0..12 {
        let picked = policy.schedule(&mut sched, &mut cs, &mut icsr).unwrap();
        counts[picked] += 1;
    }
    assert_eq!(&counts[1..], &[3, 3, 3, 3]);
}

#[test]
fn empty_and_running_slots_are_skipped() {
    // two user tasks only: the cycle 1, 2, 3, 4 skips the empty slots
    let (mut sched, _sram, mut cs, mut icsr) = boot(SchedulerPolicy::RoundRobin(None), 2);
    let mut policy = Policy::init(&sched, &mut cs);
    assert_eq!(policy.schedule(&mut sched, &mut cs, &mut icsr), Some(1));
    assert_eq!(policy.schedule(&mut sched, &mut cs, &mut icsr), Some(2));
    assert_eq!(policy.schedule(&mut sched, &mut cs, &mut icsr), Some(1));
    assert_eq!(policy.schedule(&mut sched, &mut cs, &mut icsr), Some(2));
}

#[test]
fn schedule_returns_none_when_no_user_task_exists() {
    let (mut sched, _sram, mut cs, mut icsr) = boot(SchedulerPolicy::RoundRobin(None), 0);
    let mut policy = Policy::init(&sched, &mut cs);
    assert_eq!(policy.schedule(&mut sched, &mut cs, &mut icsr), None);
    // nothing changed: pid0 is still the only process and still current
    assert_eq!(sched.current_pid(), Some(0));
}
