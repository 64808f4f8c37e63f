//! Scheduler lifecycle: the init singleton, process creation and stack
//! synthesis, capacity, and the prepare-switch protocol.

use lake_rtos::cp::CorePeripherals;
use lake_rtos::cp::stk::SystemTimer;
use lake_rtos::kernel::cs::ContextSwitch;
use lake_rtos::kernel::scheduler::ALLOWED_PROCESSES;
use lake_rtos::kernel::scheduler::PROCESS_BASE;
use lake_rtos::kernel::scheduler::ProcessState;
use lake_rtos::kernel::scheduler::Scheduler;
use lake_rtos::kernel::scheduler::SchedulerError;
use lake_rtos::kernel::scheduler::policies::SchedulerPolicy;
use lake_rtos::kernel::scheduler::psp_slot_addr;
use lake_rtos::kernel::sram::Sram;

const PID0_ENTRY: u32 = 0x0800_0041;
const TASK_ENTRY: u32 = 0x0800_1001;

fn fresh_timer() -> SystemTimer {
    let mut flag = false;
    let mut cp = CorePeripherals::take(&mut flag).unwrap();
    cp.take_system_timer().unwrap()
}

#[test]
fn init_is_a_singleton() {
    let mut taken = false;
    let mut sram = Sram::new();
    let first = Scheduler::init(
        &mut taken,
        fresh_timer(),
        SchedulerPolicy::RoundRobin(None),
        &mut sram,
        PID0_ENTRY,
    );
    assert!(first.is_some());
    let second = Scheduler::init(
        &mut taken,
        fresh_timer(),
        SchedulerPolicy::RoundRobin(None),
        &mut sram,
        PID0_ENTRY,
    );
    assert!(second.is_none());
}

#[test]
fn init_creates_pid0_ready() {
    let mut taken = false;
    let mut sram = Sram::new();
    let sched = Scheduler::init(
        &mut taken,
        fresh_timer(),
        SchedulerPolicy::RoundRobin(None),
        &mut sram,
        PID0_ENTRY,
    )
    .unwrap();
    let pcb0 = sched.pcb(0).unwrap();
    assert_eq!(pcb0.pid, 0);
    assert_eq!(pcb0.state, ProcessState::Ready);
    assert_eq!(pcb0.psp, PROCESS_BASE + 64);
    assert!(sched.pcb(1).is_none());
    assert!(sched.current_pid().is_none());
    assert!(sched.get_current_process().is_none());
}

#[test]
fn create_process_synthesizes_the_stack_frame() {
    let mut taken = false;
    let mut sram = Sram::new();
    let mut sched = Scheduler::init(
        &mut taken,
        fresh_timer(),
        SchedulerPolicy::RoundRobin(None),
        &mut sram,
        PID0_ENTRY,
    )
    .unwrap();
    let pid = sched.create_process(&mut sram, TASK_ENTRY).unwrap();
    assert_eq!(pid, 1);
    let pcb = sched.pcb(1).unwrap();
    let psp = pcb.psp;
    let base = PROCESS_BASE - 0x1000;
    // the psp points at the exception frame, eight-byte aligned
    assert_eq!(psp, base + 64);
    assert_eq!(psp % 8, 0);
    // the word at psp+24 is the entry function, at psp+28 the Thumb xpsr
    assert_eq!(sram.read_word(psp + 24), TASK_ENTRY);
    assert_eq!(sram.read_word(psp + 28), 0x0100_0000);
    // the load frame: seven alignment words, r4 = 3, r5..r11 = 0, lr
    for j in 0..7 {
        assert_eq!(sram.read_word(base + 4 * j), 0);
    }
    assert_eq!(sram.read_word(base + 28), 0x3);
    for j in 8..15 {
        assert_eq!(sram.read_word(base + 4 * j), 0);
    }
    assert_eq!(sram.read_word(base + 60), 0xffff_fffd);
    // exception frame r0..r3, r12, lr are zero
    for j in 16..22 {
        assert_eq!(sram.read_word(base + 4 * j), 0);
    }
}

#[test]
fn create_process_rejects_a_full_table() {
    let mut taken = false;
    let mut sram = Sram::new();
    let mut sched = Scheduler::init(
        &mut taken,
        fresh_timer(),
        SchedulerPolicy::RoundRobin(None),
        &mut sram,
        PID0_ENTRY,
    )
    .unwrap();
    // four user tasks fill the five slots beside pid0
    for expected in 1..ALLOWED_PROCESSES {
        let pid = sched.create_process(&mut sram, TASK_ENTRY).unwrap();
        assert_eq!(pid, expected);
    }
    let fifth = sched.create_process(&mut sram, TASK_ENTRY);
    assert!(matches!(fifth, Err(SchedulerError::ProcessStackFull)));
}

#[test]
fn prepare_switch_validates_and_marks_running() {
    let mut taken = false;
    let mut sram = Sram::new();
    let mut sched = Scheduler::init(
        &mut taken,
        fresh_timer(),
        SchedulerPolicy::RoundRobin(None),
        &mut sram,
        PID0_ENTRY,
    )
    .unwrap();
    sched.create_process(&mut sram, TASK_ENTRY).unwrap();
    let mut cs = ContextSwitch::new();

    // out of range
    assert!(matches!(
        sched.prepare_switch_to_pid(&mut cs, 9),
        Err(SchedulerError::NotAvailable)
    ));
    // empty slot
    assert!(matches!(
        sched.prepare_switch_to_pid(&mut cs, 3),
        Err(SchedulerError::NotInitialized)
    ));
    assert_eq!(cs.psp_next_addr, 0);

    // a ready slot is accepted
    assert!(sched.prepare_switch_to_pid(&mut cs, 1).is_ok());
    assert_eq!(sched.current_pid(), Some(1));
    assert_eq!(sched.pcb(1).unwrap().state, ProcessState::Running);
    assert_eq!(cs.psp_next_addr, psp_slot_addr(1));
}

#[test]
fn prepare_switch_rejects_the_running_process_unchanged() {
    let mut taken = false;
    let mut sram = Sram::new();
    let mut sched = Scheduler::init(
        &mut taken,
        fresh_timer(),
        SchedulerPolicy::RoundRobin(None),
        &mut sram,
        PID0_ENTRY,
    )
    .unwrap();
    sched.create_process(&mut sram, TASK_ENTRY).unwrap();
    let mut cs = ContextSwitch::new();
    sched.prepare_switch_to_pid(&mut cs, 1).unwrap();

    let next_before = cs.psp_next_addr;
    let from_before = cs.psp_from_addr;
    let states_before: Vec<Option<ProcessState>> = (0..ALLOWED_PROCESSES)
        .map(|i| sched.pcb(i).map(|p| p.state))
        .collect();

    // the pid already current is rejected, state and slot untouched
    let again = sched.prepare_switch_to_pid(&mut cs, 1);
    assert!(matches!(again, Err(SchedulerError::AlreadyRunning)));
    assert_eq!(cs.psp_next_addr, next_before);
    assert_eq!(cs.psp_from_addr, from_before);
    assert_eq!(sched.current_pid(), Some(1));
    let states_after: Vec<Option<ProcessState>> = (0..ALLOWED_PROCESSES)
        .map(|i| sched.pcb(i).map(|p| p.state))
        .collect();
    assert_eq!(states_after, states_before);
}

#[test]
fn exactly_one_running_after_each_successful_prepare() {
    let mut taken = false;
    let mut sram = Sram::new();
    let mut sched = Scheduler::init(
        &mut taken,
        fresh_timer(),
        SchedulerPolicy::RoundRobin(None),
        &mut sram,
        PID0_ENTRY,
    )
    .unwrap();
    for _ in 1..ALLOWED_PROCESSES {
        sched.create_process(&mut sram, TASK_ENTRY).unwrap();
    }
    let mut cs = ContextSwitch::new();
    // before the first dispatch nothing is running
    let running = (0..ALLOWED_PROCESSES)
        .filter(|i| {
            matches!(sched.pcb(*i), Some(p) if p.state == ProcessState::Running)
        })
        .count();
    assert_eq!(running, 0);
    // across an arbitrary sequence of prepare-switches
    for pid in [0usize, 2, 4, 1, 3, 0, 3, 2] {
        sched.prepare_switch_to_pid(&mut cs, pid).unwrap();
        let running: Vec<usize> = (0..ALLOWED_PROCESSES)
            .filter(|i| {
                matches!(sched.pcb(*i), Some(p) if p.state == ProcessState::Running)
            })
            .collect();
        assert_eq!(running, vec![pid]);
        assert_eq!(sched.current_pid(), Some(pid));
    }
}

#[test]
fn start_scheduling_dispatches_pid0() {
    let mut taken = false;
    let mut sram = Sram::new();
    let mut sched = Scheduler::init(
        &mut taken,
        fresh_timer(),
        SchedulerPolicy::RoundRobin(None),
        &mut sram,
        PID0_ENTRY,
    )
    .unwrap();
    let mut cs = ContextSwitch::new();
    let mut icsr = lake_rtos::util::register::Register::new(0);
    sched.start_scheduling(&mut cs, &mut icsr);
    assert_eq!(sched.current_pid(), Some(0));
    assert_eq!(sched.pcb(0).unwrap().state, ProcessState::Running);
    assert_eq!(cs.psp_next_addr, psp_slot_addr(0));
    // PendSV is pended
    assert_eq!(icsr.get() & 0x1000_0000, 0x1000_0000);
}
