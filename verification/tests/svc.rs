//! The supervisor-call gateway: yield semantics, semihosting echo,
//! console writes and the sprint buffer.

use lake_rtos::cp::CorePeripherals;
use lake_rtos::cp::stk::SystemTimer;
use lake_rtos::kernel::cs::ContextSwitch;
use lake_rtos::kernel::scheduler::Scheduler;
use lake_rtos::kernel::scheduler::policies::Policy;
use lake_rtos::kernel::scheduler::policies::SchedulerPolicy;
use lake_rtos::kernel::scheduler::psp_slot_addr;
use lake_rtos::kernel::sram::Sram;
use lake_rtos::kernel::svc::Semihosting;
use lake_rtos::kernel::svc::SvcRequest;
use lake_rtos::kernel::svc::SvcResult;
use lake_rtos::kernel::svc::sprint;
use lake_rtos::kernel::svc::syscall;
use lake_rtos::util::register::Register;

const PID0_ENTRY: u32 = 0x0800_0041;
const TASK_ENTRY: u32 = 0x0800_1001;

fn fresh_timer() -> SystemTimer {
    let mut flag = false;
    let mut cp = CorePeripherals::take(&mut flag).unwrap();
    cp.take_system_timer().unwrap()
}

fn boot(user_tasks: usize) -> (Scheduler, Sram, ContextSwitch, Register, Semihosting) {
    let mut taken = false;
    let mut sram = Sram::new();
    let mut sched = Scheduler::init(
        &mut taken,
        fresh_timer(),
        SchedulerPolicy::RoundRobin(None),
        &mut sram,
        PID0_ENTRY,
    )
    .unwrap();
    for _ in 0..user_tasks {
        sched.create_process(&mut sram, TASK_ENTRY).unwrap();
    }
    let mut cs = ContextSwitch::new();
    let mut icsr = Register::new(0);
    sched.start_scheduling(&mut cs, &mut icsr);
    (sched, sram, cs, icsr, Semihosting::new())
}

#[test]
fn yield_disables_the_tick_and_pends_pendsv() {
    let (mut sched, _sram, mut cs, mut icsr, mut host) = boot(1);
    let mut policy = Policy::init(&sched, &mut cs);
    // the first turn enables the tick, dispatches pid1, and the swapped
    // context-switch state points back at pid0
    policy.schedule(&mut sched, &mut cs, &mut icsr).unwrap();
    let (_, _) = cs.get_addr_and_swap();
    assert_eq!(sched.system_timer.stk_ctrl.get() & 0b1, 0b1);
    icsr.write(0);

    // pid1 yields
    let r = syscall(SvcRequest::Yield, &mut sched, &mut icsr, &mut host);
    assert_eq!(r, SvcResult::Empty);
    // the tick is disabled: CTRL.ENABLE is zero
    assert_eq!(sched.system_timer.stk_ctrl.get() & 0b1, 0);
    // pending SysTick is cleared (PENDSTCLR written) and PendSV pended
    assert_eq!(icsr.get() & 0x0200_0000, 0x0200_0000);
    assert_eq!(icsr.get() & 0x1000_0000, 0x1000_0000);
    // the next process to run is pid0: the handler left the swapped
    // context-switch state alone
    assert_eq!(cs.psp_next_addr, psp_slot_addr(0));
}

#[test]
fn semihosting_echo() {
    let (mut sched, _sram, _cs, mut icsr, mut host) = boot(1);
    // the host sends the byte for 'n'
    host.input.push(0x6e);
    let response = syscall(SvcRequest::SemihostingReadC, &mut sched, &mut icsr, &mut host);
    assert_eq!(response, SvcResult::Char(0x6e));
    assert!(host.input.is_empty());
}

#[test]
fn semihosting_read_is_first_in_first_out() {
    let (mut sched, _sram, _cs, mut icsr, mut host) = boot(0);
    host.input = vec![1, 2, 3];
    assert_eq!(
        syscall(SvcRequest::SemihostingReadC, &mut sched, &mut icsr, &mut host),
        SvcResult::Char(1)
    );
    assert_eq!(
        syscall(SvcRequest::SemihostingReadC, &mut sched, &mut icsr, &mut host),
        SvcResult::Char(2)
    );
    assert_eq!(host.input, vec![3]);
}

#[test]
fn write_zero_terminated_stops_at_the_first_zero() {
    let (mut sched, _sram, _cs, mut icsr, mut host) = boot(0);
    let r = syscall(
        SvcRequest::SemihostingWrite0(vec![b'h', b'i', 0, b'x']),
        &mut sched,
        &mut icsr,
        &mut host,
    );
    assert_eq!(r, SvcResult::Empty);
    assert_eq!(host.output, b"hi".to_vec());
}

#[test]
fn write_character_appends_one_byte() {
    let (mut sched, _sram, _cs, mut icsr, mut host) = boot(0);
    let r = syscall(
        SvcRequest::SemihostingWriteC(b'!'),
        &mut sched,
        &mut icsr,
        &mut host,
    );
    assert_eq!(r, SvcResult::Empty);
    assert_eq!(host.output, vec![b'!']);
}

#[test]
fn sprint_writes_short_text_whole() {
    let (mut sched, _sram, _cs, mut icsr, mut host) = boot(0);
    sprint("pid 2 LED North on\n", &mut sched, &mut icsr, &mut host);
    assert_eq!(host.output, b"pid 2 LED North on\n".to_vec());
}

#[test]
fn sprint_truncates_to_sixty_three_bytes() {
    let (mut sched, _sram, _cs, mut icsr, mut host) = boot(0);
    let long = "x".repeat(100);
    sprint(&long, &mut sched, &mut icsr, &mut host);
    assert_eq!(host.output.len(), 63);
    assert_eq!(host.output, "x".repeat(63).into_bytes());

    // a text of exactly sixty-three bytes still goes out whole
    host.output.clear();
    let exact = "y".repeat(63);
    sprint(&exact, &mut sched, &mut icsr, &mut host);
    assert_eq!(host.output, exact.into_bytes());
}

#[test]
fn sprint_stops_at_an_embedded_zero() {
    let (mut sched, _sram, _cs, mut icsr, mut host) = boot(0);
    sprint("ab\0cd", &mut sched, &mut icsr, &mut host);
    assert_eq!(host.output, b"ab".to_vec());
}
