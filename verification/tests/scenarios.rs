//! Whole-system runs: two cooperating LED tasks under the round-robin
//! policy, driven through yield, schedule and dispatch.

use lake_rtos::cp::CorePeripherals;
use lake_rtos::cp::stk::SystemTimer;
use lake_rtos::dp::DevicePeripherals;
use lake_rtos::kernel::cs::ContextSwitch;
use lake_rtos::kernel::scheduler::ProcessState;
use lake_rtos::kernel::scheduler::Scheduler;
use lake_rtos::kernel::scheduler::policies::Policy;
use lake_rtos::kernel::scheduler::policies::SchedulerPolicy;
use lake_rtos::kernel::sram::Sram;
use lake_rtos::kernel::svc::Semihosting;
use lake_rtos::kernel::svc::SvcRequest;
use lake_rtos::kernel::svc::SvcResult;
use lake_rtos::kernel::svc::syscall;
use lake_rtos::leds::CardinalPoints;
use lake_rtos::leds::LEDs;
use lake_rtos::util::register::Register;

const PID0_ENTRY: u32 = 0x0800_0041;
const TASK1_ENTRY: u32 = 0x0800_1001;
const TASK2_ENTRY: u32 = 0x0800_2001;

fn fresh_timer() -> SystemTimer {
    let mut flag = false;
    let mut cp = CorePeripherals::take(&mut flag).unwrap();
    cp.take_system_timer().unwrap()
}

#[test]
fn two_task_alternation() {
    // kernel boot
    let mut taken = false;
    let mut sram = Sram::new();
    let mut sched = Scheduler::init(
        &mut taken,
        fresh_timer(),
        SchedulerPolicy::RoundRobin(None),
        &mut sram,
        PID0_ENTRY,
    )
    .unwrap();
    assert_eq!(sched.create_process(&mut sram, TASK1_ENTRY), Ok(1));
    assert_eq!(sched.create_process(&mut sram, TASK2_ENTRY), Ok(2));
    let mut cs = ContextSwitch::new();
    let mut icsr = Register::new(0);
    let mut host = Semihosting::new();
    sched.start_scheduling(&mut cs, &mut icsr);
    let mut policy = Policy::init(&sched, &mut cs);

    // the LEDs the two tasks toggle, on GPIO port E
    let mut dp = DevicePeripherals::new();
    let bus = dp.take().unwrap();
    let mut rcc = bus.ahb1().rcc();
    rcc.iopeen();
    let gpioe = bus.ahb2().gpioe();
    let mut leds = LEDs::new(gpioe);

    let mut expected_odr: u32 = leds.gpio.odr.get();
    let mut north_toggles = 0;
    let mut south_toggles = 0;

    // twenty turns: pid1 toggles North and yields, pid2 toggles South
    // and yields, ten times each
    for _ in 0..20 {
        let pid = policy.schedule(&mut sched, &mut cs, &mut icsr).unwrap();
        match pid {
            1 => {
                leds.toggle(CardinalPoints::North);
                expected_odr ^= 1 << 9;
                north_toggles += 1;
            },
            2 => {
                leds.toggle(CardinalPoints::South);
                expected_odr ^= 1 << 13;
                south_toggles += 1;
            },
            other => panic!("unexpected pid {other}"),
        }
        assert_eq!(leds.gpio.odr.get(), expected_odr);
        // the task yields; control returns to pid0
        let r = syscall(SvcRequest::Yield, &mut sched, &mut icsr, &mut host);
        assert_eq!(r, SvcResult::Empty);
        sched.prepare_switch_to_pid(&mut cs, 0).unwrap();
    }

    // each LED toggled ten times, and the run came to rest in pid0
    assert_eq!(north_toggles, 10);
    assert_eq!(south_toggles, 10);
    assert_eq!(sched.current_pid(), Some(0));
    assert_eq!(sched.pcb(0).unwrap().state, ProcessState::Running);
    // ten toggles leave both LEDs as they started
    assert_eq!(leds.gpio.odr.get() & (1 << 9), 0);
    assert_eq!(leds.gpio.odr.get() & (1 << 13), 0);
}
