//! # Core Peripherals
//!
//! Unlike device peripherals there is no bus interface. Ownership is a
//! one-shot handoff: a process-wide flag, passed in explicitly, yields
//! the peripherals once; later calls return `None`.

pub mod stk;

use self::stk::SystemTimer;
use vstd::prelude::*;

verus! {

/// Contains the core peripherals.
pub struct CorePeripherals {
    stk: Option<SystemTimer>,
}

impl CorePeripherals {
    /// The system-timer slot, for specifications.
    pub closed spec fn timer_slot(self) -> Option<SystemTimer> {
        self.stk
    }

    /// Yields the core peripherals exactly once: the first call (flag
    /// still clear) sets the flag and returns the handle; every later
    /// call returns `None`.
    pub fn take(taken: &mut bool) -> (r: Option<CorePeripherals>)
        ensures
            *final(taken),
            (r is Some) == !*old(taken),
            r matches Some(cp) ==> cp.timer_slot() matches Some(t) && t.stk_ctrl.val() == 0
                && t.stk_load.val() == 0 && t.stk_val.val() == 0 && t.stk_calib.val() == 0,
    {
        if *taken {
            None
        } else {
            *taken = true;
            Some(CorePeripherals { stk: Some(SystemTimer::init()) })
        }
    }

    /// Hands the system timer out once; afterwards the slot is empty and
    /// every later call returns `None`.
    pub fn take_system_timer(&mut self) -> (r: Option<SystemTimer>)
        ensures
            r == old(self).timer_slot(),
            final(self).timer_slot() is None,
    {
        self.stk.take()
    }
}

} // verus!
