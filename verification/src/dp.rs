//! # Device Peripherals
//!
//! The device-peripheral registry: it holds the bus interface and hands
//! it out exactly once, so every peripheral is owned by one holder.

pub mod bus;
pub mod gpio;
pub mod rcc;
pub mod uart;

use self::bus::BusInterface;
use vstd::prelude::*;

verus! {

/// Holds the bus interface that connects to the other peripherals.
pub struct DevicePeripherals {
    bus_interface: Option<BusInterface>,
}

impl DevicePeripherals {
    /// Whether the bus interface is still in the registry, for
    /// specifications.
    pub closed spec fn bus_slot(self) -> bool {
        self.bus_interface is Some
    }

    /// The registry as the boot runtime leaves it: the bus interface
    /// still inside.
    pub fn new() -> (p: DevicePeripherals)
        ensures
            p.bus_slot(),
    {
        DevicePeripherals { bus_interface: Some(BusInterface {  }) }
    }

    /// Hands the bus interface out once; every later call returns None.
    pub fn take(&mut self) -> (r: Option<BusInterface>)
        ensures
            (r is Some) == old(self).bus_slot(),
            !final(self).bus_slot(),
    {
        self.bus_interface.take()
    }
}

} // verus!
