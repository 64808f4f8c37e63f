//! # Bus
//!
//! The AHB slave interface allows the CPU and other bus masters to reach
//! the peripherals. Each access path hands its peripheral's register
//! block out in the reset state the device powers up with.

use crate::dp::gpio::GPIO;
use crate::dp::rcc::RCC;
use vstd::prelude::*;

verus! {

/// The bus interface to the peripherals.
pub struct BusInterface {}

/// Advanced high-performance bus 1. Allows access to the reset and
/// clock controller.
pub struct AHB1 {}

/// Advanced high-performance bus 2. Allows access to GPIO port E.
pub struct AHB2 {}

impl BusInterface {
    pub fn ahb1(&self) -> AHB1 {
        AHB1 {  }
    }

    pub fn ahb2(&self) -> AHB2 {
        AHB2 {  }
    }
}

impl AHB1 {
    /// The reset and clock controller on this bus, in its reset state.
    pub fn rcc(self) -> (r: RCC)
        ensures
            r.ahbenr.val() == 0,
            r.cr.val() == 0,
            r.cfgr.val() == 0,
            r.cir.val() == 0,
            r.apb2rstr.val() == 0,
            r.apb1rstr.val() == 0,
            r.apb2enr.val() == 0,
            r.apb1enr.val() == 0,
            r.bdcr.val() == 0,
            r.csr.val() == 0,
            r.ahbrstr.val() == 0,
            r.cfgr2.val() == 0,
            r.cfgr3.val() == 0,
    {
        RCC::new()
    }
}

impl AHB2 {
    /// GPIO port E on this bus, in its reset state.
    pub fn gpioe(self) -> (g: GPIO)
        ensures
            g.moder.val() == 0,
            g.otyper.val() == 0,
            g.ospeedr.val() == 0,
            g.pupdr.val() == 0,
            g.idr.val() == 0,
            g.odr.val() == 0,
            g.bsrr.val() == 0,
            g.lckr.val() == 0,
            g.afrl.val() == 0,
            g.afrh.val() == 0,
            g.brr.val() == 0,
    {
        GPIO::new()
    }
}

} // verus!
