//! # General purpose input/output (GPIO)
//!
//! The GPIO register block, reached over [`AHB2`][crate::dp::bus::AHB2].
//! The fields lie in the order of the device's register map, one 32-bit
//! register each.

use crate::util::register::Register;
use vstd::prelude::*;

verus! {

/// General purpose input/output register block.
pub struct GPIO {
    pub moder: Register,
    pub otyper: Register,
    pub ospeedr: Register,
    pub pupdr: Register,
    pub idr: Register,
    pub odr: Register,
    pub bsrr: Register,
    pub lckr: Register,
    pub afrl: Register,
    pub afrh: Register,
    pub brr: Register,
}

impl GPIO {
    /// The register block in its reset state.
    pub fn new() -> (g: GPIO)
        ensures
            g.moder.val() == 0,
            g.otyper.val() == 0,
            g.ospeedr.val() == 0,
            g.pupdr.val() == 0,
            g.idr.val() == 0,
            g.odr.val() == 0,
            g.bsrr.val() == 0,
            g.lckr.val() == 0,
            g.afrl.val() == 0,
            g.afrh.val() == 0,
            g.brr.val() == 0,
    {
        GPIO {
            moder: Register::new(0),
            otyper: Register::new(0),
            ospeedr: Register::new(0),
            pupdr: Register::new(0),
            idr: Register::new(0),
            odr: Register::new(0),
            bsrr: Register::new(0),
            lckr: Register::new(0),
            afrl: Register::new(0),
            afrh: Register::new(0),
            brr: Register::new(0),
        }
    }
}

} // verus!
