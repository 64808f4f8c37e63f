//! # UART register block
//!
//! The registers of the USART device, one field per 32-bit register in
//! the order of the device's register map, so each field matches the
//! offset of the register it stands for.

use crate::util::register::Register;
use vstd::prelude::*;

verus! {

pub struct UART {
    pub cr1: Register,
    pub cr2: Register,
    pub cr3: Register,
    pub brr: Register,
    pub gtpr: Register,
    pub rtor: Register,
    pub rqr: Register,
    pub isr: Register,
    pub icr: Register,
    pub rdr: Register,
    pub tdr: Register,
}

impl UART {
    /// The register block in its reset state.
    pub fn new() -> (u: UART)
        ensures
            u.cr1.val() == 0,
            u.cr2.val() == 0,
            u.cr3.val() == 0,
            u.brr.val() == 0,
            u.gtpr.val() == 0,
            u.rtor.val() == 0,
            u.rqr.val() == 0,
            u.isr.val() == 0,
            u.icr.val() == 0,
            u.rdr.val() == 0,
            u.tdr.val() == 0,
    {
        UART {
            cr1: Register::new(0),
            cr2: Register::new(0),
            cr3: Register::new(0),
            brr: Register::new(0),
            gtpr: Register::new(0),
            rtor: Register::new(0),
            rqr: Register::new(0),
            isr: Register::new(0),
            icr: Register::new(0),
            rdr: Register::new(0),
            tdr: Register::new(0),
        }
    }
}

} // verus!
