//! # Reset and clock controller
//!
//! Reached over [`AHB1`][crate::dp::bus::AHB1]; one 32-bit register per
//! field, in the order of the device's register map.

use crate::util::register::Register;
use vstd::prelude::*;

verus! {

/// Reset and clock controller register block.
pub struct RCC {
    pub cr: Register,
    pub cfgr: Register,
    pub cir: Register,
    pub apb2rstr: Register,
    pub apb1rstr: Register,
    pub ahbenr: Register,
    pub apb2enr: Register,
    pub apb1enr: Register,
    pub bdcr: Register,
    pub csr: Register,
    pub ahbrstr: Register,
    pub cfgr2: Register,
    pub cfgr3: Register,
}

impl RCC {
    /// The register block in its reset state.
    pub(crate) fn new() -> (r: RCC)
        ensures
            r.ahbenr.val() == 0,
            r.cr.val() == 0,
            r.cfgr.val() == 0,
            r.cir.val() == 0,
            r.apb2rstr.val() == 0,
            r.apb1rstr.val() == 0,
            r.apb2enr.val() == 0,
            r.apb1enr.val() == 0,
            r.bdcr.val() == 0,
            r.csr.val() == 0,
            r.ahbrstr.val() == 0,
            r.cfgr2.val() == 0,
            r.cfgr3.val() == 0,
    {
        RCC {
            cr: Register::new(0),
            cfgr: Register::new(0),
            cir: Register::new(0),
            apb2rstr: Register::new(0),
            apb1rstr: Register::new(0),
            ahbenr: Register::new(0),
            apb2enr: Register::new(0),
            apb1enr: Register::new(0),
            bdcr: Register::new(0),
            csr: Register::new(0),
            ahbrstr: Register::new(0),
            cfgr2: Register::new(0),
            cfgr3: Register::new(0),
        }
    }

    /// Enables the clock of I/O port E: bit 21 (IOPEEN) of AHBENR.
    pub fn iopeen(&mut self)
        ensures
            final(self).ahbenr.val() == old(self).ahbenr.val() | 0x0020_0000u32,
            final(self).cr == old(self).cr,
            final(self).cfgr == old(self).cfgr,
            final(self).cir == old(self).cir,
            final(self).apb2rstr == old(self).apb2rstr,
            final(self).apb1rstr == old(self).apb1rstr,
            final(self).apb2enr == old(self).apb2enr,
            final(self).apb1enr == old(self).apb1enr,
            final(self).bdcr == old(self).bdcr,
            final(self).csr == old(self).csr,
            final(self).ahbrstr == old(self).ahbrstr,
            final(self).cfgr2 == old(self).cfgr2,
            final(self).cfgr3 == old(self).cfgr3,
    {
        let ghost before = self.ahbenr.val();
        self.ahbenr.set_bit(21);
        proof {
            assert(before | (1u32 << 21u32) == before | 0x0020_0000u32) by (bit_vector);
        }
    }
}

} // verus!
