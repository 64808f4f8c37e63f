//! # SysTick timer (STK)
//!
//! The system timer's register block (control/status, reload value,
//! current value, calibration), held by value. The scheduling policy
//! programs it in the sequence the part's manual gives: reload value,
//! clear current value, control and status register.

use crate::util::register::Register;
use crate::util::register::low_ones;
use vstd::prelude::*;

verus! {

/// Reload value maximum.
pub const STK_RELOAD_MAX: u32 = 0x00FF_FFFF;

/// System Timer.
pub struct SystemTimer {
    /// Control and status register (RW).
    pub stk_ctrl: Register,
    /// Reload value register (RW).
    pub stk_load: Register,
    /// Current value register (RW).
    pub stk_val: Register,
    /// Calibration value register (RO).
    pub stk_calib: Register,
}

impl SystemTimer {
    /// The register block in its reset state.
    pub(crate) fn init() -> (t: SystemTimer)
        ensures
            t.stk_ctrl.val() == 0,
            t.stk_load.val() == 0,
            t.stk_val.val() == 0,
            t.stk_calib.val() == 0,
    {
        SystemTimer {
            stk_ctrl: Register::new(0),
            stk_load: Register::new(0),
            stk_val: Register::new(0),
            stk_calib: Register::new(0),
        }
    }

    /// Sets the reload value: the count of ticks until an interrupt
    /// fires. A value above [`STK_RELOAD_MAX`] is ignored.
    pub fn set_reload(&mut self, load: u32)
        ensures
            load <= STK_RELOAD_MAX ==> final(self).stk_load.val() == (old(self).stk_load.val()
                & 0x8000_0000u32) | load,
            load > STK_RELOAD_MAX ==> final(self).stk_load == old(self).stk_load,
            final(self).stk_ctrl == old(self).stk_ctrl,
            final(self).stk_val == old(self).stk_val,
            final(self).stk_calib == old(self).stk_calib,
    {
        if load <= STK_RELOAD_MAX {
            proof {
                assert(load <= low_ones(31)) by (bit_vector)
                    requires
                        load <= 0x00FF_FFFFu32,
                ;
            }
            let ghost before = self.stk_load.val();
            self.stk_load.replace_bits(0, load, 31);
            proof {
                let after = self.stk_load.val();
                assert((before & !(low_ones(31) << 0u32)) | (load << 0u32) == (before
                    & 0x8000_0000u32) | load) by (bit_vector);
            }
        }
    }

    /// Clears the current value: any write to the register clears the
    /// field and resets the COUNTFLAG bit.
    pub fn clear_val(&mut self)
        ensures
            final(self).stk_val.val() == old(self).stk_val.val() | 1u32,
            final(self).stk_ctrl == old(self).stk_ctrl,
            final(self).stk_load == old(self).stk_load,
            final(self).stk_calib == old(self).stk_calib,
    {
        let ghost before = self.stk_val.val();
        self.stk_val.set_bit(0);
        proof {
            assert(before | (1u32 << 0u32) == before | 1u32) by (bit_vector);
        }
    }

    /// SysTick exception request enable: bit 1 of the control register
    /// requests the interrupt when the counter reaches zero.
    pub fn tickint(&mut self, enable: bool)
        ensures
            final(self).stk_ctrl.val() == (old(self).stk_ctrl.val() & !2u32) | (if enable {
                2u32
            } else {
                0u32
            }),
            final(self).stk_load == old(self).stk_load,
            final(self).stk_val == old(self).stk_val,
            final(self).stk_calib == old(self).stk_calib,
    {
        let ghost before = self.stk_ctrl.val();
        if enable {
            proof {
                assert(1u32 <= low_ones(1)) by (bit_vector);
            }
            self.stk_ctrl.replace_bits(1, 1, 1);
            proof {
                assert((before & !(low_ones(1) << 1u32)) | (1u32 << 1u32) == (before & !2u32)
                    | 2u32) by (bit_vector);
            }
        } else {
            proof {
                assert(0u32 <= low_ones(1)) by (bit_vector);
            }
            self.stk_ctrl.replace_bits(1, 0, 1);
            proof {
                assert((before & !(low_ones(1) << 1u32)) | (0u32 << 1u32) == (before & !2u32)
                    | 0u32) by (bit_vector);
            }
        }
    }

    /// Enables the counter: bit 0 (ENABLE) of the control register.
    pub fn enable(&mut self)
        ensures
            final(self).stk_ctrl.val() == old(self).stk_ctrl.val() | 1u32,
            final(self).stk_load == old(self).stk_load,
            final(self).stk_val == old(self).stk_val,
            final(self).stk_calib == old(self).stk_calib,
    {
        let ghost before = self.stk_ctrl.val();
        self.stk_ctrl.set_bit(0);
        proof {
            assert(before | (1u32 << 0u32) == before | 1u32) by (bit_vector);
        }
    }

    /// Disables the counter.
    pub fn disable(&mut self)
        ensures
            final(self).stk_ctrl.val() == old(self).stk_ctrl.val() & !1u32,
            final(self).stk_load == old(self).stk_load,
            final(self).stk_val == old(self).stk_val,
            final(self).stk_calib == old(self).stk_calib,
    {
        let ghost before = self.stk_ctrl.val();
        self.stk_ctrl.clear_bit(0);
        proof {
            assert(before & !(1u32 << 0u32) == before & !1u32) by (bit_vector);
        }
    }
}

} // verus!
