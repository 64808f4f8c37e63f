//! A light wrapper over one GPIO port whose pins 8 to 15 drive LEDs.
//! Each operation is the exact read/modify/write sequence it performs on
//! the port's registers; a pin outside 8..=15 leaves the port untouched.

use crate::dp::gpio::GPIO;
use vstd::prelude::*;

verus! {

pub struct LED {
    pub gpioe: GPIO,
}

impl LED {
    pub fn new(gpioe: GPIO) -> (l: LED)
        ensures
            l.gpioe == gpioe,
    {
        LED { gpioe }
    }

    /// Drives pin `led` high: output mode in MODER, the OTYPER update,
    /// and the bit in the output data register.
    pub fn on(&mut self, led: u8)
        ensures
            8 <= led <= 15 ==> {
                &&& final(self).gpioe.moder.val() == old(self).gpioe.moder.val() | (0b01u32 << (
                (led as u32) * 2))
                &&& final(self).gpioe.otyper.val() == old(self).gpioe.otyper.val() & ((!1u32) << (
                led as u32))
                &&& final(self).gpioe.odr.val() == old(self).gpioe.odr.val() | (1u32 << (
                led as u32))
            },
            !(8 <= led <= 15) ==> *final(self) == *old(self),
            final(self).gpioe.ospeedr == old(self).gpioe.ospeedr,
            final(self).gpioe.pupdr == old(self).gpioe.pupdr,
            final(self).gpioe.idr == old(self).gpioe.idr,
            final(self).gpioe.bsrr == old(self).gpioe.bsrr,
            final(self).gpioe.lckr == old(self).gpioe.lckr,
            final(self).gpioe.afrl == old(self).gpioe.afrl,
            final(self).gpioe.afrh == old(self).gpioe.afrh,
            final(self).gpioe.brr == old(self).gpioe.brr,
    {
        if led <= 15 && led >= 8 {
            let led32: u32 = led as u32;
            let m = self.gpioe.moder.get();
            self.gpioe.moder.write(m | (0b01u32 << (led32 * 2)));
            let o = self.gpioe.otyper.get();
            self.gpioe.otyper.write(o & ((!1u32) << led32));
            let d = self.gpioe.odr.get();
            self.gpioe.odr.write(d | (1u32 << led32));
        }
    }

    /// Toggles pin `led` in the output data register.
    pub fn toggle(&mut self, led: u8)
        ensures
            8 <= led <= 15 ==> {
                let odr = old(self).gpioe.odr.val();
                let on_bit = odr & (1u32 << (led as u32));
                final(self).gpioe.odr.val() == odr ^ ((on_bit | 0b1u32) << (led as u32))
            },
            !(8 <= led <= 15) ==> *final(self) == *old(self),
            final(self).gpioe.moder == old(self).gpioe.moder,
            final(self).gpioe.otyper == old(self).gpioe.otyper,
            final(self).gpioe.ospeedr == old(self).gpioe.ospeedr,
            final(self).gpioe.pupdr == old(self).gpioe.pupdr,
            final(self).gpioe.idr == old(self).gpioe.idr,
            final(self).gpioe.bsrr == old(self).gpioe.bsrr,
            final(self).gpioe.lckr == old(self).gpioe.lckr,
            final(self).gpioe.afrl == old(self).gpioe.afrl,
            final(self).gpioe.afrh == old(self).gpioe.afrh,
            final(self).gpioe.brr == old(self).gpioe.brr,
    {
        if led <= 15 && led >= 8 {
            let led32: u32 = led as u32;
            let odr = self.gpioe.odr.get();
            let on_bit = odr & (1u32 << led32);
            self.gpioe.odr.write(odr ^ ((on_bit | 0b1u32) << led32));
        }
    }
}

} // verus!
