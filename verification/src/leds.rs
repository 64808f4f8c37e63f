//! # LEDs
//!
//! Convenient wrapper for the board's eight LEDs, laid out as cardinal
//! points on GPIO port E, pins 8 to 15.
//!
//! A pin drives its LED only after a one-time configuration: general
//! purpose output mode in the port mode register and push-pull in the
//! output type register. `check_init` performs that configuration on
//! first use and remembers it; the output data register then turns the
//! LED on (bit one) and off (bit zero).

use crate::dp::gpio::GPIO;
use crate::util::register::low_ones;
use vstd::prelude::*;

verus! {

/// The eight LEDs by their cardinal-point layout, pins 8 to 15 in this
/// order.
#[allow(non_camel_case_types)]
#[derive(Clone, Copy, Debug, PartialEq, Eq, Structural)]
pub enum CardinalPoints {
    NorthWest,
    North,
    NorthEast,
    East,
    SouthEast,
    South,
    SouthWest,
    West,
}

impl CardinalPoints {
    /// The GPIO pin driving this LED, for specifications.
    pub open spec fn pin_spec(self) -> u32 {
        match self {
            CardinalPoints::NorthWest => 8,
            CardinalPoints::North => 9,
            CardinalPoints::NorthEast => 10,
            CardinalPoints::East => 11,
            CardinalPoints::SouthEast => 12,
            CardinalPoints::South => 13,
            CardinalPoints::SouthWest => 14,
            CardinalPoints::West => 15,
        }
    }

    /// The GPIO pin driving this LED: pins 8 to 15 in cardinal order.
    pub fn pin(self) -> (p: u32)
        ensures
            p == self.pin_spec(),
            8 <= p <= 15,
    {
        match self {
            CardinalPoints::NorthWest => 8,
            CardinalPoints::North => 9,
            CardinalPoints::NorthEast => 10,
            CardinalPoints::East => 11,
            CardinalPoints::SouthEast => 12,
            CardinalPoints::South => 13,
            CardinalPoints::SouthWest => 14,
            CardinalPoints::West => 15,
        }
    }

    /// All eight points, in pin order.
    pub fn iterator() -> (v: Vec<CardinalPoints>)
        ensures
            v@.len() == 8,
            forall|i: int| 0 <= i < 8 ==> (#[trigger] v@[i].pin_spec()) == 8 + i,
    {
        let mut v: Vec<CardinalPoints> = Vec::new();
        v.push(CardinalPoints::NorthWest);
        v.push(CardinalPoints::North);
        v.push(CardinalPoints::NorthEast);
        v.push(CardinalPoints::East);
        v.push(CardinalPoints::SouthEast);
        v.push(CardinalPoints::South);
        v.push(CardinalPoints::SouthWest);
        v.push(CardinalPoints::West);
        v
    }
}

/// Needs GPIO port E: eight LEDs in a cardinal-points layout, with a
/// record of which pins have had their one-time configuration.
pub struct LEDs {
    pub gpio: GPIO,
    pub initialized: Vec<bool>,
}

/// What the one-time pin configuration for `led` does: on first use the
/// pin's two MODER bits become general-purpose output (0b01), its OTYPER
/// bit is cleared to push-pull, and the pin is remembered as
/// initialized; on any later use nothing changes.
pub open spec fn init_effect(pre: LEDs, post: LEDs, led: CardinalPoints) -> bool {
    let pin = led.pin_spec();
    &&& (pre.initialized@[pin - 8] ==> {
        &&& post.gpio.moder == pre.gpio.moder
        &&& post.gpio.otyper == pre.gpio.otyper
        &&& post.initialized@ == pre.initialized@
    })
    &&& (!pre.initialized@[pin - 8] ==> {
        &&& post.gpio.moder.val() == (pre.gpio.moder.val() & !(low_ones(2) << ((pin * 2) as u32)))
            | (1u32 << ((pin * 2) as u32))
        &&& post.gpio.otyper.val() == pre.gpio.otyper.val() & !(1u32 << pin)
        &&& post.initialized@ == pre.initialized@.update(pin - 8, true)
    })
}

impl LEDs {
    /// Eight LEDs over a fresh port: nothing configured yet.
    pub open spec fn wf(self) -> bool {
        self.initialized@.len() == 8
    }

    pub fn new(gpioe: GPIO) -> (l: LEDs)
        ensures
            l.wf(),
            l.gpio == gpioe,
            forall|i: int| 0 <= i < 8 ==> !(#[trigger] l.initialized@[i]),
    {
        let mut initialized: Vec<bool> = Vec::new();
        let mut i: usize = 0;
        while i < 8
            invariant
                i <= 8,
                initialized@.len() == i,
                forall|j: int| 0 <= j < i ==> !(#[trigger] initialized@[j]),
            decreases 8 - i,
        {
            initialized.push(false);
            i = i + 1;
        }
        LEDs { gpio: gpioe, initialized }
    }

    /// Checks whether the passed LED is initialized; if not, performs the
    /// GPIO configuration described in the module documentation.
    pub fn check_init(&mut self, led: CardinalPoints)
        requires
            old(self).wf(),
        ensures
            final(self).wf(),
            init_effect(*old(self), *final(self), led),
            final(self).gpio.ospeedr == old(self).gpio.ospeedr,
            final(self).gpio.pupdr == old(self).gpio.pupdr,
            final(self).gpio.idr == old(self).gpio.idr,
            final(self).gpio.odr == old(self).gpio.odr,
            final(self).gpio.bsrr == old(self).gpio.bsrr,
            final(self).gpio.lckr == old(self).gpio.lckr,
            final(self).gpio.afrl == old(self).gpio.afrl,
            final(self).gpio.afrh == old(self).gpio.afrh,
            final(self).gpio.brr == old(self).gpio.brr,
    {
        let pin = led.pin();
        let idx = (pin - 8) as usize;
        if !self.initialized[idx] {
            proof {
                assert(1u32 <= low_ones(2)) by (bit_vector);
            }
            self.gpio.moder.replace_bits(pin * 2, 0b01, 2);
            self.gpio.otyper.clear_bit(pin);
            self.initialized.set(idx, true);
        }
    }

    /// Turns the LED on. If necessary, initializes the pin first.
    pub fn on(&mut self, led: CardinalPoints)
        requires
            old(self).wf(),
        ensures
            final(self).wf(),
            init_effect(*old(self), *final(self), led),
            final(self).gpio.odr.val() == old(self).gpio.odr.val() | (1u32 << led.pin_spec()),
            final(self).gpio.ospeedr == old(self).gpio.ospeedr,
            final(self).gpio.pupdr == old(self).gpio.pupdr,
            final(self).gpio.idr == old(self).gpio.idr,
            final(self).gpio.bsrr == old(self).gpio.bsrr,
            final(self).gpio.lckr == old(self).gpio.lckr,
            final(self).gpio.afrl == old(self).gpio.afrl,
            final(self).gpio.afrh == old(self).gpio.afrh,
            final(self).gpio.brr == old(self).gpio.brr,
    {
        self.check_init(led);
        let pin = led.pin();
        self.gpio.odr.set_bit(pin);
    }

    /// Turns the LED off.
    pub fn off(&mut self, led: CardinalPoints)
        requires
            old(self).wf(),
        ensures
            final(self).wf(),
            final(self).gpio.odr.val() == old(self).gpio.odr.val() & !(1u32 << led.pin_spec()),
            final(self).gpio.moder == old(self).gpio.moder,
            final(self).gpio.otyper == old(self).gpio.otyper,
            final(self).initialized@ == old(self).initialized@,
            final(self).gpio.ospeedr == old(self).gpio.ospeedr,
            final(self).gpio.pupdr == old(self).gpio.pupdr,
            final(self).gpio.idr == old(self).gpio.idr,
            final(self).gpio.bsrr == old(self).gpio.bsrr,
            final(self).gpio.lckr == old(self).gpio.lckr,
            final(self).gpio.afrl == old(self).gpio.afrl,
            final(self).gpio.afrh == old(self).gpio.afrh,
            final(self).gpio.brr == old(self).gpio.brr,
    {
        let pin = led.pin();
        self.gpio.odr.clear_bit(pin);
    }

    /// Turns every LED off: clears the whole pin block 8..=15 of the
    /// output data register.
    pub fn all_off(&mut self)
        requires
            old(self).wf(),
        ensures
            final(self).wf(),
            final(self).gpio.odr.val() == old(self).gpio.odr.val() & !0xff00u32,
            final(self).gpio.moder == old(self).gpio.moder,
            final(self).gpio.otyper == old(self).gpio.otyper,
            final(self).initialized@ == old(self).initialized@,
            final(self).gpio.ospeedr == old(self).gpio.ospeedr,
            final(self).gpio.pupdr == old(self).gpio.pupdr,
            final(self).gpio.idr == old(self).gpio.idr,
            final(self).gpio.bsrr == old(self).gpio.bsrr,
            final(self).gpio.lckr == old(self).gpio.lckr,
            final(self).gpio.afrl == old(self).gpio.afrl,
            final(self).gpio.afrh == old(self).gpio.afrh,
            final(self).gpio.brr == old(self).gpio.brr,
    {
        let points = CardinalPoints::iterator();
        let ghost odr0 = self.gpio.odr.val();
        proof {
            assert(odr0 & !(low_ones(0u32) << 8u32) == odr0) by (bit_vector);
        }
        let mut i: usize = 0;
        while i < 8
            invariant
                self.wf(),
                points@.len() == 8,
                forall|k: int| 0 <= k < 8 ==> (#[trigger] points@[k].pin_spec()) == 8 + k,
                i <= 8,
                odr0 == old(self).gpio.odr.val(),
                self.gpio.odr.val() == odr0 & !(low_ones(i as u32) << 8u32),
                self.gpio.moder == old(self).gpio.moder,
                self.gpio.otyper == old(self).gpio.otyper,
                self.initialized@ == old(self).initialized@,
                self.gpio.ospeedr == old(self).gpio.ospeedr,
                self.gpio.pupdr == old(self).gpio.pupdr,
                self.gpio.idr == old(self).gpio.idr,
                self.gpio.bsrr == old(self).gpio.bsrr,
                self.gpio.lckr == old(self).gpio.lckr,
                self.gpio.afrl == old(self).gpio.afrl,
                self.gpio.afrh == old(self).gpio.afrh,
                self.gpio.brr == old(self).gpio.brr,
            decreases 8 - i,
        {
            self.off(points[i]);
            proof {
                let iu = i as u32;
                assert((odr0 & !(low_ones(iu) << 8u32)) & !(1u32 << ((8 + iu) as u32)) == odr0 & !(
                low_ones(((iu + 1) as u32)) << 8u32)) by (bit_vector)
                    requires
                        iu < 8,
                ;
            }
            i = i + 1;
        }
        proof {
            assert(odr0 & !(low_ones(8u32) << 8u32) == odr0 & !0xff00u32) by (bit_vector);
        }
    }

    /// Toggles the LED. If necessary, initializes the pin first.
    pub fn toggle(&mut self, led: CardinalPoints)
        requires
            old(self).wf(),
        ensures
            final(self).wf(),
            init_effect(*old(self), *final(self), led),
            final(self).gpio.odr.val() == old(self).gpio.odr.val() ^ (1u32 << led.pin_spec()),
            final(self).gpio.ospeedr == old(self).gpio.ospeedr,
            final(self).gpio.pupdr == old(self).gpio.pupdr,
            final(self).gpio.idr == old(self).gpio.idr,
            final(self).gpio.bsrr == old(self).gpio.bsrr,
            final(self).gpio.lckr == old(self).gpio.lckr,
            final(self).gpio.afrl == old(self).gpio.afrl,
            final(self).gpio.afrh == old(self).gpio.afrh,
            final(self).gpio.brr == old(self).gpio.brr,
    {
        self.check_init(led);
        let pin = led.pin();
        let ghost before = self.gpio.odr.val();
        self.gpio.odr.flip_bits(pin, 1);
        proof {
            let p = led.pin_spec();
            assert(before ^ (low_ones(1) << p) == before ^ (1u32 << p)) by (bit_vector)
                requires
                    p < 32u32,
            ;
        }
    }
}

} // verus!
