//! # USART1
//!
//! A basic text console over the USART device. Creating the object takes
//! the GPIO port whose pin 9 carries the transmit line; `init` programs
//! pin and controller for the chosen baud rate. The [`iostream`] trait
//! lets both string and integer values be transmitted directly; what has
//! completed transmission is recorded in the driver's `sent` transcript,
//! the model of the serial wire.

use crate::dp::gpio::GPIO;
use crate::dp::uart::UART;
use crate::util::register::low_ones;
use vstd::prelude::*;
use vstd::slice::slice_index_get;
use vstd::string::StringSliceAdditionalSpecFns;

verus! {

/// The carriage-return and newline pair `println` appends.
pub open spec fn crlf_seq() -> Seq<u32> {
    seq![0x0du32, 0x0au32]
}

/// The decimal digits of `n` as transmitted characters, least
/// significant first; empty for zero.
pub open spec fn dec_digits_lsb(n: nat) -> Seq<u32>
    decreases n,
{
    if n == 0 {
        Seq::empty()
    } else {
        seq![(n % 10 + 0x30) as u32] + dec_digits_lsb(n / 10)
    }
}

/// Powers of ten.
pub open spec fn pow10(k: nat) -> int
    decreases k,
{
    if k == 0 {
        1
    } else {
        10 * pow10((k - 1) as nat)
    }
}

proof fn lemma_pow10_pos(k: nat)
    ensures
        pow10(k) >= 1,
    decreases k,
{
    if k > 0 {
        lemma_pow10_pos((k - 1) as nat);
    }
}

/// A number below the `b`-th power of ten has at most `b` decimal
/// digits.
proof fn lemma_digits_len(n: nat, b: nat)
    requires
        n < pow10(b),
    ensures
        dec_digits_lsb(n).len() <= b,
    decreases b,
{
    if n > 0 {
        assert(b >= 1);
        lemma_pow10_pos((b - 1) as nat);
        assert(n / 10 < pow10((b - 1) as nat)) by (nonlinear_arith)
            requires
                n < 10 * pow10((b - 1) as nat) && pow10((b - 1) as nat) >= 1,
        ;
        lemma_digits_len(n / 10, (b - 1) as nat);
    }
}

/// Writes values on the text console. `print` transmits the value's
/// character sequence; `println` appends a carriage return and newline
/// after the payload.
#[allow(non_camel_case_types)]
pub trait iostream {
    /// The characters one `print` of this value transmits, in order.
    spec fn transmit_seq(&self) -> Seq<u32>;

    /// Transmits the value on the console.
    fn print(&self, out: &mut USART1)
        ensures
            final(out).sent@ == old(out).sent@ + self.transmit_seq(),
            final(out).gpio == old(out).gpio,
            final(out).baudrate == old(out).baudrate,
    ;

    /// Transmits the value, then a carriage return and a newline.
    fn println(&self, out: &mut USART1)
        ensures
            final(out).sent@ == old(out).sent@ + self.transmit_seq() + crlf_seq(),
            final(out).gpio == old(out).gpio,
            final(out).baudrate == old(out).baudrate,
    ;
}

/// Transmits the text's bytes, one character per byte.
impl iostream for &str {
    open spec fn transmit_seq(&self) -> Seq<u32> {
        Seq::new(self.spec_bytes().len(), |i: int| self.spec_bytes()[i] as u32)
    }

    fn print(&self, out: &mut USART1) {
        let bytes = self.as_bytes();
        let mut i: usize = 0;
        while i < bytes.len()
            invariant
                i <= bytes@.len(),
                bytes@ == self.spec_bytes(),
                out.sent@ == old(out).sent@ + Seq::new(i as nat, |k: int| bytes@[k] as u32),
                out.gpio == old(out).gpio,
                out.baudrate == old(out).baudrate,
            decreases bytes@.len() - i,
        {
            let c = *slice_index_get(bytes, i);
            out.transmit(c as u32);
            proof {
                assert(out.sent@ =~= old(out).sent@ + Seq::new(
                    (i + 1) as nat,
                    |k: int| bytes@[k] as u32,
                ));
            }
            i = i + 1;
        }
        proof {
            assert(out.sent@ =~= old(out).sent@ + self.transmit_seq());
        }
    }

    fn println(&self, out: &mut USART1) {
        self.print(out);
        out.transmit(0x0d);
        out.transmit(0x0a);
        proof {
            assert(out.sent@ =~= old(out).sent@ + self.transmit_seq() + crlf_seq());
        }
    }
}

/// Transmits a 32-entry buffer holding the number's decimal digits at
/// its front, most significant digit last, sent in reverse: the unused
/// tail goes out first as zero characters, then the digits from most to
/// least significant.
impl iostream for u32 {
    open spec fn transmit_seq(&self) -> Seq<u32> {
        Seq::new(
            32,
            |i: int|
                {
                    let d = dec_digits_lsb(*self as nat);
                    if 31 - i < d.len() {
                        d[31 - i]
                    } else {
                        0u32
                    }
                },
        )
    }

    fn print(&self, out: &mut USART1) {
        transmit_decimal(*self, out);
        proof {
            assert(out.sent@ =~= old(out).sent@ + self.transmit_seq());
        }
    }

    fn println(&self, out: &mut USART1) {
        transmit_decimal(*self, out);
        out.transmit(0x0d);
        out.transmit(0x0a);
        proof {
            assert(out.sent@ =~= old(out).sent@ + self.transmit_seq() + crlf_seq());
        }
    }
}

/// Breaks `value` into its decimal digits and transmits the 32-byte
/// digit buffer in reverse order.
fn transmit_decimal(value: u32, out: &mut USART1)
    ensures
        final(out).sent@ == old(out).sent@ + Seq::new(
            32,
            |i: int|
                {
                    let d = dec_digits_lsb(value as nat);
                    if 31 - i < d.len() {
                        d[31 - i]
                    } else {
                        0u32
                    }
                },
        ),
        final(out).gpio == old(out).gpio,
        final(out).baudrate == old(out).baudrate,
{
    let mut buffer: Vec<u32> = Vec::new();
    let mut fill: usize = 0;
    while fill < 32
        invariant
            fill <= 32,
            buffer@.len() == fill,
            forall|k: int| 0 <= k < fill ==> buffer@[k] == 0u32,
        decreases 32 - fill,
    {
        buffer.push(0);
        fill = fill + 1;
    }

    proof {
        reveal_with_fuel(pow10, 11);
        assert(pow10(10) == 10_000_000_000int);
        lemma_digits_len(value as nat, 10);
    }

    let mut cnt: usize = 0;
    let mut dec: u32 = value;
    while dec > 0
        invariant
            buffer@.len() == 32,
            cnt + dec_digits_lsb(dec as nat).len() == dec_digits_lsb(value as nat).len(),
            dec_digits_lsb(value as nat).len() <= 10,
            cnt <= 10,
            dec_digits_lsb(value as nat) == buffer@.take(cnt as int) + dec_digits_lsb(dec as nat),
            forall|k: int| cnt <= k < 32 ==> buffer@[k] == 0u32,
        decreases dec,
    {
        let digit: u32 = dec % 10 + 0x30;
        let ghost pre_buf = buffer@;
        buffer.set(cnt, digit);
        proof {
            assert(dec_digits_lsb(dec as nat) == seq![(dec as nat % 10 + 0x30) as u32]
                + dec_digits_lsb((dec / 10) as nat));
            assert(buffer@.take((cnt + 1) as int) =~= pre_buf.take(cnt as int) + seq![digit]);
            assert(dec_digits_lsb(value as nat) =~= buffer@.take((cnt + 1) as int)
                + dec_digits_lsb((dec / 10) as nat));
        }
        dec = dec / 10;
        cnt = cnt + 1;
    }
    proof {
        assert(dec_digits_lsb(value as nat) =~= buffer@.take(cnt as int));
    }

    let mut i: usize = 0;
    while i < 32
        invariant
            buffer@.len() == 32,
            i <= 32,
            dec_digits_lsb(value as nat) == buffer@.take(
                dec_digits_lsb(value as nat).len() as int,
            ),
            dec_digits_lsb(value as nat).len() <= 10,
            forall|k: int|
                dec_digits_lsb(value as nat).len() <= k < 32 ==> buffer@[k] == 0u32,
            out.sent@ == old(out).sent@ + Seq::new(
                i as nat,
                |k: int|
                    {
                        let d = dec_digits_lsb(value as nat);
                        if 31 - k < d.len() {
                            d[31 - k]
                        } else {
                            0u32
                        }
                    },
            ),
            out.gpio == old(out).gpio,
            out.baudrate == old(out).baudrate,
        decreases 32 - i,
    {
        let c = buffer[31 - i];
        proof {
            let d = dec_digits_lsb(value as nat);
            if 31 - i < d.len() {
                assert(buffer@[31 - i as int] == d[31 - i as int]);
            }
        }
        out.transmit(c);
        proof {
            assert(out.sent@ =~= old(out).sent@ + Seq::new(
                (i + 1) as nat,
                |k: int|
                    {
                        let d = dec_digits_lsb(value as nat);
                        if 31 - k < d.len() {
                            d[31 - k]
                        } else {
                            0u32
                        }
                    },
            ));
        }
        i = i + 1;
    }
}

/// The USART1 console: the transmit-line GPIO port, the UART register
/// block, the configured baud rate, and the transcript of characters
/// whose transmission has completed — the model of the serial wire.
pub struct USART1 {
    pub gpio: GPIO,
    pub uart: UART,
    pub baudrate: u32,
    pub sent: Vec<u32>,
}

impl USART1 {
    /// A new USART device over `gpioa`, not yet initialized; the UART
    /// block is in its reset state and nothing has been transmitted.
    pub fn new(gpioa: GPIO, baudrate: u32) -> (u: USART1)
        ensures
            u.gpio == gpioa,
            u.baudrate == baudrate,
            u.sent@ == Seq::<u32>::empty(),
            u.uart.cr1.val() == 0,
            u.uart.brr.val() == 0,
            u.uart.tdr.val() == 0,
    {
        USART1 { gpio: gpioa, uart: UART::new(), baudrate, sent: Vec::new() }
    }

    /// Programs pin 9 into its alternate function (push-pull, af7) and
    /// configures the controller: the baud-rate register from the 8 MHz
    /// clock, transmitter and receiver enabled, controller enabled.
    pub fn init(&mut self)
        requires
            old(self).baudrate >= 1,
        ensures
            final(self).gpio.moder.val() == old(self).gpio.moder.val() | 0x0008_0000u32,
            final(self).gpio.otyper.val() == old(self).gpio.otyper.val() & !0x0000_0200u32,
            final(self).gpio.afrh.val() == (old(self).gpio.afrh.val() & !0xf0u32) | 0x70u32,
            final(self).uart.brr.val() == 8_000_000u32 / old(self).baudrate,
            final(self).uart.cr1.val() == old(self).uart.cr1.val() | 13u32,
            final(self).baudrate == old(self).baudrate,
            final(self).sent@ == old(self).sent@,
            final(self).gpio.ospeedr == old(self).gpio.ospeedr,
            final(self).gpio.pupdr == old(self).gpio.pupdr,
            final(self).gpio.idr == old(self).gpio.idr,
            final(self).gpio.odr == old(self).gpio.odr,
            final(self).gpio.bsrr == old(self).gpio.bsrr,
            final(self).gpio.lckr == old(self).gpio.lckr,
            final(self).gpio.afrl == old(self).gpio.afrl,
            final(self).gpio.brr == old(self).gpio.brr,
            final(self).uart.cr2 == old(self).uart.cr2,
            final(self).uart.cr3 == old(self).uart.cr3,
            final(self).uart.tdr == old(self).uart.tdr,
    {
        // pin 9 into alternate function mode
        let ghost m0 = self.gpio.moder.val();
        self.gpio.moder.set_bit(19);
        proof {
            assert(m0 | (1u32 << 19u32) == m0 | 0x0008_0000u32) by (bit_vector);
        }
        // the transmit pin must be a push-pull output
        let ghost o0 = self.gpio.otyper.val();
        self.gpio.otyper.clear_bit(9);
        proof {
            assert(o0 & !(1u32 << 9u32) == o0 & !0x0000_0200u32) by (bit_vector);
        }
        // the alternate function for this pin and usart-tx is af7
        let ghost a0 = self.gpio.afrh.val();
        proof {
            assert(7u32 <= low_ones(4)) by (bit_vector);
        }
        self.gpio.afrh.replace_bits(4, 7, 4);
        proof {
            assert((a0 & !(low_ones(4) << 4u32)) | (7u32 << 4u32) == (a0 & !0xf0u32) | 0x70u32)
                by (bit_vector);
        }
        // baud rate from the 8 MHz clock; settings only take effect while
        // the controller is disabled
        let quotient: u32 = 8_000_000 / self.baudrate;
        let ghost b0 = self.uart.brr.val();
        proof {
            assert(quotient <= low_ones(32)) by (bit_vector);
        }
        self.uart.brr.replace_bits(0, quotient, 32);
        proof {
            assert((b0 & !(low_ones(32) << 0u32)) | (quotient << 0u32) == quotient)
                by (bit_vector);
        }
        // transmitter on, receiver on, controller on
        let ghost c0 = self.uart.cr1.val();
        self.uart.cr1.set_bit(2);
        self.uart.cr1.set_bit(3);
        self.uart.cr1.set_bit(0);
        proof {
            assert(((c0 | (1u32 << 2u32)) | (1u32 << 3u32)) | (1u32 << 0u32) == c0 | 13u32)
                by (bit_vector);
        }
    }

    /// Writes one character into the transmit data register and records
    /// its completed transmission; on the device this polls the status
    /// flag until the controller has sent the byte.
    fn transmit(&mut self, c: u32)
        ensures
            final(self).uart.tdr.val() == c,
            final(self).sent@ == old(self).sent@.push(c),
            final(self).gpio == old(self).gpio,
            final(self).baudrate == old(self).baudrate,
            final(self).uart.cr1 == old(self).uart.cr1,
            final(self).uart.cr2 == old(self).uart.cr2,
            final(self).uart.cr3 == old(self).uart.cr3,
            final(self).uart.brr == old(self).uart.brr,
            final(self).uart.isr == old(self).uart.isr,
    {
        self.uart.tdr.write(c);
        self.sent.push(c);
    }
}

} // verus!
