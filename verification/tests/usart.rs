//! The USART1 console driver and the iostream printing.

use lake_rtos::dp::DevicePeripherals;
use lake_rtos::dp::gpio::GPIO;
use lake_rtos::driver::usart1::USART1;
use lake_rtos::driver::usart1::iostream;

#[test]
fn init_programs_pin_and_controller() {
    let mut usart = USART1::new(GPIO::new(), 9600);
    usart.init();
    // pin 9: alternate function mode, push-pull, af7
    assert_eq!(usart.gpio.moder.get() & (1 << 19), 1 << 19);
    assert_eq!(usart.gpio.otyper.get() & (1 << 9), 0);
    assert_eq!(usart.gpio.afrh.get(), 0x70);
    // the baud-rate register from the 8 MHz clock
    assert_eq!(usart.uart.brr.get(), 8_000_000 / 9600);
    // receiver, transmitter and controller enabled
    assert_eq!(usart.uart.cr1.get(), 0b1101);
}

#[test]
fn brr_follows_the_baud_rate() {
    let mut usart = USART1::new(GPIO::new(), 115_200);
    usart.init();
    assert_eq!(usart.uart.brr.get(), 69);
}

#[test]
fn print_transmits_the_text_bytes() {
    let mut usart = USART1::new(GPIO::new(), 9600);
    usart.init();
    "hi".print(&mut usart);
    assert_eq!(usart.sent, vec![b'h' as u32, b'i' as u32]);
    "!".println(&mut usart);
    assert_eq!(
        usart.sent,
        vec![b'h' as u32, b'i' as u32, b'!' as u32, 0x0d, 0x0a]
    );
}

#[test]
fn print_transmits_the_number_buffer_reversed() {
    let mut usart = USART1::new(GPIO::new(), 9600);
    usart.init();
    1234u32.print(&mut usart);
    // the whole 32-byte digit buffer goes out in reverse: the unused
    // tail first as zero characters, then the digits
    assert_eq!(usart.sent.len(), 32);
    for k in 0..28 {
        assert_eq!(usart.sent[k], 0);
    }
    assert_eq!(&usart.sent[28..], &[0x31, 0x32, 0x33, 0x34]);
}

#[test]
fn println_of_zero_sends_only_the_empty_buffer() {
    let mut usart = USART1::new(GPIO::new(), 9600);
    usart.init();
    0u32.println(&mut usart);
    assert_eq!(usart.sent.len(), 34);
    for k in 0..32 {
        assert_eq!(usart.sent[k], 0);
    }
    assert_eq!(&usart.sent[32..], &[0x0d, 0x0a]);
}

#[test]
fn device_peripherals_hand_the_bus_out_once() {
    let mut dp = DevicePeripherals::new();
    let first = dp.take();
    assert!(first.is_some());
    assert!(dp.take().is_none());
    // the bus reaches the clock controller and GPIO port E in reset state
    let bus = first.unwrap();
    let mut rcc = bus.ahb1().rcc();
    rcc.iopeen();
    assert_eq!(rcc.ahbenr.get(), 1 << 21);
    let gpioe = bus.ahb2().gpioe();
    assert_eq!(gpioe.odr.get(), 0);
}
