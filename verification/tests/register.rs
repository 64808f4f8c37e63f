//! The bit-level register operations and the system timer built on them.

use lake_rtos::cp::CorePeripherals;
use lake_rtos::util::register::Register;

#[test]
fn set_and_clear_single_bits() {
    let mut r = Register::new(0b0101_1010);
    r.set_bit(2);
    assert_eq!(r.read(), 0b0101_1110);
    r.clear_bit(4);
    assert_eq!(r.read(), 0b0100_1110);
}

#[test]
fn set_and_clear_bit_blocks() {
    let mut r = Register::new(0b0101_1010);
    r.set_bits(1, 4);
    assert_eq!(r.read(), 0b0101_1110);
    r.clear_bits(2, 2);
    assert_eq!(r.read(), 0b0101_0010);
}

#[test]
fn replace_bits_clears_the_field_first() {
    let mut r = Register::new(0b0101_1010);
    r.replace_bits(1, 0b1011, 4);
    assert_eq!(r.read(), 0b0101_0110);
}

#[test]
fn flip_bits_toggles_the_block() {
    let mut r = Register::new(0b0101_1010);
    r.flip_bits(1, 4);
    assert_eq!(r.read(), 0b0100_0100);
}

#[test]
fn read_bits_extracts_a_field() {
    let mut r = Register::new(0xabcd_1234);
    assert_eq!(r.read_bits(0, 4), 0x4);
    assert_eq!(r.read_bits(16, 16), 0xabcd);
    assert_eq!(r.read_bits(4, 8), 0x23);
    // the register itself is untouched
    assert_eq!(r.read(), 0xabcd_1234);
}

#[test]
fn length_to_ones_in_bit_builds_one_blocks() {
    assert_eq!(Register::length_to_ones_in_bit(0), 0);
    assert_eq!(Register::length_to_ones_in_bit(1), 0b1);
    assert_eq!(Register::length_to_ones_in_bit(4), 0b1111);
    assert_eq!(Register::length_to_ones_in_bit(31), 0x7fff_ffff);
    assert_eq!(Register::length_to_ones_in_bit(32), 0xffff_ffff);
    assert_eq!(Register::length_to_ones_in_bit(33), 0xffff_ffff);
}

#[test]
fn core_peripherals_hand_the_timer_out_once() {
    let mut flag = false;
    let mut cp = CorePeripherals::take(&mut flag).unwrap();
    assert!(CorePeripherals::take(&mut flag).is_none());
    assert!(cp.take_system_timer().is_some());
    assert!(cp.take_system_timer().is_none());
}

#[test]
fn timer_register_protocol() {
    let mut flag = false;
    let mut cp = CorePeripherals::take(&mut flag).unwrap();
    let mut t = cp.take_system_timer().unwrap();
    t.set_reload(0x3ab);
    assert_eq!(t.stk_load.get(), 0x3ab);
    // a reload above the maximum is ignored
    t.set_reload(0x0100_0000);
    assert_eq!(t.stk_load.get(), 0x3ab);
    t.clear_val();
    assert_eq!(t.stk_val.get(), 0b1);
    t.tickint(true);
    assert_eq!(t.stk_ctrl.get(), 0b10);
    t.enable();
    assert_eq!(t.stk_ctrl.get(), 0b11);
    t.disable();
    assert_eq!(t.stk_ctrl.get(), 0b10);
    t.tickint(false);
    assert_eq!(t.stk_ctrl.get(), 0);
}
