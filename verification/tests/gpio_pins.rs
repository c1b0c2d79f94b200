//! GPIO driver behaviour on a register model under test.

use rpi_hal::gpio::GpioPin;
use rpi_hal::regs::GpioRegisters;

#[test]
fn low_pin_output_then_high_then_low() {
    // a pin below 32: function select in gpfsel0, level bits in gpset0/gpclr0
    let mut regs = GpioRegisters::new();
    let pin = GpioPin::new(5);

    pin.set_output(&mut regs);
    assert_eq!(regs.gpfsel0, 0b001 << 15); // field for pin 5 holds the output code

    pin.set_high(&mut regs);
    assert_eq!(regs.gpset0, 1 << 5);
    assert_eq!(regs.gpclr0, 0);

    pin.set_low(&mut regs);
    assert_eq!(regs.gpclr0, 1 << 5);
}

#[test]
fn high_pin_output_then_high_then_low() {
    // a pin at or above 32: function select in gpfsel4, level bits in gpset1/gpclr1
    let mut regs = GpioRegisters::new();
    let pin = GpioPin::new(42);

    pin.set_output(&mut regs);
    assert_eq!(regs.gpfsel4, 0b001 << 6); // pin 42 is the third field of gpfsel4

    pin.set_high(&mut regs);
    assert_eq!(regs.gpset1, 1 << 10);
    assert_eq!(regs.gpset0, 0);

    pin.set_low(&mut regs);
    assert_eq!(regs.gpclr1, 1 << 10);
    assert_eq!(regs.gpclr0, 0);
}

#[test]
fn set_output_clears_the_field_first() {
    let mut regs = GpioRegisters::new();
    regs.gpfsel0 = 0xFFFF_FFFF;
    let pin = GpioPin::new(5);
    pin.set_output(&mut regs);
    assert_eq!(regs.gpfsel0, (0xFFFF_FFFF & !(0b111 << 15)) | (0b001 << 15));
}

#[test]
fn boundary_pin_stays_inside_the_register_set() {
    // pin 53 lives in the last function-select register
    let mut regs = GpioRegisters::new();
    let pin = GpioPin::new(53);
    pin.set_output(&mut regs);
    assert_eq!(regs.gpfsel5, 0b001 << 9);
    assert_eq!(regs.gpfsel0, 0);
    assert_eq!(regs.gpfsel1, 0);
    assert_eq!(regs.gpfsel2, 0);
    assert_eq!(regs.gpfsel3, 0);
    assert_eq!(regs.gpfsel4, 0);
    assert_eq!(regs.gpset0, 0);
    assert_eq!(regs.gpset1, 0);
    assert_eq!(regs.gpclr0, 0);
    assert_eq!(regs.gpclr1, 0);
}

#[test]
fn pin_past_the_register_set_is_ignored() {
    // an index mapping past the last function-select register selects nothing
    let mut regs = GpioRegisters::new();
    let pin = GpioPin::new(60);
    pin.set_output(&mut regs);
    assert_eq!(regs.gpfsel0, 0);
    assert_eq!(regs.gpfsel1, 0);
    assert_eq!(regs.gpfsel2, 0);
    assert_eq!(regs.gpfsel3, 0);
    assert_eq!(regs.gpfsel4, 0);
    assert_eq!(regs.gpfsel5, 0);
}
