//! PL011 UART behaviour on the device model.

use rpi_hal::regs::GpioRegisters;
use rpi_hal::uart::uart0::Pl011Uart;

#[test]
fn pl011_init_programs_the_documented_values() {
    let mut dev = Pl011Uart::new();
    let mut gpio = GpioRegisters::new();
    dev.init(&mut gpio);

    // pins 14 and 15 routed to ALT0
    assert_eq!(gpio.gpfsel1, (0b100 << 12) | (0b100 << 15));
    // every pending interrupt cleared
    assert_eq!(dev.regs.icr, 0x7FF);
    // 115200 baud from a 48 MHz UART clock: divisor 26 + 3/64
    assert_eq!(dev.regs.ibrd, 26);
    assert_eq!(dev.regs.fbrd, 3);
    // 8-bit words, FIFOs enabled
    assert_eq!(dev.regs.lcrh, (1 << 4) | (1 << 5) | (1 << 6));
    // engine enabled with transmit and receive active
    assert_eq!(dev.regs.cr, (1 << 0) | (1 << 8) | (1 << 9));
}

#[test]
fn write_string_hands_each_byte_over_in_order() {
    // the transmit-ready flag is observed before each byte enters the
    // FIFO; the device model only accepts a byte when it has room, so the
    // two bytes of "Hi" stand in the transmit path in order
    let mut dev = Pl011Uart::new();
    dev.write_byte(b'H');
    dev.write_byte(b'i');
    let mut handed: Vec<u8> = dev.tx_wire.clone();
    handed.extend_from_slice(&dev.tx_fifo);
    assert_eq!(handed, vec![b'H', b'i']);
    dev.flush();
    assert_eq!(dev.tx_wire, vec![b'H', b'i']);
    assert_eq!(dev.tx_fifo.len(), 0);
}

#[test]
fn pl011_read_byte_takes_the_oldest_pending_byte() {
    let mut dev = Pl011Uart::new();
    dev.push_rx(0xAA);
    dev.push_rx(0xBB);
    assert_eq!(dev.read_byte(), Some(0xAA));
    assert_eq!(dev.read_byte(), Some(0xBB));
    assert_eq!(dev.read_byte(), None);
}

#[test]
fn pl011_is_data_ready_tracks_the_receive_fifo() {
    let mut dev = Pl011Uart::new();
    assert!(!dev.is_data_ready());
    dev.push_rx(1);
    assert!(dev.is_data_ready());
}

#[test]
fn flags_report_empty_and_idle() {
    let mut dev = Pl011Uart::new();
    let fr = dev.read_fr();
    // fresh device: receive FIFO empty (bit 4), transmit FIFO empty (bit 7),
    // not full (bit 5)
    assert_ne!(fr & (1 << 4), 0);
    assert_ne!(fr & (1 << 7), 0);
    assert_eq!(fr & (1 << 5), 0);
    dev.push_rx(3);
    let fr = dev.read_fr();
    assert_eq!(fr & (1 << 4), 0); // received data pending now
}
