//! Mini UART behaviour on the device model.

use rpi_hal::regs::GpioRegisters;
use rpi_hal::uart::mini_uart::MiniUart;

#[test]
fn init_programs_the_documented_values() {
    let mut dev = MiniUart::new();
    let mut gpio = GpioRegisters::new();
    dev.init(&mut gpio);

    // pins 14 and 15 routed to ALT5
    assert_eq!(gpio.gpfsel1, (0b010 << 12) | (0b010 << 15));
    // engine enabled in the auxiliary block
    assert_eq!(dev.aux.aux_enables, 1);
    // 115200 baud from a 250 MHz clock
    assert_eq!(dev.regs.aux_mu_baud_reg, 270);
    // 8-bit mode
    assert_eq!(dev.regs.aux_mu_lcr_reg, 1);
    // receiver and transmitter enabled
    assert_eq!(dev.regs.aux_mu_cntl_reg, 0b11);
    // both FIFO-clear bits written
    assert_eq!(dev.regs.aux_mu_iir_reg, 0b110);
    // FIFOs drained
    assert_eq!(dev.rx_fifo.len(), 0);
    assert_eq!(dev.tx_fifo.len(), 0);
}

#[test]
fn init_preserves_other_fsel_fields() {
    let mut dev = MiniUart::new();
    let mut gpio = GpioRegisters::new();
    gpio.gpfsel1 = 0b111 | (0b111 << 27); // unrelated pins keep their functions
    dev.init(&mut gpio);
    assert_eq!(gpio.gpfsel1, 0b111 | (0b111 << 27) | (0b010 << 12) | (0b010 << 15));
}

#[test]
fn write_byte_reaches_the_wire_after_flush() {
    let mut dev = MiniUart::new();
    dev.write_byte(0x55);
    dev.flush();
    assert_eq!(dev.tx_wire, vec![0x55]);
    assert_eq!(dev.tx_fifo.len(), 0);
}

#[test]
fn write_byte_order_is_kept() {
    let mut dev = MiniUart::new();
    dev.write_byte(b'H');
    dev.write_byte(b'i');
    dev.flush();
    assert_eq!(dev.tx_wire, vec![b'H', b'i']);
}

#[test]
fn read_byte_takes_the_oldest_pending_byte() {
    let mut dev = MiniUart::new();
    dev.push_rx(10);
    dev.push_rx(20);
    assert_eq!(dev.read_byte(), Some(10));
    assert_eq!(dev.read_byte(), Some(20));
    assert_eq!(dev.read_byte(), None);
}

#[test]
fn is_data_ready_tracks_the_receive_fifo() {
    let mut dev = MiniUart::new();
    assert!(!dev.is_data_ready());
    dev.push_rx(7);
    assert!(dev.is_data_ready());
    let _ = dev.read_byte();
    assert!(!dev.is_data_ready());
}

#[test]
fn lsr_reports_ready_and_idle() {
    let mut dev = MiniUart::new();
    // fresh device: transmitter idle (bit 6), room (bit 5), no data (bit 0)
    let lsr = dev.read_lsr();
    assert_eq!(lsr & 1, 0);
    assert_ne!(lsr & (1 << 5), 0);
    assert_ne!(lsr & (1 << 6), 0);
    dev.push_rx(1);
    dev.write_byte(2);
    let lsr = dev.read_lsr();
    assert_ne!(lsr & 1, 0);
}
