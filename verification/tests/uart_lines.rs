//! The shared protocol through the selected UART: line reading with
//! editing, string writing, and the logging shim.

use rpi_hal::log::Logger;
use rpi_hal::regs::GpioRegisters;
use rpi_hal::uart::{Uart, UartType};

fn feed(uart: &mut Uart, bytes: &[u8]) {
    for &b in bytes {
        uart.push_rx(b);
    }
}

fn drained_wire(uart: &mut Uart) -> Vec<u8> {
    uart.flush();
    match uart {
        Uart::Mini(m) => m.tx_wire.clone(),
        Uart::Pl011(p) => p.tx_wire.clone(),
    }
}

#[test]
fn backspace_removes_the_preceding_byte() {
    // "ab", a backspace that removes the b, then "c" and a return
    let mut uart = Uart::new(UartType::Pl011);
    feed(&mut uart, b"ab\x08c\r");
    let mut buf: Vec<u8> = vec![0; 8];
    let r = uart.read_line(&mut buf);
    assert_eq!(r, Some(2));
    assert_eq!(&buf[0..3], b"ac\0");
}

#[test]
fn backspace_echoes_the_erase_sequence() {
    let mut uart = Uart::new(UartType::Pl011);
    feed(&mut uart, b"ab\x08c\r");
    let mut buf: Vec<u8> = vec![0; 8];
    let _ = uart.read_line(&mut buf);
    // echo: a, b, then backspace-space-backspace, then c
    assert_eq!(drained_wire(&mut uart), vec![b'a', b'b', 8, b' ', 8, b'c']);
}

#[test]
fn full_buffer_completes_the_line() {
    // seven bytes exactly fill an eight-byte buffer's data cells
    let mut uart = Uart::new(UartType::Pl011);
    feed(&mut uart, b"abcdefg");
    let mut buf: Vec<u8> = vec![0xFF; 8];
    let r = uart.read_line(&mut buf);
    assert_eq!(r, Some(7));
    assert_eq!(&buf[..], b"abcdefg\0");
}

#[test]
fn overlong_input_stops_at_the_buffer() {
    let mut uart = Uart::new(UartType::Pl011);
    feed(&mut uart, b"abcdefgh");
    let mut buf: Vec<u8> = vec![0; 4];
    let r = uart.read_line(&mut buf);
    assert_eq!(r, Some(3));
    assert_eq!(&buf[..], b"abc\0");
    // the unread tail is still pending
    assert_eq!(uart.read_byte(), Some(b'd'));
}

#[test]
fn newline_terminates_like_carriage_return() {
    let mut uart = Uart::new(UartType::Mini);
    feed(&mut uart, b"ok\n");
    let mut buf: Vec<u8> = vec![0; 8];
    let r = uart.read_line(&mut buf);
    assert_eq!(r, Some(2));
    assert_eq!(&buf[0..3], b"ok\0");
}

#[test]
fn delete_acts_as_backspace() {
    let mut uart = Uart::new(UartType::Mini);
    feed(&mut uart, b"xy\x7fz\r");
    let mut buf: Vec<u8> = vec![0; 8];
    let r = uart.read_line(&mut buf);
    assert_eq!(r, Some(2));
    assert_eq!(&buf[0..3], b"xz\0");
}

#[test]
fn backspace_at_the_start_is_ignored() {
    let mut uart = Uart::new(UartType::Pl011);
    feed(&mut uart, b"\x08a\r");
    let mut buf: Vec<u8> = vec![0; 8];
    let r = uart.read_line(&mut buf);
    assert_eq!(r, Some(1));
    assert_eq!(&buf[0..2], b"a\0");
    // nothing was erased, so no erase sequence went out
    assert_eq!(drained_wire(&mut uart), vec![b'a']);
}

#[test]
fn exhausted_input_yields_no_line() {
    // on hardware the reader would still be spinning for more bytes
    let mut uart = Uart::new(UartType::Pl011);
    feed(&mut uart, b"ab");
    let mut buf: Vec<u8> = vec![0; 8];
    let r = uart.read_line(&mut buf);
    assert_eq!(r, None);
    assert_eq!(&buf[0..2], b"ab");
}

#[test]
fn write_string_is_a_byte_loop_in_order() {
    let mut uart = Uart::new(UartType::Pl011);
    uart.write_string("Hi");
    assert_eq!(drained_wire(&mut uart), vec![b'H', b'i']);
}

#[test]
fn write_string_on_the_mini_engine_matches() {
    let mut uart = Uart::new(UartType::Mini);
    uart.write_string("Hi");
    assert_eq!(drained_wire(&mut uart), vec![b'H', b'i']);
}

#[test]
fn init_selects_the_engine_function() {
    let mut uart = Uart::new(UartType::Mini);
    let mut gpio = GpioRegisters::new();
    uart.init(&mut gpio);
    assert_eq!(gpio.gpfsel1, (0b010 << 12) | (0b010 << 15));

    let mut uart = Uart::new(UartType::Pl011);
    let mut gpio = GpioRegisters::new();
    uart.init(&mut gpio);
    assert_eq!(gpio.gpfsel1, (0b100 << 12) | (0b100 << 15));
}

#[test]
fn echo_goes_out_while_typing() {
    let mut uart = Uart::new(UartType::Pl011);
    feed(&mut uart, b"hey\r");
    let mut buf: Vec<u8> = vec![0; 16];
    let _ = uart.read_line(&mut buf);
    assert_eq!(drained_wire(&mut uart), vec![b'h', b'e', b'y']);
}

#[test]
fn logger_appends_carriage_return_and_newline() {
    let mut logger = Logger::new(Uart::new(UartType::Pl011));
    logger.write_line("ok");
    assert_eq!(drained_wire(&mut logger.uart), vec![b'o', b'k', 13, 10]);
}

#[test]
fn logger_forwards_text_unchanged() {
    let mut logger = Logger::new(Uart::new(UartType::Mini));
    logger.write_str("a b");
    assert_eq!(drained_wire(&mut logger.uart), vec![b'a', b' ', b'b']);
}

#[test]
fn is_data_ready_polls_without_consuming() {
    let mut uart = Uart::new(UartType::Pl011);
    assert!(!uart.is_data_ready());
    uart.push_rx(b'x');
    assert!(uart.is_data_ready());
    assert!(uart.is_data_ready()); // polling does not consume
    assert_eq!(uart.read_byte(), Some(b'x'));
    assert!(!uart.is_data_ready());
}
