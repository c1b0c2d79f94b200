//! Logging shim: formats nothing itself, it only forwards text to the
//! selected UART's byte writer.
//!
//! The shim owns the device it logs through. Text goes out exactly as
//! given; the line writer adds the carriage-return/newline pair that a
//! serial terminal expects at the end of a line.

use vstd::prelude::*;
use vstd::string::StringSliceAdditionalSpecFns;

use crate::uart::line::{BYTE_CR, BYTE_LF};
use crate::uart::Uart;

verus! {

/// Forwards text to the UART it owns.
pub struct Logger {
    /// The device the text goes out through.
    pub uart: Uart,
}

impl Logger {
    /// Wrap a device.
    pub fn new(uart: Uart) -> (r: Logger)
        ensures
            r.uart == uart,
    {
        Logger { uart }
    }

    /// Forward every byte of `s` to the device, in order.
    pub fn write_str(&mut self, s: &str)
        requires
            old(self).uart.wf(),
        ensures
            final(self).uart.wf(),
            Uart::same_config(old(self).uart, final(self).uart),
            final(self).uart.rx_q() == old(self).uart.rx_q(),
            final(self).uart.tx_stream() == old(self).uart.tx_stream() + s.spec_bytes(),
    {
        self.uart.write_string(s);
    }

    /// Forward every byte of `s`, then the carriage-return/newline pair
    /// that ends a line on a serial terminal.
    pub fn write_line(&mut self, s: &str)
        requires
            old(self).uart.wf(),
        ensures
            final(self).uart.wf(),
            Uart::same_config(old(self).uart, final(self).uart),
            final(self).uart.rx_q() == old(self).uart.rx_q(),
            final(self).uart.tx_stream() == old(self).uart.tx_stream() + s.spec_bytes() + seq![
                BYTE_CR,
                BYTE_LF,
            ],
    {
        self.uart.write_string(s);
        self.uart.write_byte(BYTE_CR);
        self.uart.write_byte(BYTE_LF);
        proof {
            assert((old(self).uart.tx_stream() + s.spec_bytes()).push(BYTE_CR).push(BYTE_LF) =~= old(
                self,
            ).uart.tx_stream() + s.spec_bytes() + seq![BYTE_CR, BYTE_LF]);
        }
    }
}

} // verus!
