//! The UART driver: one serial protocol over two engines.
//!
//! The board offers two serial peripherals — the auxiliary "mini" UART and
//! the full PL011 — and routes both through the same two pins, so exactly
//! one of them carries the traffic. [`Uart`] is that choice, made once when
//! the device is built, and every operation of the shared protocol —
//! initialise, send bytes, poll for received bytes, flush, read an edited
//! line — dispatches to the chosen engine. The line reader and the string
//! writer are written once, here, against the engines' common contract.

pub mod line;

pub mod mini_uart;

pub mod uart0;

use vstd::prelude::*;
use vstd::string::StringSliceAdditionalSpecFns;

use crate::regs::{AuxiliaryRegisters, GpioRegisters, MiniUartRegisters, Pl011UartRegisters};
use crate::uart::line::LineOutcome;
use crate::uart::mini_uart::MiniUart;
use crate::uart::uart0::Pl011Uart;

verus! {

/// Which serial engine carries the traffic. The choice is made once, when
/// the device is built, and never changes afterwards.
pub enum UartType {
    /// The auxiliary block's simplified engine.
    Mini,
    /// The full PL011 engine.
    Pl011,
}

/// The selected UART: one of the two engines, with its state.
pub enum Uart {
    /// The mini UART carries the traffic.
    Mini(MiniUart),
    /// The PL011 carries the traffic.
    Pl011(Pl011Uart),
}

impl Uart {
    /// The chosen engine's device state is well formed.
    pub open spec fn wf(self) -> bool {
        match self {
            Uart::Mini(m) => m.wf(),
            Uart::Pl011(p) => p.wf(),
        }
    }

    /// Every byte software has handed to the transmitter, in order,
    /// whether already on the wire or still queued.
    pub open spec fn tx_stream(self) -> Seq<u8> {
        match self {
            Uart::Mini(m) => m.tx_stream(),
            Uart::Pl011(p) => p.tx_stream(),
        }
    }

    /// The bytes the transmitter has already shifted onto the wire.
    pub open spec fn sent(self) -> Seq<u8> {
        match self {
            Uart::Mini(m) => m.tx_wire@,
            Uart::Pl011(p) => p.tx_wire@,
        }
    }

    /// The received bytes software has not yet read, oldest first.
    pub open spec fn rx_q(self) -> Seq<u8> {
        match self {
            Uart::Mini(m) => m.rx_q(),
            Uart::Pl011(p) => p.rx_q(),
        }
    }

    /// The same engine is selected and its registers are unchanged between
    /// two states; only the FIFOs and the wire may differ.
    pub open spec fn same_config(pre: Uart, post: Uart) -> bool {
        match (pre, post) {
            (Uart::Mini(o), Uart::Mini(n)) => MiniUart::same_regs(o, n),
            (Uart::Pl011(o), Uart::Pl011(n)) => Pl011Uart::same_regs(o, n),
            _ => false,
        }
    }

    /// The three-bit GPIO function code that routes pins 14 and 15 to the
    /// chosen engine.
    pub open spec fn alt_fn(self) -> u32 {
        match self {
            Uart::Mini(_) => mini_uart::MINI_UART_ALT_FN,
            Uart::Pl011(_) => uart0::PL011_ALT_FN,
        }
    }

    /// A fresh device of the chosen kind: registers zeroed, FIFOs and wire
    /// empty.
    pub fn new(kind: UartType) -> (r: Uart)
        ensures
            r.wf(),
            r.tx_stream() == Seq::<u8>::empty(),
            r.sent() == Seq::<u8>::empty(),
            r.rx_q() == Seq::<u8>::empty(),
            (kind is Mini) == (r is Mini),
            (kind is Pl011) == (r is Pl011),
    {
        match kind {
            UartType::Mini => Uart::Mini(MiniUart::new()),
            UartType::Pl011 => Uart::Pl011(Pl011Uart::new()),
        }
    }

    /// A byte arrives on the wire and joins the receive FIFO. This is the
    /// line's side of the model, for harnesses that feed the driver.
    pub fn push_rx(&mut self, byte: u8)
        ensures
            Uart::same_config(*old(self), *final(self)),
            final(self).rx_q() == old(self).rx_q().push(byte),
            final(self).tx_stream() == old(self).tx_stream(),
            final(self).sent() == old(self).sent(),
            old(self).wf() ==> final(self).wf(),
    {
        match self {
            Uart::Mini(m) => m.push_rx(byte),
            Uart::Pl011(p) => p.push_rx(byte),
        }
    }

    /// Initialise the chosen engine: route pins 14 and 15 to its alternate
    /// function inside the GPIO block, then bring the engine up as its
    /// hardware demands — for the mini UART enable it in the auxiliary
    /// block, program baud and word length, enable both directions and
    /// drain the FIFOs; for the PL011 disable it, clear pending interrupts,
    /// program both divisors and the line control, then enable it with
    /// transmit and receive active.
    pub fn init(&mut self, gpio: &mut GpioRegisters)
        ensures
            *final(gpio) == (GpioRegisters {
                gpfsel1: ((old(gpio).gpfsel1 & !(0b111u32 << 12u32) & !(0b111u32 << 15u32)) | (old(
                    self,
                ).alt_fn() << 12u32)) | (old(self).alt_fn() << 15u32),
                ..*old(gpio)
            }),
            (match (*old(self), *final(self)) {
                (Uart::Mini(o), Uart::Mini(n)) => {
                    &&& n.aux == (AuxiliaryRegisters {
                        aux_enables: o.aux.aux_enables | 1u32,
                        ..o.aux
                    })
                    &&& n.regs == (MiniUartRegisters {
                        aux_mu_baud_reg: mini_uart::MINI_BAUD_115200,
                        aux_mu_lcr_reg: o.regs.aux_mu_lcr_reg | 1u32,
                        aux_mu_cntl_reg: o.regs.aux_mu_cntl_reg | 3u32,
                        aux_mu_iir_reg: o.regs.aux_mu_iir_reg | 6u32,
                        ..o.regs
                    })
                    &&& n.rx_q() == Seq::<u8>::empty()
                    &&& n.tx_fifo@ == Seq::<u8>::empty()
                    &&& n.tx_wire@ == o.tx_wire@
                },
                (Uart::Pl011(o), Uart::Pl011(n)) => {
                    &&& n.regs == (Pl011UartRegisters {
                        cr: (1u32 << 0u32) | (1u32 << 8u32) | (1u32 << 9u32),
                        icr: 0x7FF,
                        ibrd: uart0::PL011_IBRD_115200,
                        fbrd: uart0::PL011_FBRD_115200,
                        lcrh: (1u32 << 4u32) | (1u32 << 5u32) | (1u32 << 6u32),
                        ..o.regs
                    })
                    &&& n.rx_fifo@ == o.rx_fifo@
                    &&& n.tx_fifo@ == o.tx_fifo@
                    &&& n.tx_wire@ == o.tx_wire@
                },
                _ => false,
            }),
            old(self).wf() ==> final(self).wf(),
    {
        match self {
            Uart::Mini(m) => m.init(gpio),
            Uart::Pl011(p) => p.init(gpio),
        }
    }

    /// Send one byte: busy-wait until the chosen engine's transmit path
    /// has room, then hand the byte over. On hardware this polls without a
    /// timeout and can spin forever if the engine never reports room.
    pub fn write_byte(&mut self, byte: u8)
        requires
            old(self).wf(),
        ensures
            final(self).wf(),
            Uart::same_config(*old(self), *final(self)),
            final(self).rx_q() == old(self).rx_q(),
            final(self).tx_stream() == old(self).tx_stream().push(byte),
    {
        match self {
            Uart::Mini(m) => m.write_byte(byte),
            Uart::Pl011(p) => p.write_byte(byte),
        }
    }

    /// Send every byte of `s`, in order, one [`Uart::write_byte`] call per
    /// byte — a loop, not a bulk transfer.
    pub fn write_string(&mut self, s: &str)
        requires
            old(self).wf(),
        ensures
            final(self).wf(),
            Uart::same_config(*old(self), *final(self)),
            final(self).rx_q() == old(self).rx_q(),
            final(self).tx_stream() == old(self).tx_stream() + s.spec_bytes(),
    {
        let bytes = s.as_bytes();
        let n = bytes.len();
        let mut i: usize = 0;
        while i < n
            invariant
                i <= n,
                n == bytes@.len(),
                bytes@ == s.spec_bytes(),
                self.wf(),
                Uart::same_config(*old(self), *self),
                self.rx_q() == old(self).rx_q(),
                self.tx_stream() == old(self).tx_stream() + bytes@.take(i as int),
            decreases n - i,
        {
            self.write_byte(bytes[i]);
            proof {
                assert(old(self).tx_stream() + bytes@.take(i as int + 1) =~= (old(
                    self,
                ).tx_stream() + bytes@.take(i as int)).push(bytes@[i as int]));
            }
            i = i + 1;
        }
        proof {
            assert(bytes@.take(n as int) =~= bytes@);
        }
    }

    /// Fetch one received byte if one is pending; never waits.
    pub fn read_byte(&mut self) -> (r: Option<u8>)
        ensures
            Uart::same_config(*old(self), *final(self)),
            final(self).tx_stream() == old(self).tx_stream(),
            old(self).rx_q().len() > 0 ==> r == Some(old(self).rx_q()[0])
                && final(self).rx_q() == old(self).rx_q().skip(1),
            old(self).rx_q().len() == 0 ==> r == None::<u8> && final(self).rx_q() == old(
                self,
            ).rx_q(),
            old(self).wf() ==> final(self).wf(),
    {
        match self {
            Uart::Mini(m) => m.read_byte(),
            Uart::Pl011(p) => p.read_byte(),
        }
    }

    /// Busy-wait until the chosen engine reports its transmit path fully
    /// idle: every byte handed over is on the wire and the FIFO is empty.
    /// Like `write_byte`, this polls without a timeout.
    pub fn flush(&mut self)
        requires
            old(self).wf(),
        ensures
            final(self).wf(),
            Uart::same_config(*old(self), *final(self)),
            final(self).rx_q() == old(self).rx_q(),
            final(self).tx_stream() == old(self).tx_stream(),
            final(self).sent() == old(self).tx_stream(),
    {
        match self {
            Uart::Mini(m) => m.flush(),
            Uart::Pl011(p) => p.flush(),
        }
    }

    /// Whether a received byte is pending: the same status check
    /// `read_byte` uses, for callers that poll without consuming.
    pub fn is_data_ready(&self) -> (r: bool)
        ensures
            r == (self.rx_q().len() > 0),
    {
        match self {
            Uart::Mini(m) => m.is_data_ready(),
            Uart::Pl011(p) => p.is_data_ready(),
        }
    }

    /// Read one edited line from the pending input into `buffer`.
    ///
    /// Bytes are consumed one at a time: carriage return or newline
    /// completes the line, which is terminated with a zero byte at the
    /// cursor and reported by its length; backspace and delete step the
    /// cursor back when it is past the start and echo an erase sequence;
    /// any other byte is stored at the cursor, echoed, and advances it. A
    /// cursor reaching the buffer's last cell completes the line without a
    /// terminator byte from the wire — exhausting the buffer is a complete
    /// line, not an error. On hardware the reader spins until a line
    /// completes; in the model, input that runs dry first yields `None`,
    /// the state in which the hardware reader would still be waiting.
    pub fn read_line(&mut self, buffer: &mut Vec<u8>) -> (r: Option<usize>)
        requires
            old(self).wf(),
            old(buffer).len() >= 1,
        ensures
            final(self).wf(),
            Uart::same_config(*old(self), *final(self)),
            ({
                let oc = line::line_outcome(old(buffer)@, old(self).rx_q());
                &&& final(buffer)@ == oc.buf
                &&& final(self).rx_q() == old(self).rx_q().skip(oc.used as int)
                &&& final(self).tx_stream() == old(self).tx_stream() + oc.echo
                &&& r == if oc.done {
                    Some(oc.pos as usize)
                } else {
                    None::<usize>
                }
            }),
    {
        let mut pos: usize = 0;
        let ghost mut echoed: Seq<u8> = Seq::empty();
        let ghost mut used: nat = 0;
        while pos + 1 < buffer.len()
            invariant
                pos < buffer.len(),
                buffer@.len() == old(buffer)@.len(),
                self.wf(),
                Uart::same_config(*old(self), *self),
                used <= old(self).rx_q().len(),
                self.rx_q() == old(self).rx_q().skip(used as int),
                self.tx_stream() == old(self).tx_stream() + echoed,
                line::line_outcome(old(buffer)@, old(self).rx_q()) == line::line_run(
                    buffer@,
                    pos as nat,
                    self.rx_q(),
                    echoed,
                    used,
                ),
            decreases self.rx_q().len(),
        {
            if let Some(byte) = self.read_byte() {
                proof {
                    assert(old(self).rx_q().skip(used as int).skip(1) =~= old(self).rx_q().skip(
                        used as int + 1,
                    ));
                }
                if byte == line::BYTE_CR || byte == line::BYTE_LF {
                    buffer[pos] = 0;
                    proof {
                        used = used + 1;
                    }
                    return Some(pos);
                } else if byte == line::BYTE_BS || byte == line::BYTE_DEL {
                    if pos > 0 {
                        pos = pos - 1;
                        // echo the erase sequence: step back, blank, step back
                        self.write_byte(line::BYTE_BS);
                        self.write_byte(line::BYTE_SPACE);
                        self.write_byte(line::BYTE_BS);
                        proof {
                            used = used + 1;
                            assert((old(self).tx_stream() + echoed).push(line::BYTE_BS).push(
                                line::BYTE_SPACE,
                            ).push(line::BYTE_BS) =~= old(self).tx_stream() + (echoed
                                + line::erase_echo()));
                            echoed = echoed + line::erase_echo();
                        }
                    } else {
                        proof {
                            used = used + 1;
                        }
                    }
                } else {
                    buffer[pos] = byte;
                    self.write_byte(byte);
                    pos = pos + 1;
                    proof {
                        used = used + 1;
                        assert((old(self).tx_stream() + echoed).push(byte) =~= old(
                            self,
                        ).tx_stream() + echoed.push(byte));
                        echoed = echoed.push(byte);
                    }
                }
            } else {
                return None;
            }
        }
        buffer[pos] = 0;
        Some(pos)
    }
}

} // verus!
