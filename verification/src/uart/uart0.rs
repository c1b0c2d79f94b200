//! PL011 UART driver, over a model of the full serial controller.
//!
//! The device couples the register block with the engine's state — receive
//! FIFO, transmit FIFO, and the bytes already shifted onto the wire — in
//! the same way as the mini UART: flag reads are computed from that state,
//! and each flag read witnesses one step of the clocked engine, so every
//! busy-wait both stays an honest poll and provably finishes.

use vstd::prelude::*;

use crate::bits;
use crate::regs::{GpioRegisters, Pl011UartRegisters};

verus! {

/// The transmit FIFO holds at most thirty-two bytes.
pub const PL011_TX_FIFO_DEPTH: usize = 32;

/// The integer baud divisor for 115200 baud from a 48 MHz UART clock:
/// rate = clock / (16 * (integer + fractional / 64)).
pub const PL011_IBRD_115200: u32 = 26;

/// The fractional baud divisor that pairs with [`PL011_IBRD_115200`].
pub const PL011_FBRD_115200: u32 = 3;

/// The ALT0 function code that routes pins 14 and 15 to the PL011.
pub const PL011_ALT_FN: u32 = 0b100;

/// The PL011 UART: its register block and its engine's state.
pub struct Pl011Uart {
    /// The register block.
    pub regs: Pl011UartRegisters,
    /// Received bytes not yet read by software, oldest first.
    pub rx_fifo: Vec<u8>,
    /// Bytes queued for transmit, not yet on the wire, oldest first.
    pub tx_fifo: Vec<u8>,
    /// Bytes the transmitter has shifted onto the wire, oldest first.
    pub tx_wire: Vec<u8>,
}

impl Pl011Uart {
    /// The device is well formed: the transmit FIFO fits its hardware depth.
    pub open spec fn wf(self) -> bool {
        self.tx_fifo@.len() <= PL011_TX_FIFO_DEPTH
    }

    /// Every byte software has handed to the transmitter, in order: first
    /// what is already on the wire, then what still waits in the FIFO.
    pub open spec fn tx_stream(self) -> Seq<u8> {
        self.tx_wire@ + self.tx_fifo@
    }

    /// The received bytes software has not yet read, oldest first.
    pub open spec fn rx_q(self) -> Seq<u8> {
        self.rx_fifo@
    }

    /// The register block is unchanged between two device states.
    pub open spec fn same_regs(pre: Pl011Uart, post: Pl011Uart) -> bool {
        post.regs == pre.regs
    }

    /// A fresh device: registers zeroed, FIFOs and wire empty.
    pub fn new() -> (r: Pl011Uart)
        ensures
            r.regs == Pl011UartRegisters::spec_zeroed(),
            r.rx_q() == Seq::<u8>::empty(),
            r.tx_stream() == Seq::<u8>::empty(),
            r.tx_wire@ == Seq::<u8>::empty(),
            r.wf(),
    {
        let r = Pl011Uart {
            regs: Pl011UartRegisters::new(),
            rx_fifo: Vec::new(),
            tx_fifo: Vec::new(),
            tx_wire: Vec::new(),
        };
        assert(r.tx_wire@ + r.tx_fifo@ =~= Seq::<u8>::empty());
        r
    }

    /// A byte arrives on the wire and joins the receive FIFO. This is the
    /// line's side of the model, for harnesses that feed the driver.
    pub fn push_rx(&mut self, byte: u8)
        ensures
            Pl011Uart::same_regs(*old(self), *final(self)),
            final(self).rx_q() == old(self).rx_q().push(byte),
            final(self).tx_fifo@ == old(self).tx_fifo@,
            final(self).tx_wire@ == old(self).tx_wire@,
            old(self).wf() ==> final(self).wf(),
    {
        self.rx_fifo.push(byte);
    }

    /// One step of the clocked engine: the transmitter takes the oldest
    /// queued byte, if any, onto the wire.
    fn step_engine(&mut self)
        ensures
            Pl011Uart::same_regs(*old(self), *final(self)),
            final(self).rx_fifo@ == old(self).rx_fifo@,
            final(self).tx_stream() == old(self).tx_stream(),
            final(self).tx_fifo@ == if old(self).tx_fifo@.len() > 0 {
                old(self).tx_fifo@.skip(1)
            } else {
                old(self).tx_fifo@
            },
    {
        if self.tx_fifo.len() > 0 {
            let b = self.tx_fifo.remove(0);
            self.tx_wire.push(b);
            assert(self.tx_fifo@ =~= old(self).tx_fifo@.skip(1));
            assert(self.tx_wire@ + self.tx_fifo@ =~= old(self).tx_wire@ + old(self).tx_fifo@);
        }
    }

    /// The flag value the current state reads as: bit 3 while the
    /// transmitter is busy, bit 4 when the receive FIFO is empty, bit 5
    /// when the transmit FIFO is full, bit 7 when it is empty.
    pub fn fr_value(&self) -> (v: u32)
        ensures
            bits::spec_bit_set(v, 3) == (self.tx_fifo@.len() > 0),
            bits::spec_bit_set(v, 4) == (self.rx_q().len() == 0),
            bits::spec_bit_set(v, 5) == (self.tx_fifo@.len() == PL011_TX_FIFO_DEPTH),
            bits::spec_bit_set(v, 7) == (self.tx_fifo@.len() == 0),
    {
        let busy: u32 = if self.tx_fifo.len() > 0 { 1 } else { 0 };
        let rx_empty: u32 = if self.rx_fifo.len() == 0 { 1 } else { 0 };
        let tx_full: u32 = if self.tx_fifo.len() == PL011_TX_FIFO_DEPTH { 1 } else { 0 };
        let tx_empty: u32 = if self.tx_fifo.len() == 0 { 1 } else { 0 };
        let v = (busy << 3u32) | (rx_empty << 4u32) | (tx_full << 5u32) | (tx_empty << 7u32);
        proof {
            assert((((busy << 3u32) | (rx_empty << 4u32) | (tx_full << 5u32) | (tx_empty
                << 7u32)) & (1u32 << 3u32) != 0) == (busy == 1)) by (bit_vector)
                requires
                    busy <= 1 && rx_empty <= 1 && tx_full <= 1 && tx_empty <= 1,
            ;
            assert((((busy << 3u32) | (rx_empty << 4u32) | (tx_full << 5u32) | (tx_empty
                << 7u32)) & (1u32 << 4u32) != 0) == (rx_empty == 1)) by (bit_vector)
                requires
                    busy <= 1 && rx_empty <= 1 && tx_full <= 1 && tx_empty <= 1,
            ;
            assert((((busy << 3u32) | (rx_empty << 4u32) | (tx_full << 5u32) | (tx_empty
                << 7u32)) & (1u32 << 5u32) != 0) == (tx_full == 1)) by (bit_vector)
                requires
                    busy <= 1 && rx_empty <= 1 && tx_full <= 1 && tx_empty <= 1,
            ;
            assert((((busy << 3u32) | (rx_empty << 4u32) | (tx_full << 5u32) | (tx_empty
                << 7u32)) & (1u32 << 7u32) != 0) == (tx_empty == 1)) by (bit_vector)
                requires
                    busy <= 1 && rx_empty <= 1 && tx_full <= 1 && tx_empty <= 1,
            ;
        }
        v
    }

    /// Read the flag register. The read observes a clocked engine, so it
    /// also witnesses one engine step before the flags are formed.
    pub fn read_fr(&mut self) -> (v: u32)
        ensures
            Pl011Uart::same_regs(*old(self), *final(self)),
            final(self).rx_fifo@ == old(self).rx_fifo@,
            final(self).tx_stream() == old(self).tx_stream(),
            final(self).tx_fifo@.len() == if old(self).tx_fifo@.len() > 0 {
                old(self).tx_fifo@.len() - 1
            } else {
                0
            },
            old(self).wf() ==> final(self).wf(),
            bits::spec_bit_set(v, 4) == (final(self).rx_q().len() == 0),
            bits::spec_bit_set(v, 5) == (final(self).tx_fifo@.len() == PL011_TX_FIFO_DEPTH),
            bits::spec_bit_set(v, 7) == (final(self).tx_fifo@.len() == 0),
    {
        self.step_engine();
        self.fr_value()
    }

    /// Write the data register: the byte in the value's low eight bits
    /// joins the transmit FIFO, which must have room.
    pub fn write_dr(&mut self, v: u32)
        requires
            old(self).tx_fifo@.len() < PL011_TX_FIFO_DEPTH,
        ensures
            Pl011Uart::same_regs(*old(self), *final(self)),
            final(self).rx_fifo@ == old(self).rx_fifo@,
            final(self).tx_wire@ == old(self).tx_wire@,
            final(self).tx_fifo@ == old(self).tx_fifo@.push((v & 0xFF) as u8),
            final(self).wf(),
    {
        self.tx_fifo.push((v & 0xFF) as u8);
    }

    /// Read the data register: the oldest received byte, which must exist,
    /// leaves the receive FIFO.
    pub fn read_dr(&mut self) -> (v: u32)
        requires
            old(self).rx_fifo@.len() > 0,
        ensures
            Pl011Uart::same_regs(*old(self), *final(self)),
            final(self).tx_fifo@ == old(self).tx_fifo@,
            final(self).tx_wire@ == old(self).tx_wire@,
            final(self).rx_fifo@ == old(self).rx_fifo@.skip(1),
            v == old(self).rx_fifo@[0] as u32,
    {
        let b = self.rx_fifo.remove(0);
        assert(self.rx_fifo@ =~= old(self).rx_fifo@.skip(1));
        b as u32
    }

    /// Initialise the engine: route pins 14 and 15 to their ALT0 function,
    /// disable the engine while it is configured, clear every pending
    /// interrupt, program the 115200-baud divisors, select 8-bit words with
    /// FIFOs enabled, then enable the engine with transmit and receive
    /// active.
    pub fn init(&mut self, gpio: &mut GpioRegisters)
        ensures
            *final(gpio) == (GpioRegisters {
                gpfsel1: ((old(gpio).gpfsel1 & !(0b111u32 << 12u32) & !(0b111u32 << 15u32)) | (
                PL011_ALT_FN << 12u32)) | (PL011_ALT_FN << 15u32),
                ..*old(gpio)
            }),
            final(self).regs == (Pl011UartRegisters {
                cr: (1u32 << 0u32) | (1u32 << 8u32) | (1u32 << 9u32),
                icr: 0x7FF,
                ibrd: PL011_IBRD_115200,
                fbrd: PL011_FBRD_115200,
                lcrh: (1u32 << 4u32) | (1u32 << 5u32) | (1u32 << 6u32),
                ..old(self).regs
            }),
            final(self).rx_fifo@ == old(self).rx_fifo@,
            final(self).tx_fifo@ == old(self).tx_fifo@,
            final(self).tx_wire@ == old(self).tx_wire@,
            old(self).wf() ==> final(self).wf(),
    {
        // route the transmit pin (14) and receive pin (15) to ALT0
        gpio.gpfsel1 = gpio.gpfsel1 & !(0b111u32 << 12u32);  // clear FSEL14
        gpio.gpfsel1 = gpio.gpfsel1 & !(0b111u32 << 15u32);  // clear FSEL15
        gpio.gpfsel1 = gpio.gpfsel1 | (PL011_ALT_FN << 12u32);  // pin 14: ALT0, transmit
        gpio.gpfsel1 = gpio.gpfsel1 | (PL011_ALT_FN << 15u32);  // pin 15: ALT0, receive

        // disable the engine before touching its configuration
        self.regs.cr = 0;
        // clear every pending interrupt flag
        self.regs.icr = 0x7FF;
        // program the baud divisors
        self.regs.ibrd = PL011_IBRD_115200;
        self.regs.fbrd = PL011_FBRD_115200;
        // 8-bit words, one stop bit, FIFOs enabled
        self.regs.lcrh = (1u32 << 4u32) | (1u32 << 5u32) | (1u32 << 6u32);
        // enable the engine with transmit and receive active
        self.regs.cr = (1u32 << 0u32) | (1u32 << 8u32) | (1u32 << 9u32);
    }

    /// Send one byte: poll the flags until the transmit FIFO is not full,
    /// then write the byte into the data register. On hardware this
    /// busy-wait can spin for as long as the engine needs; it never gives
    /// up, so a transmitter that never drains would hang it.
    pub fn write_byte(&mut self, byte: u8)
        requires
            old(self).wf(),
        ensures
            Pl011Uart::same_regs(*old(self), *final(self)),
            final(self).rx_fifo@ == old(self).rx_fifo@,
            final(self).tx_stream() == old(self).tx_stream().push(byte),
            final(self).wf(),
    {
        let mut fr = self.read_fr();
        while bits::is_bit_set(fr, 5)
            invariant
                self.wf(),
                Pl011Uart::same_regs(*old(self), *self),
                self.rx_fifo@ == old(self).rx_fifo@,
                self.tx_stream() == old(self).tx_stream(),
                bits::spec_bit_set(fr, 5) == (self.tx_fifo@.len() == PL011_TX_FIFO_DEPTH),
            decreases self.tx_fifo@.len(),
        {
            fr = self.read_fr();
        }
        self.write_dr(byte as u32);
        proof {
            assert(((byte as u32) & 0xFF) as u8 == byte) by (bit_vector);
            assert(self.tx_wire@ + self.tx_fifo@ =~= old(self).tx_stream().push(byte));
        }
    }

    /// Fetch one received byte if one is pending; never waits. The status
    /// check is the same one `is_data_ready` exposes.
    pub fn read_byte(&mut self) -> (r: Option<u8>)
        ensures
            Pl011Uart::same_regs(*old(self), *final(self)),
            final(self).tx_stream() == old(self).tx_stream(),
            old(self).rx_q().len() > 0 ==> r == Some(old(self).rx_q()[0])
                && final(self).rx_q() == old(self).rx_q().skip(1),
            old(self).rx_q().len() == 0 ==> r == None::<u8> && final(self).rx_q() == old(
                self,
            ).rx_q(),
            old(self).wf() ==> final(self).wf(),
    {
        let fr = self.read_fr();
        if !bits::is_bit_set(fr, 4) {
            let v = self.read_dr();
            proof {
                let b0 = old(self).rx_fifo@[0];
                assert((b0 as u32) & 0xFF == b0 as u32 && (b0 as u32) < 256) by (bit_vector);
            }
            Some((v & 0xFF) as u8)
        } else {
            None
        }
    }

    /// Wait until the transmit FIFO is empty and every queued byte is on
    /// the wire. Like `write_byte`, this polls without a timeout.
    pub fn flush(&mut self)
        requires
            old(self).wf(),
        ensures
            Pl011Uart::same_regs(*old(self), *final(self)),
            final(self).rx_fifo@ == old(self).rx_fifo@,
            final(self).tx_stream() == old(self).tx_stream(),
            final(self).tx_fifo@.len() == 0,
            final(self).tx_wire@ == old(self).tx_stream(),
            final(self).wf(),
    {
        let mut fr = self.read_fr();
        while !bits::is_bit_set(fr, 7)
            invariant
                self.wf(),
                Pl011Uart::same_regs(*old(self), *self),
                self.rx_fifo@ == old(self).rx_fifo@,
                self.tx_stream() == old(self).tx_stream(),
                bits::spec_bit_set(fr, 7) == (self.tx_fifo@.len() == 0),
            decreases self.tx_fifo@.len(),
        {
            fr = self.read_fr();
        }
        assert(self.tx_wire@ =~= self.tx_wire@ + self.tx_fifo@);
    }

    /// Whether a received byte is pending: the same flag `read_byte`
    /// checks, for callers that poll without consuming.
    pub fn is_data_ready(&self) -> (r: bool)
        ensures
            r == (self.rx_q().len() > 0),
    {
        !bits::is_bit_set(self.fr_value(), 4)
    }
}

} // verus!
