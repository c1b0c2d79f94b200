//! Mini UART driver, over a model of the auxiliary peripheral.
//!
//! The device couples the register blocks with the serial engine's state:
//! the bytes waiting in the receive FIFO, the bytes queued in the transmit
//! FIFO, and the bytes the transmitter has already shifted onto the wire.
//! Status reads are computed from that state, and — since the only execution
//! context is the polling software itself — each status read also witnesses
//! one step of the clocked engine: the transmitter moves at most one queued
//! byte onto the wire per poll. That convention keeps every busy-wait an
//! honest loop and still lets it be proved to finish, because a poll of a
//! full transmit FIFO frees a slot.

use vstd::prelude::*;

use crate::bits;
use crate::regs::{AuxiliaryRegisters, GpioRegisters, MiniUartRegisters};

verus! {

/// The transmit FIFO holds at most eight bytes.
pub const MINI_TX_FIFO_DEPTH: usize = 8;

/// The baud divisor for 115200 baud from a 250 MHz system clock:
/// rate = clock / (8 * (divisor + 1)).
pub const MINI_BAUD_115200: u32 = 270;

/// The ALT5 function code that routes pins 14 and 15 to the mini UART.
pub const MINI_UART_ALT_FN: u32 = 0b010;

/// The mini UART: its register blocks and its engine's state.
pub struct MiniUart {
    /// The auxiliary block head that gates the engine.
    pub aux: AuxiliaryRegisters,
    /// The mini UART register sub-block.
    pub regs: MiniUartRegisters,
    /// Received bytes not yet read by software, oldest first.
    pub rx_fifo: Vec<u8>,
    /// Bytes queued for transmit, not yet on the wire, oldest first.
    pub tx_fifo: Vec<u8>,
    /// Bytes the transmitter has shifted onto the wire, oldest first.
    pub tx_wire: Vec<u8>,
}

impl MiniUart {
    /// The device is well formed: the transmit FIFO fits its hardware depth.
    pub open spec fn wf(self) -> bool {
        self.tx_fifo@.len() <= MINI_TX_FIFO_DEPTH
    }

    /// Every byte software has handed to the transmitter, in order: first
    /// what is already on the wire, then what still waits in the FIFO.
    pub open spec fn tx_stream(self) -> Seq<u8> {
        self.tx_wire@ + self.tx_fifo@
    }

    /// The received bytes software has not yet read, oldest first.
    pub open spec fn rx_q(self) -> Seq<u8> {
        self.rx_fifo@
    }

    /// Both register blocks are unchanged between two device states.
    pub open spec fn same_regs(pre: MiniUart, post: MiniUart) -> bool {
        post.aux == pre.aux && post.regs == pre.regs
    }

    /// A fresh device: registers zeroed, FIFOs and wire empty.
    pub fn new() -> (r: MiniUart)
        ensures
            r.aux.aux_irq == 0,
            r.aux.aux_enables == 0,
            r.regs == MiniUartRegisters::spec_zeroed(),
            r.rx_q() == Seq::<u8>::empty(),
            r.tx_stream() == Seq::<u8>::empty(),
            r.tx_wire@ == Seq::<u8>::empty(),
            r.wf(),
    {
        let r = MiniUart {
            aux: AuxiliaryRegisters::new(),
            regs: MiniUartRegisters::new(),
            rx_fifo: Vec::new(),
            tx_fifo: Vec::new(),
            tx_wire: Vec::new(),
        };
        assert(r.tx_wire@ + r.tx_fifo@ =~= Seq::<u8>::empty());
        r
    }

    /// A byte arrives on the wire and joins the receive FIFO. This is the
    /// line's side of the model, for harnesses that feed the driver.
    pub fn push_rx(&mut self, byte: u8)
        ensures
            MiniUart::same_regs(*old(self), *final(self)),
            final(self).rx_q() == old(self).rx_q().push(byte),
            final(self).tx_fifo@ == old(self).tx_fifo@,
            final(self).tx_wire@ == old(self).tx_wire@,
            old(self).wf() ==> final(self).wf(),
    {
        self.rx_fifo.push(byte);
    }

    /// One step of the clocked engine: the transmitter takes the oldest
    /// queued byte, if any, onto the wire.
    fn step_engine(&mut self)
        ensures
            MiniUart::same_regs(*old(self), *final(self)),
            final(self).rx_fifo@ == old(self).rx_fifo@,
            final(self).tx_stream() == old(self).tx_stream(),
            final(self).tx_fifo@ == if old(self).tx_fifo@.len() > 0 {
                old(self).tx_fifo@.skip(1)
            } else {
                old(self).tx_fifo@
            },
    {
        if self.tx_fifo.len() > 0 {
            let b = self.tx_fifo.remove(0);
            self.tx_wire.push(b);
            assert(self.tx_fifo@ =~= old(self).tx_fifo@.skip(1));
            assert(self.tx_wire@ + self.tx_fifo@ =~= old(self).tx_wire@ + old(self).tx_fifo@);
        }
    }

    /// The line-status value the current state reads as: bit 0 when receive
    /// data is ready, bit 5 when the transmit FIFO has room, bit 6 when the
    /// transmitter is idle.
    pub fn lsr_value(&self) -> (v: u32)
        ensures
            bits::spec_bit_set(v, 0) == (self.rx_q().len() > 0),
            bits::spec_bit_set(v, 5) == (self.tx_fifo@.len() < MINI_TX_FIFO_DEPTH),
            bits::spec_bit_set(v, 6) == (self.tx_fifo@.len() == 0),
    {
        let rx_ready: u32 = if self.rx_fifo.len() > 0 { 1 } else { 0 };
        let tx_room: u32 = if self.tx_fifo.len() < MINI_TX_FIFO_DEPTH { 1 } else { 0 };
        let tx_idle: u32 = if self.tx_fifo.len() == 0 { 1 } else { 0 };
        let v = rx_ready | (tx_room << 5u32) | (tx_idle << 6u32);
        proof {
            assert(((rx_ready | (tx_room << 5u32) | (tx_idle << 6u32)) & (1u32 << 0u32) != 0) == (
            rx_ready == 1)) by (bit_vector)
                requires
                    rx_ready <= 1 && tx_room <= 1 && tx_idle <= 1,
            ;
            assert(((rx_ready | (tx_room << 5u32) | (tx_idle << 6u32)) & (1u32 << 5u32) != 0) == (
            tx_room == 1)) by (bit_vector)
                requires
                    rx_ready <= 1 && tx_room <= 1 && tx_idle <= 1,
            ;
            assert(((rx_ready | (tx_room << 5u32) | (tx_idle << 6u32)) & (1u32 << 6u32) != 0) == (
            tx_idle == 1)) by (bit_vector)
                requires
                    rx_ready <= 1 && tx_room <= 1 && tx_idle <= 1,
            ;
        }
        v
    }

    /// Read the line-status register. The read observes a clocked engine,
    /// so it also witnesses one engine step before the status is formed.
    pub fn read_lsr(&mut self) -> (v: u32)
        ensures
            MiniUart::same_regs(*old(self), *final(self)),
            final(self).rx_fifo@ == old(self).rx_fifo@,
            final(self).tx_stream() == old(self).tx_stream(),
            final(self).tx_fifo@.len() == if old(self).tx_fifo@.len() > 0 {
                old(self).tx_fifo@.len() - 1
            } else {
                0
            },
            old(self).wf() ==> final(self).wf(),
            bits::spec_bit_set(v, 0) == (final(self).rx_q().len() > 0),
            bits::spec_bit_set(v, 5) == (final(self).tx_fifo@.len() < MINI_TX_FIFO_DEPTH),
            bits::spec_bit_set(v, 6) == (final(self).tx_fifo@.len() == 0),
    {
        self.step_engine();
        self.lsr_value()
    }

    /// Write the I/O register: the byte in the value's low eight bits joins
    /// the transmit FIFO, which must have room.
    pub fn write_io(&mut self, v: u32)
        requires
            old(self).tx_fifo@.len() < MINI_TX_FIFO_DEPTH,
        ensures
            MiniUart::same_regs(*old(self), *final(self)),
            final(self).rx_fifo@ == old(self).rx_fifo@,
            final(self).tx_wire@ == old(self).tx_wire@,
            final(self).tx_fifo@ == old(self).tx_fifo@.push((v & 0xFF) as u8),
            final(self).wf(),
    {
        self.tx_fifo.push((v & 0xFF) as u8);
    }

    /// Read the I/O register: the oldest received byte, which must exist,
    /// leaves the receive FIFO.
    pub fn read_io(&mut self) -> (v: u32)
        requires
            old(self).rx_fifo@.len() > 0,
        ensures
            MiniUart::same_regs(*old(self), *final(self)),
            final(self).tx_fifo@ == old(self).tx_fifo@,
            final(self).tx_wire@ == old(self).tx_wire@,
            final(self).rx_fifo@ == old(self).rx_fifo@.skip(1),
            v == old(self).rx_fifo@[0] as u32,
    {
        let b = self.rx_fifo.remove(0);
        assert(self.rx_fifo@ =~= old(self).rx_fifo@.skip(1));
        b as u32
    }

    /// Initialise the engine: route pins 14 and 15 to their ALT5 function,
    /// enable the mini UART in the auxiliary block, program the 115200-baud
    /// divisor, select 8-bit mode, enable receiver and transmitter, and
    /// drain both FIFOs.
    pub fn init(&mut self, gpio: &mut GpioRegisters)
        ensures
            *final(gpio) == (GpioRegisters {
                gpfsel1: ((old(gpio).gpfsel1 & !(0b111u32 << 12u32) & !(0b111u32 << 15u32)) | (
                MINI_UART_ALT_FN << 12u32)) | (MINI_UART_ALT_FN << 15u32),
                ..*old(gpio)
            }),
            final(self).aux == (AuxiliaryRegisters {
                aux_enables: old(self).aux.aux_enables | 1u32,
                ..old(self).aux
            }),
            final(self).regs == (MiniUartRegisters {
                aux_mu_baud_reg: MINI_BAUD_115200,
                aux_mu_lcr_reg: old(self).regs.aux_mu_lcr_reg | 1u32,
                aux_mu_cntl_reg: old(self).regs.aux_mu_cntl_reg | 3u32,
                aux_mu_iir_reg: old(self).regs.aux_mu_iir_reg | 6u32,
                ..old(self).regs
            }),
            final(self).rx_q() == Seq::<u8>::empty(),
            final(self).tx_fifo@ == Seq::<u8>::empty(),
            final(self).tx_wire@ == old(self).tx_wire@,
            final(self).wf(),
    {
        // route the transmit pin (14) and receive pin (15) to ALT5
        gpio.gpfsel1 = gpio.gpfsel1 & !(0b111u32 << 12u32);  // clear FSEL14
        gpio.gpfsel1 = gpio.gpfsel1 & !(0b111u32 << 15u32);  // clear FSEL15
        gpio.gpfsel1 = gpio.gpfsel1 | (MINI_UART_ALT_FN << 12u32);  // pin 14: ALT5, transmit
        gpio.gpfsel1 = gpio.gpfsel1 | (MINI_UART_ALT_FN << 15u32);  // pin 15: ALT5, receive

        // switch the mini UART on in the auxiliary block
        bits::set_bit(&mut self.aux.aux_enables, 0);

        // program the baud divisor and the 8-bit word length
        self.regs.aux_mu_baud_reg = MINI_BAUD_115200;
        bits::set_bit(&mut self.regs.aux_mu_lcr_reg, 0);  // 8-bit mode

        // enable receiver and transmitter
        bits::set_bit(&mut self.regs.aux_mu_cntl_reg, 0);
        bits::set_bit(&mut self.regs.aux_mu_cntl_reg, 1);

        // ask the hardware to drain both FIFOs; the engine state follows
        bits::set_bit(&mut self.regs.aux_mu_iir_reg, 1);  // drain the receive FIFO
        self.rx_fifo.clear();
        bits::set_bit(&mut self.regs.aux_mu_iir_reg, 2);  // drain the transmit FIFO
        self.tx_fifo.clear();

        proof {
            let l = old(self).regs.aux_mu_lcr_reg;
            assert(l | (1u32 << 0u32) == l | 1u32) by (bit_vector);
            let e = old(self).aux.aux_enables;
            assert(e | (1u32 << 0u32) == e | 1u32) by (bit_vector);
            let c = old(self).regs.aux_mu_cntl_reg;
            assert((c | (1u32 << 0u32)) | (1u32 << 1u32) == c | 3u32) by (bit_vector);
            let i = old(self).regs.aux_mu_iir_reg;
            assert((i | (1u32 << 1u32)) | (1u32 << 2u32) == i | 6u32) by (bit_vector);
        }
    }

    /// Send one byte: poll the line status until the transmit FIFO has
    /// room, then write the byte into the I/O register. On hardware this
    /// busy-wait can spin for as long as the engine needs; it never gives
    /// up, so a transmitter that never drains would hang it.
    pub fn write_byte(&mut self, byte: u8)
        requires
            old(self).wf(),
        ensures
            MiniUart::same_regs(*old(self), *final(self)),
            final(self).rx_fifo@ == old(self).rx_fifo@,
            final(self).tx_stream() == old(self).tx_stream().push(byte),
            final(self).wf(),
    {
        let mut lsr = self.read_lsr();
        while !bits::is_bit_set(lsr, 5)
            invariant
                self.wf(),
                MiniUart::same_regs(*old(self), *self),
                self.rx_fifo@ == old(self).rx_fifo@,
                self.tx_stream() == old(self).tx_stream(),
                bits::spec_bit_set(lsr, 5) == (self.tx_fifo@.len() < MINI_TX_FIFO_DEPTH),
            decreases self.tx_fifo@.len(),
        {
            lsr = self.read_lsr();
        }
        self.write_io(byte as u32);
        proof {
            assert(((byte as u32) & 0xFF) as u8 == byte) by (bit_vector);
            assert(self.tx_wire@ + self.tx_fifo@ =~= old(self).tx_stream().push(byte));
        }
    }

    /// Fetch one received byte if one is pending; never waits. The status
    /// check is the same one `is_data_ready` exposes.
    pub fn read_byte(&mut self) -> (r: Option<u8>)
        ensures
            MiniUart::same_regs(*old(self), *final(self)),
            final(self).tx_stream() == old(self).tx_stream(),
            old(self).rx_q().len() > 0 ==> r == Some(old(self).rx_q()[0])
                && final(self).rx_q() == old(self).rx_q().skip(1),
            old(self).rx_q().len() == 0 ==> r == None::<u8> && final(self).rx_q() == old(
                self,
            ).rx_q(),
            old(self).wf() ==> final(self).wf(),
    {
        let lsr = self.read_lsr();
        if bits::is_bit_set(lsr, 0) {
            let v = self.read_io();
            proof {
                let b0 = old(self).rx_fifo@[0];
                assert((b0 as u32) & 0xFF == b0 as u32 && (b0 as u32) < 256) by (bit_vector);
            }
            Some((v & 0xFF) as u8)
        } else {
            None
        }
    }

    /// Wait until the transmitter is idle: the FIFO empty and every queued
    /// byte on the wire. Like `write_byte`, this polls without a timeout.
    pub fn flush(&mut self)
        requires
            old(self).wf(),
        ensures
            MiniUart::same_regs(*old(self), *final(self)),
            final(self).rx_fifo@ == old(self).rx_fifo@,
            final(self).tx_stream() == old(self).tx_stream(),
            final(self).tx_fifo@.len() == 0,
            final(self).tx_wire@ == old(self).tx_stream(),
            final(self).wf(),
    {
        let mut lsr = self.read_lsr();
        while !bits::is_bit_set(lsr, 6)
            invariant
                self.wf(),
                MiniUart::same_regs(*old(self), *self),
                self.rx_fifo@ == old(self).rx_fifo@,
                self.tx_stream() == old(self).tx_stream(),
                bits::spec_bit_set(lsr, 6) == (self.tx_fifo@.len() == 0),
            decreases self.tx_fifo@.len(),
        {
            lsr = self.read_lsr();
        }
        assert(self.tx_wire@ =~= self.tx_wire@ + self.tx_fifo@);
    }

    /// Whether a received byte is pending: the same status bit `read_byte`
    /// checks, for callers that poll without consuming.
    pub fn is_data_ready(&self) -> (r: bool)
        ensures
            r == (self.rx_q().len() > 0),
    {
        bits::is_bit_set(self.lsr_value(), 0)
    }
}

} // verus!
