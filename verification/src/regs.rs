//! Register map model for the GPIO, auxiliary and PL011 UART peripherals.
//!
//! Each struct lays out one peripheral's control and status registers in the
//! order the hardware documents, one 32-bit field per register, with reserved
//! gaps kept as explicit padding fields so that every later register stands
//! at its documented byte offset. On the machine these blocks sit at fixed
//! physical base addresses and are only ever accessed through volatile
//! reads and writes; here they are plain values, so a driver's effect on
//! them can be stated and checked field by field. The binding to physical
//! memory is the platform glue's concern, outside this library.
//!
//! Documented base addresses (BCM2835/BCM2837 peripheral bus): GPIO at
//! 0x7E20_0000, auxiliary block at 0x7E21_5000 (mini UART sub-block at
//! offset 0x40), PL011 UART at its own base (0xFE20_1000 on the models
//! this layout was taken from).

use vstd::prelude::*;

verus! {

/// The GPIO register block.
///
/// Function-select registers give each pin a 3-bit role field, ten pins per
/// register; the set and clear registers use write-one-to-act semantics, one
/// bit per pin, split at pin 32.
pub struct GpioRegisters {
    /// Function select for pins 0-9. Offset 0x00.
    pub gpfsel0: u32,
    /// Function select for pins 10-19. Offset 0x04. Holds the fields for
    /// pins 14 and 15, the transmit and receive pins both UARTs share.
    pub gpfsel1: u32,
    /// Function select for pins 20-29. Offset 0x08.
    pub gpfsel2: u32,
    /// Function select for pins 30-39. Offset 0x0C.
    pub gpfsel3: u32,
    /// Function select for pins 40-49. Offset 0x10.
    pub gpfsel4: u32,
    /// Function select for pins 50-53. Offset 0x14.
    pub gpfsel5: u32,
    /// Reserved gap. Offset 0x18.
    pub reserved0: u32,
    /// Output set for pins 0-31; writing one to a bit drives that pin high.
    /// Offset 0x1C.
    pub gpset0: u32,
    /// Output set for pins 32-53. Offset 0x20.
    pub gpset1: u32,
    /// Reserved gap. Offset 0x24.
    pub reserved1: u32,
    /// Output clear for pins 0-31; writing one to a bit drives that pin low.
    /// Offset 0x28.
    pub gpclr0: u32,
    /// Output clear for pins 32-53. Offset 0x2C.
    pub gpclr1: u32,
    /// Reserved gap. Offsets 0x30, 0x34, 0x38.
    pub reserved2: u32,
    /// Reserved gap, continued.
    pub reserved3: u32,
    /// Reserved gap, continued.
    pub reserved4: u32,
}

impl GpioRegisters {
    /// A block with every register reading zero, the state a model starts
    /// from before any driver has touched it.
    pub fn new() -> (r: GpioRegisters)
        ensures
            r == GpioRegisters::spec_zeroed(),
    {
        GpioRegisters {
            gpfsel0: 0,
            gpfsel1: 0,
            gpfsel2: 0,
            gpfsel3: 0,
            gpfsel4: 0,
            gpfsel5: 0,
            reserved0: 0,
            gpset0: 0,
            gpset1: 0,
            reserved1: 0,
            gpclr0: 0,
            gpclr1: 0,
            reserved2: 0,
            reserved3: 0,
            reserved4: 0,
        }
    }

    /// The all-zero block.
    pub open spec fn spec_zeroed() -> GpioRegisters {
        GpioRegisters {
            gpfsel0: 0,
            gpfsel1: 0,
            gpfsel2: 0,
            gpfsel3: 0,
            gpfsel4: 0,
            gpfsel5: 0,
            reserved0: 0,
            gpset0: 0,
            gpset1: 0,
            reserved1: 0,
            gpclr0: 0,
            gpclr1: 0,
            reserved2: 0,
            reserved3: 0,
            reserved4: 0,
        }
    }
}

/// The head of the auxiliary peripheral block, which gates the mini UART.
///
/// Only the interrupt-status and enable registers stand before the mini UART
/// sub-block; the gap between offset 0x08 and the sub-block at 0x40 is
/// reserved. The mini UART registers themselves are [`MiniUartRegisters`].
pub struct AuxiliaryRegisters {
    /// Pending-interrupt summary for the three auxiliary devices.
    /// Offset 0x00.
    pub aux_irq: u32,
    /// Device enables; bit 0 switches the mini UART on. Offset 0x04.
    pub aux_enables: u32,
}

impl AuxiliaryRegisters {
    /// A block with both registers reading zero.
    pub fn new() -> (r: AuxiliaryRegisters)
        ensures
            r.aux_irq == 0,
            r.aux_enables == 0,
    {
        AuxiliaryRegisters { aux_irq: 0, aux_enables: 0 }
    }
}

/// The mini UART sub-block of the auxiliary peripheral, at offset 0x40 from
/// the auxiliary base.
///
/// The I/O register moves data bytes in and out of the FIFOs, so reads and
/// writes of it are modelled as queue operations rather than as storage; the
/// line-status register is computed from the engine's state for the same
/// reason. The remaining fields record the configuration values last
/// written.
pub struct MiniUartRegisters {
    /// I/O data; a write queues a byte for transmit, a read takes the oldest
    /// received byte. Offset 0x40 from the auxiliary base.
    pub aux_mu_io_reg: u32,
    /// Interrupt enable. Offset 0x44.
    pub aux_mu_ier_reg: u32,
    /// Interrupt identify and FIFO clear; writing one to bit 1 drains the
    /// receive FIFO, to bit 2 the transmit FIFO. Offset 0x48.
    pub aux_mu_iir_reg: u32,
    /// Line control; bit 0 selects 8-bit mode. Offset 0x4C.
    pub aux_mu_lcr_reg: u32,
    /// Modem control. Offset 0x50.
    pub aux_mu_mcr_reg: u32,
    /// Line status: bit 0 receive-data ready, bit 5 transmit FIFO has room,
    /// bit 6 transmitter idle. Read-only. Offset 0x54.
    pub aux_mu_lsr_reg: u32,
    /// Modem status. Read-only. Offset 0x58.
    pub aux_mu_msr_reg: u32,
    /// Scratch byte. Offset 0x5C.
    pub aux_mu_scratch_reg: u32,
    /// Extra control; bit 0 enables the receiver, bit 1 the transmitter.
    /// Offset 0x60.
    pub aux_mu_cntl_reg: u32,
    /// Extra status. Read-only. Offset 0x64.
    pub aux_mu_stat_reg: u32,
    /// Baud-rate divisor; rate = clock / (8 * (divisor + 1)). Offset 0x68.
    pub aux_mu_baud_reg: u32,
}

impl MiniUartRegisters {
    /// A block with every register reading zero.
    pub fn new() -> (r: MiniUartRegisters)
        ensures
            r == MiniUartRegisters::spec_zeroed(),
    {
        MiniUartRegisters {
            aux_mu_io_reg: 0,
            aux_mu_ier_reg: 0,
            aux_mu_iir_reg: 0,
            aux_mu_lcr_reg: 0,
            aux_mu_mcr_reg: 0,
            aux_mu_lsr_reg: 0,
            aux_mu_msr_reg: 0,
            aux_mu_scratch_reg: 0,
            aux_mu_cntl_reg: 0,
            aux_mu_stat_reg: 0,
            aux_mu_baud_reg: 0,
        }
    }

    /// The all-zero block.
    pub open spec fn spec_zeroed() -> MiniUartRegisters {
        MiniUartRegisters {
            aux_mu_io_reg: 0,
            aux_mu_ier_reg: 0,
            aux_mu_iir_reg: 0,
            aux_mu_lcr_reg: 0,
            aux_mu_mcr_reg: 0,
            aux_mu_lsr_reg: 0,
            aux_mu_msr_reg: 0,
            aux_mu_scratch_reg: 0,
            aux_mu_cntl_reg: 0,
            aux_mu_stat_reg: 0,
            aux_mu_baud_reg: 0,
        }
    }
}

/// The PL011 UART register block.
///
/// As with the mini UART, the data register is modelled as FIFO traffic and
/// the flag register is computed from the engine's state; the other fields
/// hold the configuration last written.
pub struct Pl011UartRegisters {
    /// Data; a write queues a byte for transmit, a read takes the oldest
    /// received byte. Offset 0x00.
    pub dr: u32,
    /// Receive status and error clear. Offset 0x04.
    pub rsrecr: u32,
    /// Reserved gap. Offsets 0x08, 0x0C, 0x10, 0x14.
    pub reserved0: u32,
    /// Reserved gap, continued.
    pub reserved1: u32,
    /// Reserved gap, continued.
    pub reserved2: u32,
    /// Reserved gap, continued.
    pub reserved3: u32,
    /// Flags: bit 3 busy, bit 4 receive FIFO empty, bit 5 transmit FIFO
    /// full, bit 7 transmit FIFO empty. Read-only. Offset 0x18.
    pub fr: u32,
    /// Reserved gap. Offset 0x1C.
    pub reserved4: u32,
    /// IrDA low-power counter. Offset 0x20.
    pub ilpr: u32,
    /// Integer baud-rate divisor. Offset 0x24.
    pub ibrd: u32,
    /// Fractional baud-rate divisor. Offset 0x28.
    pub fbrd: u32,
    /// Line control: bit 4 enables the FIFOs, bits 5-6 select the word
    /// length. Offset 0x2C.
    pub lcrh: u32,
    /// Control: bit 0 enables the engine, bit 8 the transmitter, bit 9 the
    /// receiver. Offset 0x30.
    pub cr: u32,
    /// Interrupt FIFO level select. Offset 0x34.
    pub ifls: u32,
    /// Interrupt mask. Offset 0x38.
    pub imsc: u32,
    /// Raw interrupt status. Offset 0x3C.
    pub ris: u32,
    /// Masked interrupt status. Offset 0x40.
    pub mis: u32,
    /// Interrupt clear; writing ones clears the pending flags. Offset 0x44.
    pub icr: u32,
    /// DMA control. Offset 0x48.
    pub dmacr: u32,
    /// Reserved gap. Offsets 0x4C through 0x7C.
    pub reserved5: u32,
    /// Reserved gap, continued.
    pub reserved6: u32,
    /// Reserved gap, continued.
    pub reserved7: u32,
    /// Reserved gap, continued.
    pub reserved8: u32,
    /// Reserved gap, continued.
    pub reserved9: u32,
    /// Reserved gap, continued.
    pub reserved10: u32,
    /// Reserved gap, continued.
    pub reserved11: u32,
    /// Reserved gap, continued.
    pub reserved12: u32,
    /// Reserved gap, continued.
    pub reserved13: u32,
    /// Reserved gap, continued.
    pub reserved14: u32,
    /// Reserved gap, continued.
    pub reserved15: u32,
    /// Reserved gap, continued.
    pub reserved16: u32,
    /// Reserved gap, continued.
    pub reserved17: u32,
    /// Test control. Offset 0x80.
    pub itcr: u32,
    /// Integration test input. Offset 0x84.
    pub itip: u32,
    /// Integration test output. Offset 0x88.
    pub itop: u32,
    /// Test data. Offset 0x8C.
    pub tdr: u32,
}

impl Pl011UartRegisters {
    /// A block with every register reading zero.
    pub fn new() -> (r: Pl011UartRegisters)
        ensures
            r == Pl011UartRegisters::spec_zeroed(),
    {
        Pl011UartRegisters {
            dr: 0,
            rsrecr: 0,
            reserved0: 0,
            reserved1: 0,
            reserved2: 0,
            reserved3: 0,
            fr: 0,
            reserved4: 0,
            ilpr: 0,
            ibrd: 0,
            fbrd: 0,
            lcrh: 0,
            cr: 0,
            ifls: 0,
            imsc: 0,
            ris: 0,
            mis: 0,
            icr: 0,
            dmacr: 0,
            reserved5: 0,
            reserved6: 0,
            reserved7: 0,
            reserved8: 0,
            reserved9: 0,
            reserved10: 0,
            reserved11: 0,
            reserved12: 0,
            reserved13: 0,
            reserved14: 0,
            reserved15: 0,
            reserved16: 0,
            reserved17: 0,
            itcr: 0,
            itip: 0,
            itop: 0,
            tdr: 0,
        }
    }

    /// The all-zero block.
    pub open spec fn spec_zeroed() -> Pl011UartRegisters {
        Pl011UartRegisters {
            dr: 0,
            rsrecr: 0,
            reserved0: 0,
            reserved1: 0,
            reserved2: 0,
            reserved3: 0,
            fr: 0,
            reserved4: 0,
            ilpr: 0,
            ibrd: 0,
            fbrd: 0,
            lcrh: 0,
            cr: 0,
            ifls: 0,
            imsc: 0,
            ris: 0,
            mis: 0,
            icr: 0,
            dmacr: 0,
            reserved5: 0,
            reserved6: 0,
            reserved7: 0,
            reserved8: 0,
            reserved9: 0,
            reserved10: 0,
            reserved11: 0,
            reserved12: 0,
            reserved13: 0,
            reserved14: 0,
            reserved15: 0,
            reserved16: 0,
            reserved17: 0,
            itcr: 0,
            itip: 0,
            itop: 0,
            tdr: 0,
        }
    }
}

} // verus!
