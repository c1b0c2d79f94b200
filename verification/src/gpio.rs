//! GPIO driver: pin function selection and output control.
//!
//! A pin is named by its index; the board routes indices 0 through 53 to
//! real pins. Configuring a pin touches the function-select register that
//! owns it (ten pins per register, three bits per pin); driving it touches
//! one bit of the set or clear registers, split at index 32. All operations
//! act on a [`GpioRegisters`] block handed in by the caller, so their effect
//! on every register is stated exactly.

use vstd::prelude::*;

use crate::regs::GpioRegisters;

verus! {

/// The three-bit function code that makes a pin an output.
pub const FSEL_OUTPUT: u32 = 0b001;

/// A GPIO pin, named by its index.
///
/// The board's pins are indices 0 through 53. Larger indices can be held;
/// [`GpioPin::set_output`] ignores those past the last function-select
/// register, and the level operations demand an index their registers can
/// express.
pub struct GpioPin(pub u8);

/// A function-select register value with the 3-bit field at `shift` cleared
/// and then set to the output code.
pub open spec fn spec_fsel_output(v: u32, shift: u32) -> u32 {
    (v & !(0b111u32 << shift)) | (FSEL_OUTPUT << shift)
}

impl GpioPin {
    /// Wrap a pin index.
    pub fn new(pin: u8) -> (r: GpioPin)
        ensures
            r.0 == pin,
    {
        GpioPin(pin)
    }

    /// Configure this pin as an output: clear its 3-bit function-select
    /// field, then write the output code into it. An index mapping past the
    /// last function-select register is ignored, deliberately and silently.
    pub fn set_output(&self, regs: &mut GpioRegisters)
        ensures
            ({
                let sh = ((self.0 % 10) * 3) as u32;
                match self.0 / 10 {
                    0 => *final(regs) == (GpioRegisters {
                        gpfsel0: spec_fsel_output(old(regs).gpfsel0, sh),
                        ..*old(regs)
                    }),
                    1 => *final(regs) == (GpioRegisters {
                        gpfsel1: spec_fsel_output(old(regs).gpfsel1, sh),
                        ..*old(regs)
                    }),
                    2 => *final(regs) == (GpioRegisters {
                        gpfsel2: spec_fsel_output(old(regs).gpfsel2, sh),
                        ..*old(regs)
                    }),
                    3 => *final(regs) == (GpioRegisters {
                        gpfsel3: spec_fsel_output(old(regs).gpfsel3, sh),
                        ..*old(regs)
                    }),
                    4 => *final(regs) == (GpioRegisters {
                        gpfsel4: spec_fsel_output(old(regs).gpfsel4, sh),
                        ..*old(regs)
                    }),
                    5 => *final(regs) == (GpioRegisters {
                        gpfsel5: spec_fsel_output(old(regs).gpfsel5, sh),
                        ..*old(regs)
                    }),
                    _ => *final(regs) == *old(regs),
                }
            }),
    {
        let pin = self.0;
        let fsel_index = pin / 10;  // each function-select register owns ten pins
        let fsel_shift = ((pin % 10) * 3) as u32;
        match fsel_index {
            0 => {
                regs.gpfsel0 = (regs.gpfsel0 & !(0b111u32 << fsel_shift)) | (FSEL_OUTPUT
                    << fsel_shift);
            },
            1 => {
                regs.gpfsel1 = (regs.gpfsel1 & !(0b111u32 << fsel_shift)) | (FSEL_OUTPUT
                    << fsel_shift);
            },
            2 => {
                regs.gpfsel2 = (regs.gpfsel2 & !(0b111u32 << fsel_shift)) | (FSEL_OUTPUT
                    << fsel_shift);
            },
            3 => {
                regs.gpfsel3 = (regs.gpfsel3 & !(0b111u32 << fsel_shift)) | (FSEL_OUTPUT
                    << fsel_shift);
            },
            4 => {
                regs.gpfsel4 = (regs.gpfsel4 & !(0b111u32 << fsel_shift)) | (FSEL_OUTPUT
                    << fsel_shift);
            },
            5 => {
                regs.gpfsel5 = (regs.gpfsel5 & !(0b111u32 << fsel_shift)) | (FSEL_OUTPUT
                    << fsel_shift);
            },
            _ => {
                // an index past the last select register selects nothing
            },
        }
    }

    /// Drive this pin high by writing its single bit to the matching output
    /// set register; the hardware acts on the one bit and clears it itself.
    pub fn set_high(&self, regs: &mut GpioRegisters)
        requires
            self.0 < 64,
        ensures
            self.0 < 32 ==> *final(regs) == (GpioRegisters {
                gpset0: 1u32 << (self.0 as u32),
                ..*old(regs)
            }),
            self.0 >= 32 ==> *final(regs) == (GpioRegisters {
                gpset1: 1u32 << ((self.0 - 32) as u32),
                ..*old(regs)
            }),
    {
        let pin = self.0;
        if pin < 32 {
            regs.gpset0 = 1u32 << pin;
        } else {
            regs.gpset1 = 1u32 << (pin - 32);
        }
    }

    /// Drive this pin low by writing its single bit to the matching output
    /// clear register; the hardware acts on the one bit and clears it itself.
    pub fn set_low(&self, regs: &mut GpioRegisters)
        requires
            self.0 < 64,
        ensures
            self.0 < 32 ==> *final(regs) == (GpioRegisters {
                gpclr0: 1u32 << (self.0 as u32),
                ..*old(regs)
            }),
            self.0 >= 32 ==> *final(regs) == (GpioRegisters {
                gpclr1: 1u32 << ((self.0 - 32) as u32),
                ..*old(regs)
            }),
    {
        let pin = self.0;
        if pin < 32 {
            regs.gpclr0 = 1u32 << pin;
        } else {
            regs.gpclr1 = 1u32 << (pin - 32);
        }
    }
}

} // verus!
