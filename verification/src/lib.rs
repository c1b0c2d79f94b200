//! A register-level hardware abstraction layer for the Raspberry Pi's GPIO
//! and serial peripherals, with machine-checked contracts.
//!
//! The crate models each peripheral's register block as a plain value whose
//! fields sit in the hardware's documented order, and drives two serial
//! engines — the auxiliary "mini" UART and the PL011 UART — through one
//! shared protocol: initialise, write bytes, poll for received bytes, flush,
//! and read an edited line. Every operation is specified against that model,
//! so the effect of each register write and each busy-wait is pinned down.

pub mod bits;

pub mod gpio;

pub mod log;

pub mod regs;

pub mod uart;
