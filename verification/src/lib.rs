//! Drivers and input logic for the RP2040: clocks, GPIO, I2C, a compass,
//! button debouncing and interrupt handling.  Every driver computes the exact
//! register traffic its operation needs (`regs::RegOp`), and the caller
//! performs it on the hardware.
use vstd::prelude::*;

pub mod regs;
pub mod pin_io;
pub mod i2c;
pub mod qmc5883l;
pub mod sys_clock;
pub mod debounce;
pub mod button;
pub mod interrupts;
pub mod tasks;
pub mod dog;
