//! Hardware abstraction layer for bare-metal microcontroller firmware.
//!
//! One architecture-independent function surface covers four peripheral
//! domains — digital I/O (GPIO), asynchronous serial (USART), synchronous
//! serial (SPI) and two-wire serial (I2C) — each realized by a register-level
//! backend for a concrete chip family. A backend owns its peripheral's
//! register bank as an in-memory backing store, so every register protocol is
//! stated and proved bit-exact; a test harness plays the part of the bus by
//! presetting status flags and inspecting the registers afterwards.

pub mod bits;
pub mod errors;
pub mod gpio;
pub mod i2c;
pub mod spi;
pub mod usart;
