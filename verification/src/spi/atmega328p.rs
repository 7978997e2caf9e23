//! ATmega328P SPI backend.
//!
//! The control register selects the role, the clock divisor and the enable
//! bit; the status register's interrupt flag reports a complete transfer
//! and gates both directions of the data register.

use vstd::prelude::*;

use crate::bits::bit8;
use crate::errors::HalError;
use crate::spi::{SpiView, SPI};

verus! {

/// Peripheral-enable bit of the control register (bit 6).
pub const SPI_ENABLE: u8 = 0x40;

/// Master-role bit of the control register (bit 4).
pub const SPI_MASTER: u8 = 0x10;

/// Clock divisor of sixteen (bit 1 of the control register).
pub const SPI_CLOCK_DIV16: u8 = 0x02;

/// The SPI register bank of the ATmega328P.
pub struct Atmega328p {
    /// Control register: role, clock divisor and enable.
    pub spcr: u8,
    /// Status register: the interrupt flag (bit 7) reports a complete
    /// transfer.
    pub spsr: u8,
    /// Data register.
    pub spdr: u8,
}

impl Atmega328p {
    /// A power-on register bank: everything cleared.
    pub fn new() -> (r: Self)
        ensures
            r.spcr == 0,
            r.spsr == 0,
            r.spdr == 0,
    {
        Atmega328p { spcr: 0, spsr: 0, spdr: 0 }
    }

    /// Sample the interrupt flag that reports a complete transfer.
    fn is_transmission_complete(&self) -> (r: bool)
        ensures
            r == bit8(self.spsr, 7),
    {
        (self.spsr >> 7) & 1 == 1
    }
}

/// The control words of the two roles, spelled out.
proof fn lemma_role_words()
    ensures
        SPI_ENABLE | SPI_MASTER | SPI_CLOCK_DIV16 == 0x52u8,
        bit8(0x52, 4) && bit8(0x52, 6),
        !bit8(0x40, 4) && bit8(0x40, 6),
{
    assert(0x40u8 | 0x10 | 0x02 == 0x52u8) by (bit_vector);
    assert((0x52u8 >> 4) & 1 == 1 && (0x52u8 >> 6) & 1 == 1 && (0x40u8 >> 4) & 1 == 0 && (0x40u8
        >> 6) & 1 == 1) by (bit_vector);
}

impl SPI for Atmega328p {
    open spec fn spi_state(&self) -> SpiView {
        SpiView {
            master: bit8(self.spcr, 4),
            enabled: bit8(self.spcr, 6),
            tx_ready: bit8(self.spsr, 7),
            rx_ready: bit8(self.spsr, 7),
            data: self.spdr,
        }
    }

    fn spi_init_master(&mut self)
        ensures
            final(self).spcr == SPI_ENABLE | SPI_MASTER | SPI_CLOCK_DIV16,
            final(self).spsr == 0,
            final(self).spdr == old(self).spdr,
    {
        self.spcr = SPI_ENABLE | SPI_MASTER | SPI_CLOCK_DIV16;
        self.spsr = 0;
        proof {
            lemma_role_words();
        }
    }

    fn spi_init_slave(&mut self)
        ensures
            final(self).spcr == SPI_ENABLE,
            final(self).spsr == 0,
            final(self).spdr == old(self).spdr,
    {
        self.spcr = SPI_ENABLE;
        self.spsr = 0;
        proof {
            lemma_role_words();
        }
    }

    fn spi_write(&mut self, data: u8) -> (r: Result<(), HalError>)
        ensures
            final(self).spdr == data,
            final(self).spcr == old(self).spcr,
            final(self).spsr == old(self).spsr,
    {
        self.spdr = data;  // loading the data register starts the transfer
        if self.is_transmission_complete() {
            Ok(())
        } else {
            Err(HalError::Timeout)
        }
    }

    fn spi_read(&self) -> (r: Result<u8, HalError>) {
        if self.is_transmission_complete() {
            Ok(self.spdr)
        } else {
            Err(HalError::Timeout)
        }
    }

    fn spi_transfer(&mut self, data: u8) -> (r: Result<u8, HalError>)
        ensures
            final(self).spdr == data,
            final(self).spcr == old(self).spcr,
            final(self).spsr == old(self).spsr,
    {
        self.spdr = data;  // loading the data register starts the transfer
        if self.is_transmission_complete() {
            Ok(self.spdr)
        } else {
            Err(HalError::Timeout)
        }
    }
}

} // verus!
