//! Cortex-M3 SPI backend.
//!
//! Control register 1 selects the role, the clock prescaler and the enable
//! bit; the status register carries separate transmit-empty and
//! receive-not-empty flags gating the data register.

use vstd::prelude::*;

use crate::bits::lemma_u8_in_u32;
use crate::errors::HalError;
use crate::spi::{SpiView, SPI};

verus! {

/// Master-role bit of control register 1 (bit 2).
pub const SPI_MASTER_MODE: u32 = 0x04;

/// Peripheral-enable bit of control register 1 (bit 6).
pub const SPI_ENABLE_BIT: u32 = 0x40;

/// Clock prescaler of eight (bits 3-5 of control register 1 at `0b011`).
pub const SPI_CLOCK_DIV8: u32 = 0x18;

/// Transmit-empty flag of the status register (bit 1).
pub const SPI_TXE: u32 = 0x02;

/// Receive-not-empty flag of the status register (bit 0).
pub const SPI_RXNE: u32 = 0x01;

/// The SPI register bank of the Cortex-M3 target.
pub struct CortexM3 {
    /// Control register 1: role, prescaler and enable.
    pub cr1: u32,
    /// Status register: transmit-empty and receive-not-empty flags.
    pub sr: u32,
    /// Data register; the low byte carries the data.
    pub dr: u32,
}

impl CortexM3 {
    /// A power-on register bank: everything cleared.
    pub fn new() -> (r: Self)
        ensures
            r.cr1 == 0,
            r.sr == 0,
            r.dr == 0,
    {
        CortexM3 { cr1: 0, sr: 0, dr: 0 }
    }
}

/// The master control word, spelled out.
proof fn lemma_master_word()
    ensures
        SPI_MASTER_MODE | SPI_CLOCK_DIV8 == 0x1cu32,
        (0x1cu32 | SPI_ENABLE_BIT) == 0x5cu32,
        0x5cu32 & SPI_MASTER_MODE != 0,
        0x5cu32 & SPI_ENABLE_BIT != 0,
{
    assert(0x04u32 | 0x18 == 0x1cu32 && 0x1cu32 | 0x40 == 0x5cu32 && 0x5cu32 & 0x04 != 0 && 0x5cu32
        & 0x40 != 0) by (bit_vector);
}

/// The slave control word, spelled out: role bit clear, enable bit set.
proof fn lemma_slave_word()
    ensures
        SPI_ENABLE_BIT & SPI_MASTER_MODE == 0,
        SPI_ENABLE_BIT & SPI_ENABLE_BIT != 0,
{
    assert(0x40u32 & 0x04 == 0 && 0x40u32 & 0x40 != 0) by (bit_vector);
}

impl SPI for CortexM3 {
    open spec fn spi_state(&self) -> SpiView {
        SpiView {
            master: self.cr1 & SPI_MASTER_MODE != 0,
            enabled: self.cr1 & SPI_ENABLE_BIT != 0,
            tx_ready: self.sr & SPI_TXE != 0,
            rx_ready: self.sr & SPI_RXNE != 0,
            data: (self.dr & 0xff) as u8,
        }
    }

    fn spi_init_master(&mut self)
        ensures
            final(self).cr1 == (SPI_MASTER_MODE | SPI_CLOCK_DIV8) | SPI_ENABLE_BIT,
            final(self).sr == old(self).sr,
            final(self).dr == old(self).dr,
    {
        self.cr1 = SPI_MASTER_MODE | SPI_CLOCK_DIV8;
        self.cr1 = self.cr1 | SPI_ENABLE_BIT;
        proof {
            lemma_master_word();
        }
    }

    fn spi_init_slave(&mut self)
        ensures
            final(self).cr1 == SPI_ENABLE_BIT,
            final(self).sr == old(self).sr,
            final(self).dr == old(self).dr,
    {
        self.cr1 = SPI_ENABLE_BIT;  // role and enable rebuilt from scratch
        proof {
            lemma_slave_word();
        }
    }

    fn spi_write(&mut self, data: u8) -> (r: Result<(), HalError>)
        ensures
            r is Ok ==> final(self).dr == data as u32,
            r is Err ==> final(self).dr == old(self).dr,
            final(self).cr1 == old(self).cr1,
            final(self).sr == old(self).sr,
    {
        if self.sr & SPI_TXE != 0 {
            self.dr = data as u32;
            proof {
                lemma_u8_in_u32(data);
            }
            Ok(())
        } else {
            Err(HalError::Timeout)
        }
    }

    fn spi_read(&self) -> (r: Result<u8, HalError>) {
        if self.sr & SPI_RXNE != 0 {
            Ok((self.dr & 0xff) as u8)
        } else {
            Err(HalError::Timeout)
        }
    }

    fn spi_transfer(&mut self, data: u8) -> (r: Result<u8, HalError>)
        ensures
            r is Ok ==> final(self).dr == data as u32,
            final(self).cr1 == old(self).cr1,
            final(self).sr == old(self).sr,
    {
        if self.sr & SPI_TXE != 0 {
            self.dr = data as u32;
            proof {
                lemma_u8_in_u32(data);
            }
            if self.sr & SPI_RXNE != 0 {
                Ok((self.dr & 0xff) as u8)
            } else {
                Err(HalError::Timeout)
            }
        } else {
            Err(HalError::Timeout)
        }
    }
}

} // verus!
