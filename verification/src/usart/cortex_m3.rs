//! Cortex-M3 USART backend.
//!
//! The baud-rate register takes the direct ratio `16_000_000 / baud_rate`.
//! Control register 1 enables the peripheral, the transmitter and the
//! receiver; the status register carries the transmit-empty and
//! receive-not-empty flags the data-register accesses are gated on.

use vstd::prelude::*;

use crate::bits::{bit32, lemma_low_byte_bound, lemma_u8_in_u32};
use crate::errors::HalError;
use crate::usart::{UsartView, USART};

verus! {

/// Control word of register 1: transmitter (bit 3), receiver (bit 2) and
/// peripheral (bit 13) enables.
pub const USART_ENABLE_WORD: u32 = 0x200c;

/// The USART register bank of the Cortex-M3 target.
pub struct CortexM3 {
    /// Status register: transmit-empty (bit 7) and receive-not-empty
    /// (bit 5) flags.
    pub sr: u32,
    /// Data register; the low byte carries the data.
    pub dr: u32,
    /// Baud-rate register.
    pub brr: u32,
    /// Control register 1.
    pub cr1: u32,
}

impl CortexM3 {
    /// A power-on register bank: everything cleared.
    pub fn new() -> (r: Self)
        ensures
            r.sr == 0,
            r.dr == 0,
            r.brr == 0,
            r.cr1 == 0,
    {
        CortexM3 { sr: 0, dr: 0, brr: 0, cr1: 0 }
    }
}

/// The enable word written by `usart_init` carries the transmitter and
/// receiver bits.
proof fn lemma_enable_word()
    ensures
        bit32(USART_ENABLE_WORD, 3),
        bit32(USART_ENABLE_WORD, 2),
{
    assert((0x200cu32 >> 3) & 1 == 1 && (0x200cu32 >> 2) & 1 == 1) by (bit_vector);
}

/// The law of this backend's baud rate: every rate above zero is
/// realizable, and the stored divisor is the direct ratio
/// `16_000_000 / baud_rate` of the reference clock — never clamped.
pub proof fn lemma_divisor_law(baud_rate: u32)
    ensures
        CortexM3::baud_ok(baud_rate) <==> baud_rate > 0,
        baud_rate > 0 ==> CortexM3::divisor_for(baud_rate) as int == 16_000_000 as int / (
        baud_rate as int),
{
}

impl USART for CortexM3 {
    open spec fn usart_state(&self) -> UsartView {
        UsartView {
            divisor: self.brr,
            tx_on: bit32(self.cr1, 3),
            rx_on: bit32(self.cr1, 2),
            tx_ready: bit32(self.sr, 7),
            rx_ready: bit32(self.sr, 5),
            data: (self.dr & 0xff) as u8,
        }
    }

    open spec fn baud_ok(baud_rate: u32) -> bool {
        baud_rate > 0
    }

    open spec fn divisor_for(baud_rate: u32) -> u32 {
        (16_000_000 as int / (baud_rate as int)) as u32
    }

    fn usart_init(&mut self, baud_rate: u32) -> (r: Result<(), HalError>)
        ensures
            r is Ok ==> final(self).brr == Self::divisor_for(baud_rate)
                && final(self).cr1 == USART_ENABLE_WORD
                && final(self).sr == old(self).sr
                && final(self).dr == old(self).dr,
            r is Err ==> *final(self) == *old(self),
    {
        if baud_rate == 0 {
            return Err(HalError::InvalidBaudRate);
        }
        self.brr = 16_000_000u32 / baud_rate;
        self.cr1 = USART_ENABLE_WORD;
        proof {
            lemma_enable_word();
        }
        Ok(())
    }

    fn usart_write(&mut self, data: u8) -> (r: Result<(), HalError>)
        ensures
            r is Ok ==> *final(self) == (CortexM3 { dr: data as u32, ..*old(self) }),
            r is Err ==> *final(self) == *old(self),
    {
        if (self.sr >> 7) & 1 == 1 {
            self.dr = data as u32;
            proof {
                lemma_u8_in_u32(data);
            }
            Ok(())
        } else {
            Err(HalError::Timeout)
        }
    }

    fn usart_read(&self) -> (r: Result<u8, HalError>) {
        if (self.sr >> 5) & 1 == 1 {
            proof {
                lemma_low_byte_bound(self.dr);
            }
            Ok((self.dr & 0xff) as u8)
        } else {
            Err(HalError::Timeout)
        }
    }
}

} // verus!
