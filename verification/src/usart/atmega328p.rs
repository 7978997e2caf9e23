//! ATmega328P USART backend.
//!
//! The baud-rate divisor is `16_000_000 / (16 * baud_rate) - 1`, split over
//! a high and a low 8-bit register. Control register B enables the
//! transmitter and the receiver, control register C selects the frame
//! format, and control register A carries the status flags the data-register
//! accesses are gated on.

use vstd::prelude::*;

use crate::bits::{bit8, lemma_u16_split};
use crate::errors::HalError;
use crate::usart::{UsartView, USART};

verus! {

/// Transmitter-enable bit of control register B (bit 3).
pub const TX_ENABLE: u8 = 0x08;

/// Receiver-enable bit of control register B (bit 4).
pub const RX_ENABLE: u8 = 0x10;

/// Frame format of control register C: 8 data bits, 1 stop bit (bits 1-2).
pub const FRAME_FORMAT: u8 = 0x06;

/// The USART register bank of the ATmega328P.
pub struct Atmega328p {
    /// High byte of the baud-rate divisor.
    pub ubrr0h: u8,
    /// Low byte of the baud-rate divisor.
    pub ubrr0l: u8,
    /// Control and status register A: transmit-ready (bit 5) and
    /// receive-complete (bit 7) flags.
    pub ucsr0a: u8,
    /// Control register B: transmitter and receiver enables.
    pub ucsr0b: u8,
    /// Control register C: frame format.
    pub ucsr0c: u8,
    /// Data register.
    pub udr0: u8,
}

impl Atmega328p {
    /// A power-on register bank: everything cleared.
    pub fn new() -> (r: Self)
        ensures
            r.ubrr0h == 0,
            r.ubrr0l == 0,
            r.ucsr0a == 0,
            r.ucsr0b == 0,
            r.ucsr0c == 0,
            r.udr0 == 0,
    {
        Atmega328p { ubrr0h: 0, ubrr0l: 0, ucsr0a: 0, ucsr0b: 0, ucsr0c: 0, udr0: 0 }
    }
}

/// The enable words written by `usart_init` carry the transmitter and
/// receiver bits.
proof fn lemma_enable_word()
    ensures
        TX_ENABLE | RX_ENABLE == 0x18u8,
        bit8(0x18, 3),
        bit8(0x18, 4),
{
    assert(0x08u8 | 0x10 == 0x18u8) by (bit_vector);
    assert((0x18u8 >> 3) & 1 == 1 && (0x18u8 >> 4) & 1 == 1) by (bit_vector);
}

/// The law of this backend's baud rate: a rate is realizable exactly when
/// the divisor `16_000_000 / (16 * baud_rate) - 1` is non-negative and fits
/// the 16-bit register pair, and the stored divisor is then exactly that
/// value — never clamped.
pub proof fn lemma_divisor_law(baud_rate: u32)
    ensures
        Atmega328p::baud_ok(baud_rate) <==> baud_rate > 0 && 0 <= 16_000_000 as int / (16 * (
        baud_rate as int)) - 1 <= 0xffff,
        Atmega328p::baud_ok(baud_rate) ==> Atmega328p::divisor_for(baud_rate) as int
            == 16_000_000 as int / (16 * (baud_rate as int)) - 1,
{
}

impl USART for Atmega328p {
    open spec fn usart_state(&self) -> UsartView {
        UsartView {
            divisor: ((self.ubrr0h as int) * 256 + (self.ubrr0l as int)) as u32,
            tx_on: bit8(self.ucsr0b, 3),
            rx_on: bit8(self.ucsr0b, 4),
            tx_ready: bit8(self.ucsr0a, 5),
            rx_ready: bit8(self.ucsr0a, 7),
            data: self.udr0,
        }
    }

    open spec fn baud_ok(baud_rate: u32) -> bool {
        &&& baud_rate > 0
        &&& 16_000_000 as int / (16 * (baud_rate as int)) >= 1
        &&& 16_000_000 as int / (16 * (baud_rate as int)) - 1 <= 0xffff
    }

    open spec fn divisor_for(baud_rate: u32) -> u32 {
        (16_000_000 as int / (16 * (baud_rate as int)) - 1) as u32
    }

    fn usart_init(&mut self, baud_rate: u32) -> (r: Result<(), HalError>)
        ensures
            r is Ok ==> final(self).ubrr0h == Self::divisor_for(baud_rate) / 256
                && final(self).ubrr0l == Self::divisor_for(baud_rate) % 256
                && final(self).ucsr0b == TX_ENABLE | RX_ENABLE
                && final(self).ucsr0c == FRAME_FORMAT
                && final(self).ucsr0a == old(self).ucsr0a
                && final(self).udr0 == old(self).udr0,
            r is Err ==> *final(self) == *old(self),
    {
        if baud_rate == 0 {
            return Err(HalError::InvalidBaudRate);
        }
        let quotient = 16_000_000u64 / (16u64 * (baud_rate as u64));
        if quotient == 0 {
            return Err(HalError::InvalidBaudRate);
        }
        let divisor = quotient - 1;
        if divisor > 0xffff {
            return Err(HalError::InvalidBaudRate);
        }
        let word = divisor as u16;
        proof {
            lemma_u16_split(word);
            lemma_enable_word();
        }
        self.ubrr0h = (word >> 8) as u8;
        self.ubrr0l = (word & 0xff) as u8;
        self.ucsr0b = TX_ENABLE | RX_ENABLE;
        self.ucsr0c = FRAME_FORMAT;
        Ok(())
    }

    fn usart_write(&mut self, data: u8) -> (r: Result<(), HalError>)
        ensures
            r is Ok ==> *final(self) == (Atmega328p { udr0: data, ..*old(self) }),
            r is Err ==> *final(self) == *old(self),
    {
        if (self.ucsr0a >> 5) & 1 == 1 {
            self.udr0 = data;
            Ok(())
        } else {
            Err(HalError::Timeout)
        }
    }

    fn usart_read(&self) -> (r: Result<u8, HalError>) {
        if (self.ucsr0a >> 7) & 1 == 1 {
            Ok(self.udr0)
        } else {
            Err(HalError::Timeout)
        }
    }
}

} // verus!
