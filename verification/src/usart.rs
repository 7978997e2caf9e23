//! Asynchronous serial (USART): the architecture-independent interface.
//!
//! A backend turns a requested baud rate into a divisor of its fixed 16 MHz
//! reference clock, stores it in the baud-rate register(s) and enables the
//! transmitter and the receiver. Single bytes then move through the data
//! register, gated by the transmit-ready and receive-complete status flags.
//! The registers are an in-memory backing store: a status flag holds whatever
//! the harness put there, and a cleared flag surfaces as a timeout instead of
//! an unbounded busy-wait.

use vstd::prelude::*;

use crate::errors::HalError;

pub mod atmega328p;
pub mod cortex_m3;

verus! {

/// The abstract state of a USART peripheral.
pub struct UsartView {
    /// The divisor stored in the baud-rate register(s).
    pub divisor: u32,
    /// The transmitter is enabled.
    pub tx_on: bool,
    /// The receiver is enabled.
    pub rx_on: bool,
    /// The transmit register is ready to take a byte.
    pub tx_ready: bool,
    /// A received byte is waiting in the data register.
    pub rx_ready: bool,
    /// The data register.
    pub data: u8,
}

/// The capability interface every USART backend satisfies.
pub trait USART: Sized {
    /// The peripheral state the backend's registers encode.
    spec fn usart_state(&self) -> UsartView;

    /// Whether the chip can realize `baud_rate` against its reference clock.
    spec fn baud_ok(baud_rate: u32) -> bool;

    /// The divisor the chip derives from `baud_rate`.
    spec fn divisor_for(baud_rate: u32) -> u32;

    /// Store the divisor for `baud_rate` and enable both directions, or
    /// reject a rate whose divisor leaves the baud-rate register's range.
    fn usart_init(&mut self, baud_rate: u32) -> (r: Result<(), HalError>)
        ensures
            r is Ok <==> Self::baud_ok(baud_rate),
            r is Ok ==> final(self).usart_state() == (UsartView {
                divisor: Self::divisor_for(baud_rate),
                tx_on: true,
                rx_on: true,
                ..old(self).usart_state()
            }),
            r matches Err(e) ==> e == HalError::InvalidBaudRate && final(self).usart_state()
                == old(self).usart_state(),
    ;

    /// Commit one byte to the data register once the transmitter is ready;
    /// report a timeout while it is not.
    fn usart_write(&mut self, data: u8) -> (r: Result<(), HalError>)
        ensures
            r is Ok <==> old(self).usart_state().tx_ready,
            r is Ok ==> final(self).usart_state() == (UsartView {
                data,
                ..old(self).usart_state()
            }),
            r matches Err(e) ==> e == HalError::Timeout && final(self).usart_state() == old(self).usart_state(),
    ;

    /// Return the received byte once one is waiting; report a timeout while
    /// none is.
    fn usart_read(&self) -> (r: Result<u8, HalError>)
        ensures
            r is Ok <==> self.usart_state().rx_ready,
            r matches Ok(b) ==> b == self.usart_state().data,
            r matches Err(e) ==> e == HalError::Timeout,
    ;
}

/// Configure the baud rate on the selected backend and enable it.
pub fn usart_init<U: USART>(usart: &mut U, baud_rate: u32) -> (r: Result<(), HalError>)
    ensures
        r is Ok <==> U::baud_ok(baud_rate),
        r is Ok ==> final(usart).usart_state() == (UsartView {
            divisor: U::divisor_for(baud_rate),
            tx_on: true,
            rx_on: true,
            ..old(usart).usart_state()
        }),
        r matches Err(e) ==> e == HalError::InvalidBaudRate && final(usart).usart_state() == old(usart).usart_state(),
{
    usart.usart_init(baud_rate)
}

/// Send one byte through the selected backend.
pub fn usart_write<U: USART>(usart: &mut U, data: u8) -> (r: Result<(), HalError>)
    ensures
        r is Ok <==> old(usart).usart_state().tx_ready,
        r is Ok ==> final(usart).usart_state() == (UsartView {
            data,
            ..old(usart).usart_state()
        }),
        r matches Err(e) ==> e == HalError::Timeout && final(usart).usart_state() == old(usart).usart_state(),
{
    usart.usart_write(data)
}

/// Receive one byte through the selected backend.
pub fn usart_read<U: USART>(usart: &U) -> (r: Result<u8, HalError>)
    ensures
        r is Ok <==> usart.usart_state().rx_ready,
        r matches Ok(b) ==> b == usart.usart_state().data,
        r matches Err(e) ==> e == HalError::Timeout,
{
    usart.usart_read()
}

} // verus!
