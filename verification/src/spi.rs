//! Synchronous serial (SPI): the architecture-independent interface.
//!
//! A backend configures its control register for the master or the slave
//! role — switching roles re-initializes the control register from
//! scratch — and moves single bytes through the data register, gated by the
//! transmit-ready and receive-complete status flags. The registers are an
//! in-memory backing store: a status flag holds whatever the harness put
//! there, and a cleared flag surfaces as a timeout instead of an unbounded
//! busy-wait.

use vstd::prelude::*;

use crate::errors::HalError;

pub mod atmega328p;
pub mod cortex_m3;

verus! {

/// The abstract state of an SPI peripheral.
pub struct SpiView {
    /// The peripheral drives the bus clock (master role).
    pub master: bool,
    /// The peripheral is enabled.
    pub enabled: bool,
    /// The transmit side is ready to take a byte.
    pub tx_ready: bool,
    /// A received byte is waiting in the data register.
    pub rx_ready: bool,
    /// The data register.
    pub data: u8,
}

/// The capability interface every SPI backend satisfies.
pub trait SPI: Sized {
    /// The peripheral state the backend's registers encode.
    spec fn spi_state(&self) -> SpiView;

    /// Configure and enable the master role, rebuilding the control
    /// register from scratch.
    fn spi_init_master(&mut self)
        ensures
            final(self).spi_state().master,
            final(self).spi_state().enabled,
            final(self).spi_state().data == old(self).spi_state().data,
    ;

    /// Configure and enable the slave role, rebuilding the control
    /// register from scratch.
    fn spi_init_slave(&mut self)
        ensures
            !final(self).spi_state().master,
            final(self).spi_state().enabled,
            final(self).spi_state().data == old(self).spi_state().data,
    ;

    /// Load one byte into the data register to start a transfer once the
    /// transmit side is ready; report a timeout while it is not.
    fn spi_write(&mut self, data: u8) -> (r: Result<(), HalError>)
        ensures
            r is Ok <==> old(self).spi_state().tx_ready,
            r is Ok ==> final(self).spi_state() == (SpiView {
                data,
                ..old(self).spi_state()
            }),
            r matches Err(e) ==> e == HalError::Timeout,
            final(self).spi_state().master == old(self).spi_state().master,
            final(self).spi_state().enabled == old(self).spi_state().enabled,
            final(self).spi_state().tx_ready == old(self).spi_state().tx_ready,
            final(self).spi_state().rx_ready == old(self).spi_state().rx_ready,
    ;

    /// Return the received byte once one is waiting; report a timeout while
    /// none is.
    fn spi_read(&self) -> (r: Result<u8, HalError>)
        ensures
            r is Ok <==> self.spi_state().rx_ready,
            r matches Ok(b) ==> b == self.spi_state().data,
            r matches Err(e) ==> e == HalError::Timeout,
    ;

    /// Exchange one byte: load `data`, then return what the data register
    /// holds after the write phase — under this register model the written
    /// byte loops back. The portable default runs write-then-read, a
    /// half-duplex emulation of the full-duplex exchange; backends may
    /// override it.
    fn spi_transfer(&mut self, data: u8) -> (r: Result<u8, HalError>)
        ensures
            r is Ok <==> old(self).spi_state().tx_ready && old(self).spi_state().rx_ready,
            r matches Ok(b) ==> b == data && b == final(self).spi_state().data,
            r is Ok ==> final(self).spi_state() == (SpiView {
                data,
                ..old(self).spi_state()
            }),
            r matches Err(e) ==> e == HalError::Timeout,
            final(self).spi_state().master == old(self).spi_state().master,
            final(self).spi_state().enabled == old(self).spi_state().enabled,
            final(self).spi_state().tx_ready == old(self).spi_state().tx_ready,
            final(self).spi_state().rx_ready == old(self).spi_state().rx_ready,
    {
        match self.spi_write(data) {
            Ok(()) => self.spi_read(),
            Err(e) => Err(e),
        }
    }
}

/// Configure the selected backend as master.
pub fn spi_init_master<S: SPI>(spi: &mut S)
    ensures
        final(spi).spi_state().master,
        final(spi).spi_state().enabled,
        final(spi).spi_state().data == old(spi).spi_state().data,
{
    spi.spi_init_master();
}

/// Configure the selected backend as slave.
pub fn spi_init_slave<S: SPI>(spi: &mut S)
    ensures
        !final(spi).spi_state().master,
        final(spi).spi_state().enabled,
        final(spi).spi_state().data == old(spi).spi_state().data,
{
    spi.spi_init_slave();
}

/// Send one byte through the selected backend.
pub fn spi_write<S: SPI>(spi: &mut S, data: u8) -> (r: Result<(), HalError>)
    ensures
        r is Ok <==> old(spi).spi_state().tx_ready,
        r is Ok ==> final(spi).spi_state() == (SpiView {
            data,
            ..old(spi).spi_state()
        }),
        r matches Err(e) ==> e == HalError::Timeout,
{
    spi.spi_write(data)
}

/// Receive one byte through the selected backend.
pub fn spi_read<S: SPI>(spi: &S) -> (r: Result<u8, HalError>)
    ensures
        r is Ok <==> spi.spi_state().rx_ready,
        r matches Ok(b) ==> b == spi.spi_state().data,
        r matches Err(e) ==> e == HalError::Timeout,
{
    spi.spi_read()
}

/// Exchange one byte through the selected backend.
pub fn spi_transfer<S: SPI>(spi: &mut S, data: u8) -> (r: Result<u8, HalError>)
    ensures
        r is Ok <==> old(spi).spi_state().tx_ready && old(spi).spi_state().rx_ready,
        r matches Ok(b) ==> b == data && b == final(spi).spi_state().data,
        r matches Err(e) ==> e == HalError::Timeout,
{
    spi.spi_transfer(data)
}

} // verus!
