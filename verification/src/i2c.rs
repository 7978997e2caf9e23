//! Two-wire serial (I2C): the architecture-independent interface.
//!
//! A transaction is an ordered sequence on the physical bus: a start
//! condition, an address phase carrying the 7-bit address and the transfer
//! intent, data phases, and a stop condition that releases the bus. The
//! backends record every phase they assert as an [`I2cEvent`], so the
//! contracts pin the exact order down — including the rule that the master
//! acknowledges every requested byte except the last, which it must leave
//! unacknowledged so the slave stops transmitting, and the rule that a bus
//! taken by a start condition is released by a stop condition on every path,
//! the timeout paths included.

use vstd::prelude::*;

use crate::errors::HalError;

pub mod atmega328p;
pub mod cortex_m3;

verus! {

/// One phase a master asserts on the two-wire bus.
#[derive(Clone, Copy, Debug, PartialEq, Eq, Structural)]
pub enum I2cEvent {
    /// A start condition, taking the bus.
    Start,
    /// The address phase: a 7-bit slave address and the transfer intent.
    Address { addr: u8, read: bool },
    /// A data phase handing one byte to the slave.
    DataOut { byte: u8 },
    /// A data phase taking one byte from the slave; `ack` is the master's
    /// acknowledge-enable setting for it.
    DataIn { ack: bool },
    /// A stop condition, releasing the bus.
    Stop,
}

/// The abstract state of a two-wire peripheral.
#[verifier::ext_equal]
pub struct I2cView {
    /// The peripheral is enabled.
    pub enabled: bool,
    /// The bit-rate setting derived from the requested bus clock.
    pub rate: u32,
    /// Every phase asserted on the bus so far.
    pub bus: Seq<I2cEvent>,
    /// The bytes the simulated slave still has to transmit.
    pub rx: Seq<u8>,
    /// The data register.
    pub data: u8,
}

/// The phases of one complete write transaction.
pub open spec fn write_events(address: u8, data: Seq<u8>) -> Seq<I2cEvent> {
    seq![I2cEvent::Start, I2cEvent::Address { addr: address, read: false }] + Seq::new(
        data.len(),
        |i: int| I2cEvent::DataOut { byte: data[i] },
    ) + seq![I2cEvent::Stop]
}

/// The phases of one complete read transaction of `count` bytes.
pub open spec fn read_events(address: u8, count: nat) -> Seq<I2cEvent> {
    seq![I2cEvent::Start, I2cEvent::Address { addr: address, read: true }] + Seq::new(
        count,
        |i: int| I2cEvent::DataIn { ack: i + 1 < count },
    ) + seq![I2cEvent::Stop]
}

/// The byte the address phase of a read transaction puts on the wire and
/// leaves in the data register: the 7-bit address beside a set read bit.
pub open spec fn read_intent_byte(address: u8) -> u8 {
    (address << 1) | 1
}

/// The byte the simulated slave hands over at position `i` of a read, when
/// it started with queue `rx` and the data register held `data`: queued
/// bytes come in order, and a drained queue leaves the register at its last
/// value.
pub open spec fn byte_from(rx: Seq<u8>, data: u8, i: int) -> u8 {
    if i < rx.len() {
        rx[i]
    } else if rx.len() > 0 {
        rx[rx.len() - 1]
    } else {
        data
    }
}

/// A write transaction opens with exactly one start condition, closes with
/// exactly one stop condition, and carries every byte in order between the
/// two.
pub proof fn lemma_write_transaction_shape(address: u8, data: Seq<u8>)
    ensures
        write_events(address, data).len() == data.len() + 3,
        write_events(address, data)[0] is Start,
        write_events(address, data)[1] == (I2cEvent::Address { addr: address, read: false }),
        write_events(address, data).last() is Stop,
        forall|i: int|
            2 <= i < data.len() + 2 ==> write_events(address, data)[i] == (I2cEvent::DataOut {
                byte: data[i - 2],
            }),
        forall|i: int|
            1 <= i < data.len() + 2 ==> !(write_events(address, data)[i] is Start) && !(
            write_events(address, data)[i] is Stop),
{
}

/// A read transaction opens with exactly one start condition, closes with
/// exactly one stop condition, and acknowledges every requested byte except
/// the last, which it leaves unacknowledged.
pub proof fn lemma_read_transaction_shape(address: u8, count: nat)
    ensures
        read_events(address, count).len() == count + 3,
        read_events(address, count)[0] is Start,
        read_events(address, count)[1] == (I2cEvent::Address { addr: address, read: true }),
        read_events(address, count).last() is Stop,
        forall|i: int|
            2 <= i < count + 2 ==> read_events(address, count)[i] == (I2cEvent::DataIn {
                ack: i < count + 1,
            }),
        forall|i: int|
            2 <= i < count + 2 ==> (read_events(address, count)[i]->ack <==> i != count + 1),
        forall|i: int|
            1 <= i < count + 2 ==> !(read_events(address, count)[i] is Start) && !(read_events(
                address,
                count,
            )[i] is Stop),
{
}

/// A bus log that grows by a segment opening with a start condition and
/// closing with a stop condition keeps the old log as a prefix and releases
/// the bus it took.
pub proof fn lemma_release_shape(
    bus0: Seq<I2cEvent>,
    tail: Seq<I2cEvent>,
    bus1: Seq<I2cEvent>,
)
    requires
        bus1 =~= bus0 + tail,
        tail.len() > 0,
        tail[0] is Start,
        tail.last() is Stop,
    ensures
        bus0.is_prefix_of(bus1),
        bus1.len() > bus0.len(),
        bus1[bus0.len() as int] is Start,
        bus1.last() is Stop,
{
    assert(bus0 =~= bus1.subrange(0, bus0.len() as int));
    assert(bus1[bus0.len() as int] == tail[0]);
    assert(bus1.last() == tail.last());
}

/// The capability interface every two-wire backend satisfies.
pub trait I2C: Sized {
    /// The peripheral state the backend's registers encode.
    spec fn i2c_state(&self) -> I2cView;

    /// Whether the chip can realize `clock_speed` against its reference
    /// clock and register limits.
    spec fn clock_ok(clock_speed: u32) -> bool;

    /// The bit-rate setting the chip derives from `clock_speed`.
    spec fn rate_for(clock_speed: u32) -> u32;

    /// The configuration error an unrealizable `clock_speed` reports.
    spec fn config_fault(clock_speed: u32) -> HalError;

    /// The simulated bus acknowledges the start and address phases.
    spec fn bus_ready(&self) -> bool;

    /// The simulated bus acknowledges outgoing data phases.
    spec fn tx_ready(&self) -> bool;

    /// The simulated bus supplies incoming data phases.
    spec fn rx_ready(&self) -> bool;

    /// Derive the bit-rate setting for `clock_speed` and enable the
    /// peripheral, or reject a speed whose setting leaves the chip's limits.
    fn i2c_init(&mut self, clock_speed: u32) -> (r: Result<(), HalError>)
        ensures
            r is Ok <==> Self::clock_ok(clock_speed),
            r is Ok ==> final(self).i2c_state() == (I2cView {
                enabled: true,
                rate: Self::rate_for(clock_speed),
                ..old(self).i2c_state()
            }),
            r matches Err(e) ==> e == Self::config_fault(clock_speed) && final(self).i2c_state()
                == old(self).i2c_state(),
    ;

    /// One write transaction: start, address with write intent, every byte
    /// of `data` in order, stop. A phase the bus never acknowledges is a
    /// timeout, and the bus is released by a stop condition even then.
    fn i2c_write(&mut self, address: u8, data: &[u8]) -> (r: Result<(), HalError>)
        requires
            address < 128,
        ensures
            r is Ok <==> old(self).bus_ready() && (data@.len() == 0 || old(self).tx_ready()),
            r is Ok ==> final(self).i2c_state().bus == old(self).i2c_state().bus + write_events(
                address,
                data@,
            ),
            r matches Err(e) ==> e == HalError::Timeout,
            old(self).i2c_state().bus.is_prefix_of(final(self).i2c_state().bus),
            final(self).i2c_state().bus.len() > old(self).i2c_state().bus.len(),
            final(self).i2c_state().bus[old(self).i2c_state().bus.len() as int] is Start,
            final(self).i2c_state().bus.last() is Stop,
            final(self).i2c_state().rx == old(self).i2c_state().rx,
            final(self).i2c_state().rate == old(self).i2c_state().rate,
            old(self).i2c_state().enabled ==> final(self).i2c_state().enabled,
    ;

    /// One read transaction: start, address with read intent, one incoming
    /// data phase per position of `buffer` — acknowledged for every byte but
    /// the last — then stop. The buffer takes the bytes the simulated slave
    /// queued; the returned byte repeats the last one, or zero for an empty
    /// buffer. A phase the bus never acknowledges is a timeout, and the bus
    /// is released by a stop condition even then.
    fn i2c_read(&mut self, address: u8, buffer: &mut Vec<u8>) -> (r: Result<u8, HalError>)
        requires
            address < 128,
        ensures
            final(buffer)@.len() == old(buffer)@.len(),
            r is Ok <==> old(self).bus_ready() && (old(buffer)@.len() == 0 || old(self).rx_ready()),
            r is Ok ==> final(self).i2c_state().bus == old(self).i2c_state().bus + read_events(
                address,
                old(buffer)@.len(),
            ),
            r is Ok ==> forall|i: int|
                0 <= i < old(buffer)@.len() ==> final(buffer)@[i] == byte_from(
                    old(self).i2c_state().rx,
                    read_intent_byte(address),
                    i,
                ),
            r matches Ok(b) ==> b == (if old(buffer)@.len() == 0 {
                0u8
            } else {
                byte_from(
                    old(self).i2c_state().rx,
                    read_intent_byte(address),
                    old(buffer)@.len() - 1,
                )
            }),
            r is Ok ==> final(self).i2c_state().rx == old(self).i2c_state().rx.skip(
                if old(buffer)@.len() <= old(self).i2c_state().rx.len() {
                    old(buffer)@.len() as int
                } else {
                    old(self).i2c_state().rx.len() as int
                },
            ),
            r is Err ==> final(buffer)@ == old(buffer)@ && final(self).i2c_state().rx == old(self).i2c_state().rx,
            r matches Err(e) ==> e == HalError::Timeout,
            old(self).i2c_state().bus.is_prefix_of(final(self).i2c_state().bus),
            final(self).i2c_state().bus.len() > old(self).i2c_state().bus.len(),
            final(self).i2c_state().bus[old(self).i2c_state().bus.len() as int] is Start,
            final(self).i2c_state().bus.last() is Stop,
            final(self).i2c_state().rate == old(self).i2c_state().rate,
            old(self).i2c_state().enabled ==> final(self).i2c_state().enabled,
    ;
}

/// Configure the bus clock on the selected backend and enable it.
pub fn i2c_init<T: I2C>(i2c: &mut T, clock_speed: u32) -> (r: Result<(), HalError>)
    ensures
        r is Ok <==> T::clock_ok(clock_speed),
        r is Ok ==> final(i2c).i2c_state() == (I2cView {
            enabled: true,
            rate: T::rate_for(clock_speed),
            ..old(i2c).i2c_state()
        }),
        r matches Err(e) ==> e == T::config_fault(clock_speed) && final(i2c).i2c_state() == old(i2c).i2c_state(),
{
    i2c.i2c_init(clock_speed)
}

/// Write `data` to the slave at `address` through the selected backend.
pub fn i2c_write<T: I2C>(i2c: &mut T, address: u8, data: &[u8]) -> (r: Result<(), HalError>)
    requires
        address < 128,
    ensures
        r is Ok <==> old(i2c).bus_ready() && (data@.len() == 0 || old(i2c).tx_ready()),
        r is Ok ==> final(i2c).i2c_state().bus == old(i2c).i2c_state().bus + write_events(
            address,
            data@,
        ),
        r matches Err(e) ==> e == HalError::Timeout,
        old(i2c).i2c_state().bus.is_prefix_of(final(i2c).i2c_state().bus),
        final(i2c).i2c_state().bus.len() > old(i2c).i2c_state().bus.len(),
        final(i2c).i2c_state().bus[old(i2c).i2c_state().bus.len() as int] is Start,
        final(i2c).i2c_state().bus.last() is Stop,
        final(i2c).i2c_state().rx == old(i2c).i2c_state().rx,
        final(i2c).i2c_state().rate == old(i2c).i2c_state().rate,
        old(i2c).i2c_state().enabled ==> final(i2c).i2c_state().enabled,
{
    i2c.i2c_write(address, data)
}

/// Fill `buffer` from the slave at `address` through the selected backend;
/// the returned byte repeats the last one read, or zero for an empty buffer.
pub fn i2c_read<T: I2C>(i2c: &mut T, address: u8, buffer: &mut Vec<u8>) -> (r: Result<
    u8,
    HalError,
>)
    requires
        address < 128,
    ensures
        final(buffer)@.len() == old(buffer)@.len(),
        r is Ok <==> old(i2c).bus_ready() && (old(buffer)@.len() == 0 || old(i2c).rx_ready()),
        r is Ok ==> final(i2c).i2c_state().bus == old(i2c).i2c_state().bus + read_events(
            address,
            old(buffer)@.len(),
        ),
        r is Ok ==> forall|i: int|
            0 <= i < old(buffer)@.len() ==> final(buffer)@[i] == byte_from(
                old(i2c).i2c_state().rx,
                read_intent_byte(address),
                i,
            ),
        r matches Ok(b) ==> b == (if old(buffer)@.len() == 0 {
            0u8
        } else {
            byte_from(
                old(i2c).i2c_state().rx,
                read_intent_byte(address),
                old(buffer)@.len() - 1,
            )
        }),
        r is Ok ==> final(i2c).i2c_state().rx == old(i2c).i2c_state().rx.skip(
            if old(buffer)@.len() <= old(i2c).i2c_state().rx.len() {
                old(buffer)@.len() as int
            } else {
                old(i2c).i2c_state().rx.len() as int
            },
        ),
        r is Err ==> final(buffer)@ == old(buffer)@ && final(i2c).i2c_state().rx == old(
            i2c,
        ).i2c_state().rx,
        r matches Err(e) ==> e == HalError::Timeout,
        old(i2c).i2c_state().bus.is_prefix_of(final(i2c).i2c_state().bus),
        final(i2c).i2c_state().bus.len() > old(i2c).i2c_state().bus.len(),
        final(i2c).i2c_state().bus[old(i2c).i2c_state().bus.len() as int] is Start,
        final(i2c).i2c_state().bus.last() is Stop,
        final(i2c).i2c_state().rate == old(i2c).i2c_state().rate,
        old(i2c).i2c_state().enabled ==> final(i2c).i2c_state().enabled,
{
    i2c.i2c_read(address, buffer)
}

} // verus!
