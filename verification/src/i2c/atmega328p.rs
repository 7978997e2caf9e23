//! ATmega328P two-wire (TWI) backend.
//!
//! The bit rate derives from the 16 MHz reference as
//! `((16_000_000 / clock_speed) - 16) / 2` with a prescaler of one; a result
//! below 10 or above the 8-bit register is a configuration error. Each
//! protocol phase is driven by one control-register word combining the
//! interrupt flag with the start, stop, acknowledge and enable bits. The
//! simulated bus reads every logged phase off the registers themselves: a
//! start or stop condition off the written control word, the address and
//! data phases off the data register, the acknowledge setting off the
//! acknowledge-enable bit. The backing store keeps the interrupt flag
//! exactly as written, so the bus completes every phase at once and the
//! interrupt-flag poll never times out.

use vstd::prelude::*;

use crate::bits::bit8;
use crate::errors::HalError;
use crate::i2c::{byte_from, read_events, read_intent_byte, write_events, I2cEvent, I2cView, I2C};
use crate::i2c::{lemma_read_transaction_shape, lemma_release_shape, lemma_write_transaction_shape};

verus! {

/// Interrupt flag (bit 7): set when the current phase is complete.
pub const TWINT: u8 = 0x80;

/// Acknowledge-enable bit (bit 6).
pub const TWEA: u8 = 0x40;

/// Start-condition bit (bit 5).
pub const TWSTA: u8 = 0x20;

/// Stop-condition bit (bit 4).
pub const TWSTO: u8 = 0x10;

/// Peripheral-enable bit (bit 2).
pub const TWEN: u8 = 0x04;

/// The TWI register bank of the ATmega328P, with the simulated bus beside
/// it: the queue of bytes the slave will transmit and the log of asserted
/// phases.
pub struct Atmega328p {
    /// Bit-rate register.
    pub twbr: u8,
    /// Status register; its low two bits select the prescaler.
    pub twsr: u8,
    /// Own-address register, unused in master mode.
    pub twar: u8,
    /// Data register.
    pub twdr: u8,
    /// Control register.
    pub twcr: u8,
    /// The bytes the simulated slave will transmit, in order.
    pub rx: Vec<u8>,
    /// Every phase asserted on the simulated bus.
    pub bus: Vec<I2cEvent>,
}

impl Atmega328p {
    /// A power-on register bank beside an idle simulated bus.
    pub fn new() -> (r: Self)
        ensures
            r.twbr == 0 && r.twsr == 0 && r.twar == 0 && r.twdr == 0 && r.twcr == 0,
            r.rx@ == Seq::<u8>::empty(),
            r.bus@ == Seq::<I2cEvent>::empty(),
    {
        Atmega328p { twbr: 0, twsr: 0, twar: 0, twdr: 0, twcr: 0, rx: Vec::new(), bus: Vec::new() }
    }

    /// Sample the interrupt flag of the control register.
    fn twint_set(&self) -> (r: bool)
        ensures
            r == bit8(self.twcr, 7),
    {
        (self.twcr >> 7) & 1 == 1
    }

    /// The simulated bus notes the condition the control register asserts:
    /// the start bit puts a start condition on the wire, else the stop bit
    /// a stop condition, else nothing.
    fn note_condition(&mut self)
        ensures
            bit8(old(self).twcr, 5) ==> final(self).bus@ == old(self).bus@.push(I2cEvent::Start),
            !bit8(old(self).twcr, 5) && bit8(old(self).twcr, 4) ==> final(self).bus@ == old(self).bus@.push(I2cEvent::Stop),
            !bit8(old(self).twcr, 5) && !bit8(old(self).twcr, 4) ==> final(self).bus@ == old(self).bus@,
            final(self).twbr == old(self).twbr && final(self).twsr == old(self).twsr && final(self).twar == old(self).twar && final(self).twdr == old(self).twdr && final(self).twcr
                == old(self).twcr,
            final(self).rx@ == old(self).rx@,
    {
        if (self.twcr >> 5) & 1 == 1 {
            self.bus.push(I2cEvent::Start);
        } else if (self.twcr >> 4) & 1 == 1 {
            self.bus.push(I2cEvent::Stop);
        }
    }

    /// The simulated bus notes the address phase: the byte on the wire is
    /// the data register, its low bit the transfer intent.
    fn note_address(&mut self)
        ensures
            final(self).bus@ == old(self).bus@.push(
                I2cEvent::Address { addr: old(self).twdr >> 1, read: old(self).twdr & 1 == 1 },
            ),
            final(self).twbr == old(self).twbr && final(self).twsr == old(self).twsr && final(self).twar == old(self).twar && final(self).twdr == old(self).twdr && final(self).twcr
                == old(self).twcr,
            final(self).rx@ == old(self).rx@,
    {
        let event = I2cEvent::Address { addr: self.twdr >> 1, read: self.twdr & 1 == 1 };
        self.bus.push(event);
    }

    /// The simulated slave drives the next queued byte onto the data
    /// register; with the queue drained the register keeps its value.
    fn latch_rx(&mut self) -> (b: u8)
        ensures
            old(self).rx@.len() > 0 ==> final(self).twdr == old(self).rx@[0] && final(self).rx@
                == old(self).rx@.skip(1),
            old(self).rx@.len() == 0 ==> final(self).twdr == old(self).twdr && final(self).rx@
                == old(self).rx@,
            b == final(self).twdr,
            final(self).twbr == old(self).twbr && final(self).twsr == old(self).twsr && final(self).twar == old(self).twar && final(self).twcr == old(self).twcr,
            final(self).bus@ == old(self).bus@,
    {
        if self.rx.len() > 0 {
            let v = self.rx.remove(0);
            self.twdr = v;
            proof {
                assert(self.rx@ =~= old(self).rx@.skip(1));
            }
        }
        self.twdr
    }
}

/// The control words of the master protocol, spelled out bit by bit: each
/// carries the interrupt flag and the enable bit; only the start word
/// carries the start bit, only the stop word the stop bit, only the
/// acknowledging data word the acknowledge-enable bit.
proof fn lemma_control_words()
    ensures
        TWINT | TWSTA | TWEN == 0xa4u8,
        TWINT | TWEN == 0x84u8,
        TWINT | TWEA | TWEN == 0xc4u8,
        TWINT | TWSTO | TWEN == 0x94u8,
        bit8(0xa4, 7) && bit8(0x84, 7) && bit8(0xc4, 7) && bit8(0x94, 7),
        bit8(0xa4, 2) && bit8(0x84, 2) && bit8(0xc4, 2) && bit8(0x94, 2) && bit8(0x04, 2),
        bit8(0xa4, 5) && !bit8(0x84, 5) && !bit8(0xc4, 5) && !bit8(0x94, 5),
        bit8(0x94, 4) && !bit8(0x84, 4) && !bit8(0xc4, 4),
        bit8(0xc4, 6) && !bit8(0x84, 6),
{
    assert(0x80u8 | 0x20 | 0x04 == 0xa4u8 && 0x80u8 | 0x04 == 0x84u8 && 0x80u8 | 0x40 | 0x04
        == 0xc4u8 && 0x80u8 | 0x10 | 0x04 == 0x94u8) by (bit_vector);
    assert((0xa4u8 >> 7) & 1 == 1 && (0x84u8 >> 7) & 1 == 1 && (0xc4u8 >> 7) & 1 == 1 && (0x94u8
        >> 7) & 1 == 1) by (bit_vector);
    assert((0xa4u8 >> 2) & 1 == 1 && (0x84u8 >> 2) & 1 == 1 && (0xc4u8 >> 2) & 1 == 1 && (0x94u8
        >> 2) & 1 == 1 && (0x04u8 >> 2) & 1 == 1) by (bit_vector);
    assert((0xa4u8 >> 5) & 1 == 1 && (0x84u8 >> 5) & 1 == 0 && (0xc4u8 >> 5) & 1 == 0 && (0x94u8
        >> 5) & 1 == 0) by (bit_vector);
    assert((0x94u8 >> 4) & 1 == 1 && (0x84u8 >> 4) & 1 == 0 && (0xc4u8 >> 4) & 1 == 0)
        by (bit_vector);
    assert((0xc4u8 >> 6) & 1 == 1 && (0x84u8 >> 6) & 1 == 0) by (bit_vector);
}

/// The wire byte of the address phase decodes back into the 7-bit address
/// and the transfer intent.
proof fn lemma_address_byte(address: u8)
    requires
        address < 128,
    ensures
        ((address << 1) & 0xfe) >> 1 == address,
        ((address << 1) & 0xfe) & 1 == 0,
        ((address << 1) | 1) >> 1 == address,
        ((address << 1) | 1) & 1 == 1,
{
    assert(((address << 1) & 0xfe) >> 1 == address && ((address << 1) & 0xfe) & 1 == 0 && ((
    address << 1) | 1) >> 1 == address && ((address << 1) | 1) & 1 == 1) by (bit_vector)
        requires
            address < 128,
    ;
}

impl I2C for Atmega328p {
    open spec fn i2c_state(&self) -> I2cView {
        I2cView {
            enabled: bit8(self.twcr, 2),
            rate: self.twbr as u32,
            bus: self.bus@,
            rx: self.rx@,
            data: self.twdr,
        }
    }

    open spec fn clock_ok(clock_speed: u32) -> bool {
        &&& clock_speed > 0
        &&& 16_000_000 as int / (clock_speed as int) >= 36
        &&& (16_000_000 as int / (clock_speed as int) - 16) / 2 <= 255
    }

    open spec fn rate_for(clock_speed: u32) -> u32 {
        ((16_000_000 as int / (clock_speed as int) - 16) / 2) as u32
    }

    open spec fn config_fault(clock_speed: u32) -> HalError {
        if clock_speed == 0 {
            HalError::BitRateTooHigh
        } else if 16_000_000 as int / (clock_speed as int) < 36 {
            HalError::BitRateTooLow
        } else {
            HalError::BitRateTooHigh
        }
    }

    open spec fn bus_ready(&self) -> bool {
        true
    }

    open spec fn tx_ready(&self) -> bool {
        true
    }

    open spec fn rx_ready(&self) -> bool {
        true
    }

    fn i2c_init(&mut self, clock_speed: u32) -> (r: Result<(), HalError>)
        ensures
            r is Ok ==> final(self).twbr == Self::rate_for(clock_speed) && final(self).twsr == (
            old(self).twsr & !0x03) && final(self).twcr == TWEN && final(self).twar == old(self).twar && final(self).twdr == old(self).twdr,
            r is Err ==> *final(self) == *old(self),
    {
        if clock_speed == 0 {
            return Err(HalError::BitRateTooHigh);
        }
        let quotient = 16_000_000u32 / clock_speed;
        if quotient < 36 {
            return Err(HalError::BitRateTooLow);
        }
        let rate = (quotient - 16) / 2;
        if rate > 255 {
            return Err(HalError::BitRateTooHigh);
        }
        self.twsr = self.twsr & !0x03;  // prescaler of one
        self.twbr = rate as u8;
        self.twcr = TWEN;
        proof {
            lemma_control_words();
        }
        Ok(())
    }

    #[verifier::loop_isolation(false)]
    fn i2c_write(&mut self, address: u8, data: &[u8]) -> (r: Result<(), HalError>)
        ensures
            r is Ok ==> final(self).twcr == TWINT | TWSTO | TWEN && final(self).twdr == (if data@
                .len() == 0 {
                (address << 1) & 0xfe
            } else {
                data@.last()
            }),
            final(self).twbr == old(self).twbr && final(self).twsr == old(self).twsr && final(self).twar == old(self).twar,
    {
        proof {
            lemma_control_words();
            lemma_address_byte(address);
        }
        // Start condition.
        self.twcr = TWINT | TWSTA | TWEN;
        self.note_condition();
        if !self.twint_set() {
            self.twcr = TWINT | TWSTO | TWEN;
            self.note_condition();
            proof {
                lemma_release_shape(
                    old(self).bus@,
                    seq![I2cEvent::Start, I2cEvent::Stop],
                    self.bus@,
                );
            }
            return Err(HalError::Timeout);
        }
        // Address phase with write intent.
        self.twdr = (address << 1) & 0xfe;
        self.twcr = TWINT | TWEN;
        self.note_address();
        if !self.twint_set() {
            self.twcr = TWINT | TWSTO | TWEN;
            self.note_condition();
            proof {
                lemma_release_shape(
                    old(self).bus@,
                    seq![
                        I2cEvent::Start,
                        I2cEvent::Address { addr: address, read: false },
                        I2cEvent::Stop,
                    ],
                    self.bus@,
                );
            }
            return Err(HalError::Timeout);
        }
        // Data phases; the logged byte is the data register itself.
        let mut i: usize = 0;
        while i < data.len()
            invariant
                i <= data@.len(),
                self.twdr == (if i == 0 {
                    (address << 1) & 0xfe
                } else {
                    data@[i - 1]
                }),
                self.bus@ == old(self).bus@ + seq![
                    I2cEvent::Start,
                    I2cEvent::Address { addr: address, read: false },
                ] + Seq::new(i as nat, |j: int| I2cEvent::DataOut { byte: data@[j] }),
                self.twbr == old(self).twbr && self.twsr == old(self).twsr && self.twar == old(self).twar,
                self.rx@ == old(self).rx@,
            decreases data@.len() - i,
        {
            self.twdr = data[i];
            self.twcr = TWINT | TWEN;
            self.bus.push(I2cEvent::DataOut { byte: self.twdr });
            if !self.twint_set() {
                self.twcr = TWINT | TWSTO | TWEN;
                self.note_condition();
                proof {
                    lemma_release_shape(
                        old(self).bus@,
                        seq![
                            I2cEvent::Start,
                            I2cEvent::Address { addr: address, read: false },
                        ] + Seq::new(
                            (i + 1) as nat,
                            |j: int| I2cEvent::DataOut { byte: data@[j] },
                        ) + seq![I2cEvent::Stop],
                        self.bus@,
                    );
                }
                return Err(HalError::Timeout);
            }
            i = i + 1;
            proof {
                assert(self.bus@ =~= old(self).bus@ + seq![
                    I2cEvent::Start,
                    I2cEvent::Address { addr: address, read: false },
                ] + Seq::new(i as nat, |j: int| I2cEvent::DataOut { byte: data@[j] }));
            }
        }
        // Stop condition.
        self.twcr = TWINT | TWSTO | TWEN;
        self.note_condition();
        proof {
            lemma_write_transaction_shape(address, data@);
            assert(self.bus@ =~= old(self).bus@ + write_events(address, data@));
            lemma_release_shape(old(self).bus@, write_events(address, data@), self.bus@);
        }
        Ok(())
    }

    #[verifier::loop_isolation(false)]
    fn i2c_read(&mut self, address: u8, buffer: &mut Vec<u8>) -> (r: Result<u8, HalError>)
        ensures
            r is Ok ==> final(self).twcr == TWINT | TWSTO | TWEN,
            final(self).twbr == old(self).twbr && final(self).twsr == old(self).twsr && final(self).twar == old(self).twar,
    {
        proof {
            lemma_control_words();
            lemma_address_byte(address);
        }
        // Start condition.
        self.twcr = TWINT | TWSTA | TWEN;
        self.note_condition();
        if !self.twint_set() {
            self.twcr = TWINT | TWSTO | TWEN;
            self.note_condition();
            proof {
                lemma_release_shape(
                    old(self).bus@,
                    seq![I2cEvent::Start, I2cEvent::Stop],
                    self.bus@,
                );
            }
            return Err(HalError::Timeout);
        }
        // Address phase with read intent.
        self.twdr = (address << 1) | 1;
        self.twcr = TWINT | TWEN;
        self.note_address();
        if !self.twint_set() {
            self.twcr = TWINT | TWSTO | TWEN;
            self.note_condition();
            proof {
                lemma_release_shape(
                    old(self).bus@,
                    seq![
                        I2cEvent::Start,
                        I2cEvent::Address { addr: address, read: true },
                        I2cEvent::Stop,
                    ],
                    self.bus@,
                );
            }
            return Err(HalError::Timeout);
        }
        // Data phases: the logged acknowledge setting is the
        // acknowledge-enable bit of the written control word, set for every
        // byte but the last.
        let count = buffer.len();
        let mut taken: Vec<u8> = Vec::new();
        let mut last: u8 = 0;
        let mut i: usize = 0;
        while i < count
            invariant
                i <= count,
                count == old(buffer)@.len(),
                taken@.len() == i,
                forall|j: int|
                    0 <= j < i ==> taken@[j] == byte_from(
                        old(self).rx@,
                        read_intent_byte(address),
                        j,
                    ),
                self.rx@ == old(self).rx@.skip(
                    if i <= old(self).rx@.len() {
                        i as int
                    } else {
                        old(self).rx@.len() as int
                    },
                ),
                self.twdr == (if i == 0 {
                    read_intent_byte(address)
                } else {
                    byte_from(old(self).rx@, read_intent_byte(address), i - 1)
                }),
                last == (if i == 0 {
                    0u8
                } else {
                    byte_from(old(self).rx@, read_intent_byte(address), i - 1)
                }),
                self.bus@ == old(self).bus@ + seq![
                    I2cEvent::Start,
                    I2cEvent::Address { addr: address, read: true },
                ] + Seq::new(i as nat, |j: int| I2cEvent::DataIn { ack: j + 1 < count }),
                self.twbr == old(self).twbr && self.twsr == old(self).twsr && self.twar == old(self).twar,
            decreases count - i,
        {
            if i + 1 == count {
                self.twcr = TWINT | TWEN;  // leave the final byte unacknowledged
            } else {
                self.twcr = TWINT | TWEA | TWEN;  // acknowledge every earlier byte
            }
            let acked = (self.twcr >> 6) & 1 == 1;
            self.bus.push(I2cEvent::DataIn { ack: acked });
            if !self.twint_set() {
                self.twcr = TWINT | TWSTO | TWEN;
                self.note_condition();
                proof {
                    lemma_release_shape(
                        old(self).bus@,
                        seq![
                            I2cEvent::Start,
                            I2cEvent::Address { addr: address, read: true },
                        ] + Seq::new(
                            (i + 1) as nat,
                            |j: int| I2cEvent::DataIn { ack: j + 1 < count },
                        ) + seq![I2cEvent::Stop],
                        self.bus@,
                    );
                }
                return Err(HalError::Timeout);
            }
            let b = self.latch_rx();
            taken.push(b);
            last = b;
            i = i + 1;
            proof {
                assert(self.bus@ =~= old(self).bus@ + seq![
                    I2cEvent::Start,
                    I2cEvent::Address { addr: address, read: true },
                ] + Seq::new(i as nat, |j: int| I2cEvent::DataIn { ack: j + 1 < count }));
            }
        }
        // Stop condition.
        self.twcr = TWINT | TWSTO | TWEN;
        self.note_condition();
        *buffer = taken;
        proof {
            lemma_read_transaction_shape(address, count as nat);
            assert(self.bus@ =~= old(self).bus@ + read_events(address, count as nat));
            lemma_release_shape(old(self).bus@, read_events(address, count as nat), self.bus@);
        }
        Ok(last)
    }
}

} // verus!
