//! Cortex-M3 two-wire backend.
//!
//! The peripheral clock field of control register 2 takes the requested
//! speed in MHz, capped at 36; control register 1 carries the enable, start,
//! stop and acknowledge bits. Each phase is gated on a flag of status
//! register 1 — start bit, address sent, transmit empty, receive not empty —
//! which only the harness sets: a cleared flag surfaces as a timeout, and
//! even then the transaction is closed by a stop condition.

use vstd::prelude::*;

use crate::errors::HalError;
use crate::i2c::{byte_from, read_events, read_intent_byte, write_events, I2cEvent, I2cView, I2C};
use crate::i2c::{lemma_read_transaction_shape, lemma_release_shape, lemma_write_transaction_shape};

verus! {

/// Peripheral-enable bit of control register 1 (bit 0).
pub const I2C_PE: u32 = 0x001;

/// Start-generation bit of control register 1 (bit 8).
pub const I2C_START: u32 = 0x100;

/// Stop-generation bit of control register 1 (bit 9).
pub const I2C_STOP: u32 = 0x200;

/// Acknowledge-enable bit of control register 1 (bit 10).
pub const I2C_ACK: u32 = 0x400;

/// Start-bit flag of status register 1 (bit 0).
pub const I2C_SB: u32 = 0x01;

/// Address-sent flag of status register 1 (bit 1).
pub const I2C_ADDR: u32 = 0x02;

/// Receive-not-empty flag of status register 1 (bit 6).
pub const I2C_RXNE: u32 = 0x40;

/// Transmit-empty flag of status register 1 (bit 7).
pub const I2C_TXE: u32 = 0x80;

/// The I2C register bank of the Cortex-M3 target, with the simulated bus
/// beside it: the queue of bytes the slave will transmit and the log of
/// asserted phases.
pub struct CortexM3 {
    /// Control register 1: enable, start, stop, acknowledge bits.
    pub cr1: u32,
    /// Control register 2: the peripheral clock frequency in MHz.
    pub cr2: u32,
    /// Data register; the low byte carries the data.
    pub dr: u32,
    /// Status register 1: the phase-completion flags.
    pub sr1: u32,
    /// Status register 2, read to clear the address-sent flag.
    pub sr2: u32,
    /// The bytes the simulated slave will transmit, in order.
    pub rx: Vec<u8>,
    /// Every phase asserted on the simulated bus.
    pub bus: Vec<I2cEvent>,
}

impl CortexM3 {
    /// A power-on register bank beside an idle simulated bus.
    pub fn new() -> (r: Self)
        ensures
            r.cr1 == 0 && r.cr2 == 0 && r.dr == 0 && r.sr1 == 0 && r.sr2 == 0,
            r.rx@ == Seq::<u8>::empty(),
            r.bus@ == Seq::<I2cEvent>::empty(),
    {
        CortexM3 { cr1: 0, cr2: 0, dr: 0, sr1: 0, sr2: 0, rx: Vec::new(), bus: Vec::new() }
    }

    /// The simulated slave drives the next queued byte onto the data
    /// register; with the queue drained the register keeps its value.
    fn latch_rx(&mut self) -> (b: u8)
        ensures
            old(self).rx@.len() > 0 ==> final(self).dr == old(self).rx@[0] as u32 && final(self).rx@ == old(self).rx@.skip(1),
            old(self).rx@.len() == 0 ==> final(self).dr == old(self).dr && final(self).rx@ == old(self).rx@,
            b == ((final(self).dr & 0xff) as u8),
            final(self).cr1 == old(self).cr1 && final(self).cr2 == old(self).cr2 && final(self).sr1 == old(self).sr1 && final(self).sr2 == old(self).sr2,
            final(self).bus@ == old(self).bus@,
    {
        if self.rx.len() > 0 {
            let v = self.rx.remove(0);
            self.dr = v as u32;
            proof {
                assert(self.rx@ =~= old(self).rx@.skip(1));
            }
        }
        proof {
            crate::bits::lemma_low_byte_bound(self.dr);
        }
        (self.dr & 0xff) as u8
    }
}

/// Clearing the acknowledge bit leaves the enable bit alone.
proof fn lemma_ack_clear_keeps_pe(x: u32, y: u32)
    requires
        y == x & !I2C_ACK,
    ensures
        (y & I2C_PE != 0) == (x & I2C_PE != 0),
{
    assert((x & !0x400u32) & 1 == x & 1) by (bit_vector);
}

/// Or-ing a control word that misses the low bit keeps the enable bit as it
/// is; or-ing one never clears it.
proof fn lemma_pe_preserved(x: u32, m: u32, y: u32)
    requires
        y == x | m,
    ensures
        (y & I2C_PE != 0) == ((x & I2C_PE != 0) || (m & I2C_PE != 0)),
{
    assert((y & 1 != 0) == ((x & 1 != 0) || (m & 1 != 0))) by (bit_vector)
        requires
            y == x | m,
    ;
}

/// The acknowledge-bit writes, spelled out: or-ing the bit sets it and is
/// idempotent; masking it out clears it whatever was set before.
proof fn lemma_ack_words(x: u32)
    ensures
        ((x | I2C_ACK) >> 10) & 1 == 1,
        ((x & !I2C_ACK) >> 10) & 1 == 0,
        (x | I2C_ACK) | I2C_ACK == x | I2C_ACK,
        (x | I2C_ACK) & !I2C_ACK == x & !I2C_ACK,
{
    assert(((x | 0x400u32) >> 10) & 1 == 1 && ((x & !0x400u32) >> 10) & 1 == 0 && (x | 0x400u32)
        | 0x400 == x | 0x400 && (x | 0x400u32) & !0x400 == x & !0x400) by (bit_vector);
}

/// The wire byte of the address phase decodes back into the 7-bit address
/// and the transfer intent.
proof fn lemma_address_word(address: u8)
    requires
        address < 128,
    ensures
        ((((address as u32) << 1) >> 1) & 0x7f) as u8 == address,
        ((address as u32) << 1) & 1 == 0,
        (((((address as u32) << 1) | 1) >> 1) & 0x7f) as u8 == address,
        (((address as u32) << 1) | 1) & 1 == 1,
{
    assert(((((address as u32) << 1) >> 1) & 0x7f) == address as u32 && ((address as u32) << 1) & 1
        == 0 && (((((address as u32) << 1) | 1) >> 1) & 0x7f) == address as u32 && (((
    address as u32) << 1) | 1) & 1 == 1) by (bit_vector)
        requires
            address < 128,
    ;
}

impl I2C for CortexM3 {
    open spec fn i2c_state(&self) -> I2cView {
        I2cView {
            enabled: self.cr1 & I2C_PE != 0,
            rate: self.cr2 & 0x3f,
            bus: self.bus@,
            rx: self.rx@,
            data: (self.dr & 0xff) as u8,
        }
    }

    open spec fn clock_ok(clock_speed: u32) -> bool {
        clock_speed as int / 1_000_000 <= 36
    }

    open spec fn rate_for(clock_speed: u32) -> u32 {
        (clock_speed as int / 1_000_000) as u32
    }

    open spec fn config_fault(clock_speed: u32) -> HalError {
        HalError::ClockTooHigh
    }

    open spec fn bus_ready(&self) -> bool {
        self.sr1 & I2C_SB != 0 && self.sr1 & I2C_ADDR != 0
    }

    open spec fn tx_ready(&self) -> bool {
        self.sr1 & I2C_TXE != 0
    }

    open spec fn rx_ready(&self) -> bool {
        self.sr1 & I2C_RXNE != 0
    }

    fn i2c_init(&mut self, clock_speed: u32) -> (r: Result<(), HalError>)
        ensures
            r is Ok ==> final(self).cr2 == Self::rate_for(clock_speed) && final(self).cr1 == (old(self).cr1 | I2C_PE) && final(self).dr == old(self).dr && final(self).sr1 == old(self).sr1
                && final(self).sr2 == old(self).sr2,
            r is Err ==> *final(self) == *old(self),
    {
        let freq = clock_speed / 1_000_000;
        if freq > 36 {
            return Err(HalError::ClockTooHigh);
        }
        self.cr2 = freq & 0x3f;
        self.cr1 = self.cr1 | I2C_PE;
        proof {
            lemma_pe_preserved(old(self).cr1, I2C_PE, self.cr1);
            assert(freq & 0x3f == freq && (freq & 0x3f) & 0x3f == freq) by (bit_vector)
                requires
                    freq <= 36,
            ;
            assert(I2C_PE & I2C_PE != 0) by (bit_vector);
        }
        Ok(())
    }

    #[verifier::loop_isolation(false)]
    fn i2c_write(&mut self, address: u8, data: &[u8]) -> (r: Result<(), HalError>)
        ensures
            final(self).cr1 == (old(self).cr1 | I2C_START) | I2C_STOP,
            r is Ok ==> final(self).dr == (if data@.len() == 0 {
                (address as u32) << 1
            } else {
                data@.last() as u32
            }),
            final(self).cr2 == old(self).cr2 && final(self).sr1 == old(self).sr1 && final(self).sr2 == old(self).sr2,
            old(self).sr1 & I2C_SB == 0 ==> final(self).bus@ == old(self).bus@ + seq![
                I2cEvent::Start,
                I2cEvent::Stop,
            ],
            old(self).sr1 & I2C_SB != 0 && old(self).sr1 & I2C_ADDR == 0 ==> final(self).bus@
                == old(self).bus@ + seq![
                I2cEvent::Start,
                I2cEvent::Address { addr: address, read: false },
                I2cEvent::Stop,
            ],
    {
        // Start condition.
        self.cr1 = self.cr1 | I2C_START;
        self.bus.push(I2cEvent::Start);
        proof {
            lemma_pe_preserved(old(self).cr1, I2C_START, self.cr1);
            lemma_address_word(address);
            assert(I2C_START & I2C_PE == 0 && I2C_STOP & I2C_PE == 0) by (bit_vector);
        }
        if self.sr1 & I2C_SB == 0 {
            self.cr1 = self.cr1 | I2C_STOP;
            self.bus.push(I2cEvent::Stop);
            proof {
                lemma_pe_preserved(old(self).cr1 | I2C_START, I2C_STOP, self.cr1);
                lemma_release_shape(
                    old(self).bus@,
                    seq![I2cEvent::Start, I2cEvent::Stop],
                    self.bus@,
                );
            }
            return Err(HalError::Timeout);
        }
        // Address phase with write intent; the logged byte is read back off
        // the data register.
        self.dr = (address as u32) << 1;
        self.bus.push(
            I2cEvent::Address { addr: ((self.dr >> 1) & 0x7f) as u8, read: self.dr & 1 == 1 },
        );
        if self.sr1 & I2C_ADDR == 0 {
            self.cr1 = self.cr1 | I2C_STOP;
            self.bus.push(I2cEvent::Stop);
            proof {
                lemma_pe_preserved(old(self).cr1 | I2C_START, I2C_STOP, self.cr1);
                lemma_release_shape(
                    old(self).bus@,
                    seq![
                        I2cEvent::Start,
                        I2cEvent::Address { addr: address, read: false },
                        I2cEvent::Stop,
                    ],
                    self.bus@,
                );
            }
            return Err(HalError::Timeout);
        }
        let _ = self.sr2;  // reading status register 2 clears the address flag on silicon
        // Data phases.
        let mut i: usize = 0;
        while i < data.len()
            invariant
                i <= data@.len(),
                address < 128,
                self.cr1 == old(self).cr1 | I2C_START,
                self.dr == (if i == 0 {
                    (address as u32) << 1
                } else {
                    data@[i - 1] as u32
                }),
                self.sr1 == old(self).sr1,
                old(self).sr1 & I2C_SB != 0 && old(self).sr1 & I2C_ADDR != 0,
                i > 0 ==> old(self).sr1 & I2C_TXE != 0,
                self.bus@ == old(self).bus@ + seq![
                    I2cEvent::Start,
                    I2cEvent::Address { addr: address, read: false },
                ] + Seq::new(i as nat, |j: int| I2cEvent::DataOut { byte: data@[j] }),
                self.cr2 == old(self).cr2 && self.sr2 == old(self).sr2,
                self.rx@ == old(self).rx@,
            decreases data@.len() - i,
        {
            self.dr = data[i] as u32;
            self.bus.push(I2cEvent::DataOut { byte: (self.dr & 0xff) as u8 });
            proof {
                crate::bits::lemma_u8_in_u32(data@[i as int]);
            }
            if (self.sr1 & I2C_TXE) == 0 {
                self.cr1 = self.cr1 | I2C_STOP;
                self.bus.push(I2cEvent::Stop);
                proof {
                    lemma_pe_preserved(old(self).cr1 | I2C_START, I2C_STOP, self.cr1);
                    lemma_release_shape(
                        old(self).bus@,
                        seq![
                            I2cEvent::Start,
                            I2cEvent::Address { addr: address, read: false },
                        ] + Seq::new(
                            (i + 1) as nat,
                            |j: int| I2cEvent::DataOut { byte: data@[j] },
                        ) + seq![I2cEvent::Stop],
                        self.bus@,
                    );
                    assert(i == 0);
                }
                return Err(HalError::Timeout);
            }
            i = i + 1;
            proof {
                assert(self.bus@ =~= old(self).bus@ + seq![
                    I2cEvent::Start,
                    I2cEvent::Address { addr: address, read: false },
                ] + Seq::new(i as nat, |j: int| I2cEvent::DataOut { byte: data@[j] }));
            }
        }
        // Stop condition.
        self.cr1 = self.cr1 | I2C_STOP;
        self.bus.push(I2cEvent::Stop);
        proof {
            lemma_pe_preserved(old(self).cr1 | I2C_START, I2C_STOP, self.cr1);
            lemma_write_transaction_shape(address, data@);
            assert(self.bus@ =~= old(self).bus@ + write_events(address, data@));
            lemma_release_shape(old(self).bus@, write_events(address, data@), self.bus@);
        }
        Ok(())
    }

    #[verifier::loop_isolation(false)]
    fn i2c_read(&mut self, address: u8, buffer: &mut Vec<u8>) -> (r: Result<u8, HalError>)
        ensures
            final(self).cr2 == old(self).cr2 && final(self).sr1 == old(self).sr1 && final(self).sr2 == old(self).sr2,
            r is Ok && old(buffer)@.len() == 0 ==> final(self).cr1 == (old(self).cr1 | I2C_START)
                | I2C_STOP,
            r is Ok && old(buffer)@.len() > 0 ==> final(self).cr1 == ((old(self).cr1 | I2C_START)
                & !I2C_ACK) | I2C_STOP,
            old(self).sr1 & I2C_SB == 0 ==> final(self).bus@ == old(self).bus@ + seq![
                I2cEvent::Start,
                I2cEvent::Stop,
            ],
            old(self).sr1 & I2C_SB != 0 && old(self).sr1 & I2C_ADDR == 0 ==> final(self).bus@
                == old(self).bus@ + seq![
                I2cEvent::Start,
                I2cEvent::Address { addr: address, read: true },
                I2cEvent::Stop,
            ],
    {
        // Start condition.
        self.cr1 = self.cr1 | I2C_START;
        self.bus.push(I2cEvent::Start);
        proof {
            lemma_pe_preserved(old(self).cr1, I2C_START, self.cr1);
            lemma_address_word(address);
            assert(I2C_START & I2C_PE == 0 && I2C_STOP & I2C_PE == 0 && I2C_ACK & I2C_PE == 0)
                by (bit_vector);
        }
        if self.sr1 & I2C_SB == 0 {
            self.cr1 = self.cr1 | I2C_STOP;
            self.bus.push(I2cEvent::Stop);
            proof {
                lemma_pe_preserved(old(self).cr1 | I2C_START, I2C_STOP, self.cr1);
                lemma_release_shape(
                    old(self).bus@,
                    seq![I2cEvent::Start, I2cEvent::Stop],
                    self.bus@,
                );
            }
            return Err(HalError::Timeout);
        }
        // Address phase with read intent; the logged byte is read back off
        // the data register.
        self.dr = ((address as u32) << 1) | 1;
        self.bus.push(
            I2cEvent::Address { addr: ((self.dr >> 1) & 0x7f) as u8, read: self.dr & 1 == 1 },
        );
        if self.sr1 & I2C_ADDR == 0 {
            self.cr1 = self.cr1 | I2C_STOP;
            self.bus.push(I2cEvent::Stop);
            proof {
                lemma_pe_preserved(old(self).cr1 | I2C_START, I2C_STOP, self.cr1);
                lemma_release_shape(
                    old(self).bus@,
                    seq![
                        I2cEvent::Start,
                        I2cEvent::Address { addr: address, read: true },
                        I2cEvent::Stop,
                    ],
                    self.bus@,
                );
            }
            return Err(HalError::Timeout);
        }
        let _ = self.sr2;  // reading status register 2 clears the address flag on silicon
        proof {
            assert((((address as u32) << 1) | 1) & 0xff == ((address << 1) | 1) as u32)
                by (bit_vector)
                requires
                    address < 128,
            ;
            crate::bits::lemma_u8_in_u32((address << 1) | 1);
        }
        // Data phases: acknowledge every byte but the last.
        let count = buffer.len();
        let mut taken: Vec<u8> = Vec::new();
        let mut last: u8 = 0;
        let mut i: usize = 0;
        while i < count
            invariant
                i <= count,
                count == old(buffer)@.len(),
                address < 128,
                taken@.len() == i,
                forall|j: int|
                    0 <= j < i ==> taken@[j] == byte_from(
                        old(self).rx@,
                        read_intent_byte(address),
                        j,
                    ),
                self.rx@ == old(self).rx@.skip(
                    if i <= old(self).rx@.len() {
                        i as int
                    } else {
                        old(self).rx@.len() as int
                    },
                ),
                ((self.dr & 0xff) as u8) == (if i == 0 {
                    read_intent_byte(address)
                } else {
                    byte_from(old(self).rx@, read_intent_byte(address), i - 1)
                }),
                last == (if i == 0 {
                    0u8
                } else {
                    byte_from(old(self).rx@, read_intent_byte(address), i - 1)
                }),
                self.sr1 == old(self).sr1,
                old(self).sr1 & I2C_SB != 0 && old(self).sr1 & I2C_ADDR != 0,
                i > 0 ==> old(self).sr1 & I2C_RXNE != 0,
                self.bus@ == old(self).bus@ + seq![
                    I2cEvent::Start,
                    I2cEvent::Address { addr: address, read: true },
                ] + Seq::new(i as nat, |j: int| I2cEvent::DataIn { ack: j + 1 < count }),
                self.cr2 == old(self).cr2 && self.sr2 == old(self).sr2,
                self.cr1 == (if i == 0 {
                    old(self).cr1 | I2C_START
                } else if i < count {
                    (old(self).cr1 | I2C_START) | I2C_ACK
                } else {
                    (old(self).cr1 | I2C_START) & !I2C_ACK
                }),
            decreases count - i,
        {
            let ghost before_ack: u32 = self.cr1;
            if i + 1 == count {
                self.cr1 = self.cr1 & !I2C_ACK;  // leave the final byte unacknowledged
                proof {
                    lemma_ack_clear_keeps_pe(before_ack, self.cr1);
                    lemma_ack_words(old(self).cr1 | I2C_START);
                }
            } else {
                self.cr1 = self.cr1 | I2C_ACK;  // acknowledge every earlier byte
                proof {
                    lemma_pe_preserved(before_ack, I2C_ACK, self.cr1);
                    lemma_ack_words(old(self).cr1 | I2C_START);
                }
            }
            // The logged acknowledge setting is the acknowledge-enable bit
            // of the control register itself.
            let acked = (self.cr1 >> 10) & 1 == 1;
            self.bus.push(I2cEvent::DataIn { ack: acked });
            if (self.sr1 & I2C_RXNE) == 0 {
                let ghost before_stop: u32 = self.cr1;
                self.cr1 = self.cr1 | I2C_STOP;
                self.bus.push(I2cEvent::Stop);
                proof {
                    lemma_pe_preserved(before_stop, I2C_STOP, self.cr1);
                    assert(old(self).rx@.skip(0) =~= old(self).rx@);
                    lemma_release_shape(
                        old(self).bus@,
                        seq![
                            I2cEvent::Start,
                            I2cEvent::Address { addr: address, read: true },
                        ] + Seq::new(
                            (i + 1) as nat,
                            |j: int| I2cEvent::DataIn { ack: j + 1 < count },
                        ) + seq![I2cEvent::Stop],
                        self.bus@,
                    );
                    assert(i == 0);
                }
                return Err(HalError::Timeout);
            }
            let b = self.latch_rx();
            taken.push(b);
            last = b;
            i = i + 1;
            proof {
                assert(self.bus@ =~= old(self).bus@ + seq![
                    I2cEvent::Start,
                    I2cEvent::Address { addr: address, read: true },
                ] + Seq::new(i as nat, |j: int| I2cEvent::DataIn { ack: j + 1 < count }));
                if old(self).rx@.len() > 0 && i - 1 < old(self).rx@.len() {
                    crate::bits::lemma_u8_in_u32(old(self).rx@[i - 1]);
                }
            }
        }
        // Stop condition.
        let ghost before_stop: u32 = self.cr1;
        self.cr1 = self.cr1 | I2C_STOP;
        self.bus.push(I2cEvent::Stop);
        *buffer = taken;
        proof {
            lemma_pe_preserved(before_stop, I2C_STOP, self.cr1);
            if count > 0 {
                lemma_ack_clear_keeps_pe(old(self).cr1 | I2C_START, before_stop);
            }
            lemma_read_transaction_shape(address, count as nat);
            assert(self.bus@ =~= old(self).bus@ + read_events(address, count as nat));
            lemma_release_shape(old(self).bus@, read_events(address, count as nat), self.bus@);
        }
        Ok(last)
    }
}

} // verus!
