//! ATmega328P digital I/O backend: port B.
//!
//! Three 8-bit registers control the port: the data-direction register
//! (a set bit drives the pin), the output-data register and the input-data
//! register. The input register carries the externally applied level; a pin
//! configured as an output reads back the level it drives.

use vstd::prelude::*;

use crate::bits::{bit8, lemma_bit8_clear, lemma_bit8_set};
use crate::gpio::{configured, written, GpioView, PinMode, PinValue, GPIO};

verus! {

/// The port B register bank of the ATmega328P.
pub struct Atmega328p {
    /// Data-direction register: a set bit makes the pin an output.
    pub ddrb: u8,
    /// Output-data register: the level driven on output pins.
    pub portb: u8,
    /// Input-data register: the level an external source applies.
    pub pinb: u8,
}

impl Atmega328p {
    /// A power-on register bank: every pin an input, every level low.
    pub fn new() -> (r: Self)
        ensures
            r.ddrb == 0,
            r.portb == 0,
            r.pinb == 0,
    {
        Atmega328p { ddrb: 0, portb: 0, pinb: 0 }
    }
}

impl GPIO for Atmega328p {
    open spec fn gpio_state(&self) -> GpioView {
        GpioView {
            dir: Seq::new(8, |i: int| bit8(self.ddrb, i)),
            out: Seq::new(8, |i: int| bit8(self.portb, i)),
            ext: Seq::new(8, |i: int| bit8(self.pinb, i)),
        }
    }

    open spec fn pin_count() -> u8 {
        8
    }

    proof fn gpio_state_wf(&self) {
    }

    fn configure_pin(&mut self, pin: u8, mode: PinMode)
        ensures
            mode is Output ==> final(self).ddrb == old(self).ddrb | (1u8 << pin),
            mode is Input ==> final(self).ddrb == old(self).ddrb & !(1u8 << pin),
            final(self).portb == old(self).portb,
            final(self).pinb == old(self).pinb,
    {
        match mode {
            PinMode::Input => {
                self.ddrb = self.ddrb & !(1u8 << pin);
                proof {
                    lemma_bit8_clear(old(self).ddrb, pin, self.ddrb);
                }
            },
            PinMode::Output => {
                self.ddrb = self.ddrb | (1u8 << pin);
                proof {
                    lemma_bit8_set(old(self).ddrb, pin, self.ddrb);
                }
            },
        }
        proof {
            assert(self.gpio_state() =~= configured(old(self).gpio_state(), pin, mode));
        }
    }

    fn write_pin(&mut self, pin: u8, value: PinValue)
        ensures
            value is High ==> final(self).portb == old(self).portb | (1u8 << pin),
            value is Low ==> final(self).portb == old(self).portb & !(1u8 << pin),
            final(self).ddrb == old(self).ddrb,
            final(self).pinb == old(self).pinb,
    {
        match value {
            PinValue::High => {
                self.portb = self.portb | (1u8 << pin);
                proof {
                    lemma_bit8_set(old(self).portb, pin, self.portb);
                }
            },
            PinValue::Low => {
                self.portb = self.portb & !(1u8 << pin);
                proof {
                    lemma_bit8_clear(old(self).portb, pin, self.portb);
                }
            },
        }
        proof {
            assert(self.gpio_state() =~= written(old(self).gpio_state(), pin, value));
        }
    }

    fn read_pin(&self, pin: u8) -> (r: PinValue) {
        let driven = (self.ddrb >> pin) & 1 == 1;
        let sampled = if driven {
            (self.portb >> pin) & 1 == 1
        } else {
            (self.pinb >> pin) & 1 == 1
        };
        if sampled {
            PinValue::High
        } else {
            PinValue::Low
        }
    }
}

} // verus!
