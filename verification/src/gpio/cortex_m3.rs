//! Cortex-M3 digital I/O backend: port A.
//!
//! The mode register gives each pin a two-bit field (`00` input, `01`
//! general-purpose output); the output-data and input-data registers hold one
//! bit per pin. The input register carries the externally applied level; a
//! pin configured as an output reads back the level it drives.

use vstd::prelude::*;

use crate::bits::{bit32, field2, lemma_bit32_clear, lemma_bit32_set, lemma_field2_write};
use crate::gpio::{configured, written, GpioView, PinMode, PinValue, GPIO};

verus! {

/// The port A register bank of the Cortex-M3 target.
pub struct CortexM3 {
    /// Mode register: two bits per pin, `01` configures an output.
    pub moder: u32,
    /// Output-data register: the level driven on output pins.
    pub odr: u32,
    /// Input-data register: the level an external source applies.
    pub idr: u32,
}

impl CortexM3 {
    /// A power-on register bank: every pin an input, every level low.
    pub fn new() -> (r: Self)
        ensures
            r.moder == 0,
            r.odr == 0,
            r.idr == 0,
    {
        CortexM3 { moder: 0, odr: 0, idr: 0 }
    }
}

impl GPIO for CortexM3 {
    open spec fn gpio_state(&self) -> GpioView {
        GpioView {
            dir: Seq::new(16, |i: int| field2(self.moder, i) == 1),
            out: Seq::new(16, |i: int| bit32(self.odr, i)),
            ext: Seq::new(16, |i: int| bit32(self.idr, i)),
        }
    }

    open spec fn pin_count() -> u8 {
        16
    }

    proof fn gpio_state_wf(&self) {
    }

    fn configure_pin(&mut self, pin: u8, mode: PinMode)
        ensures
            mode is Output ==> final(self).moder == (old(self).moder & !(3u32 << (2 * pin))) | (
            1u32 << (2 * pin)),
            mode is Input ==> final(self).moder == old(self).moder & !(3u32 << (2 * pin)),
            final(self).odr == old(self).odr,
            final(self).idr == old(self).idr,
    {
        let shift = 2 * pin;
        match mode {
            PinMode::Input => {
                self.moder = self.moder & !(3u32 << shift);
                proof {
                    let m = old(self).moder;
                    assert(m & !(3u32 << (2 * pin)) == (m & !(3u32 << (2 * pin))) | (0u32 << (2
                        * pin))) by (bit_vector)
                        requires
                            pin < 16,
                    ;
                    lemma_field2_write(old(self).moder, pin, 0, self.moder);
                }
            },
            PinMode::Output => {
                self.moder = (self.moder & !(3u32 << shift)) | (1u32 << shift);
                proof {
                    lemma_field2_write(old(self).moder, pin, 1, self.moder);
                }
            },
        }
        proof {
            assert(self.gpio_state() =~= configured(old(self).gpio_state(), pin, mode));
        }
    }

    fn write_pin(&mut self, pin: u8, value: PinValue)
        ensures
            value is High ==> final(self).odr == old(self).odr | (1u32 << pin),
            value is Low ==> final(self).odr == old(self).odr & !(1u32 << pin),
            final(self).moder == old(self).moder,
            final(self).idr == old(self).idr,
    {
        match value {
            PinValue::High => {
                self.odr = self.odr | (1u32 << pin);
                proof {
                    lemma_bit32_set(old(self).odr, pin, self.odr);
                }
            },
            PinValue::Low => {
                self.odr = self.odr & !(1u32 << pin);
                proof {
                    lemma_bit32_clear(old(self).odr, pin, self.odr);
                }
            },
        }
        proof {
            assert(self.gpio_state() =~= written(old(self).gpio_state(), pin, value));
        }
    }

    fn read_pin(&self, pin: u8) -> (r: PinValue) {
        let driven = (self.moder >> (2 * pin)) & 3 == 1;
        let sampled = if driven {
            (self.odr >> pin) & 1 == 1
        } else {
            (self.idr >> pin) & 1 == 1
        };
        if sampled {
            PinValue::High
        } else {
            PinValue::Low
        }
    }
}

} // verus!
