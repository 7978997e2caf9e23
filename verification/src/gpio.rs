//! Digital I/O: the architecture-independent pin interface.
//!
//! A backend models one port: a direction register, an output-data register
//! and an input-data register, abstracted here as three per-pin boolean
//! sequences. The observable level of a pin follows the output register while
//! the pin is configured as an output and the externally driven input sense
//! otherwise, which is how the silicon's input register reads back.

use vstd::prelude::*;

use crate::errors::HalError;

pub mod atmega328p;
pub mod cortex_m3;

verus! {

/// The direction of a pin.
#[derive(Clone, Copy, Debug, PartialEq, Eq, Structural)]
pub enum PinMode {
    Input,
    Output,
}

/// The logic level of a pin.
#[derive(Clone, Copy, Debug, PartialEq, Eq, Structural)]
pub enum PinValue {
    High,
    Low,
}

/// The abstract state of one port, one boolean per pin.
///
/// `dir[p]` means pin `p` drives its output; `out[p]` is the driven level;
/// `ext[p]` is the level an external source applies to the pin.
#[verifier::ext_equal]
pub struct GpioView {
    pub dir: Seq<bool>,
    pub out: Seq<bool>,
    pub ext: Seq<bool>,
}

/// The port state after the direction of `pin` is set to `mode`.
pub open spec fn configured(g: GpioView, pin: u8, mode: PinMode) -> GpioView {
    GpioView { dir: g.dir.update(pin as int, mode is Output), ..g }
}

/// The port state after the output bit of `pin` is set to `value`.
pub open spec fn written(g: GpioView, pin: u8, value: PinValue) -> GpioView {
    GpioView { out: g.out.update(pin as int, value is High), ..g }
}

/// The live level of `pin`: the driven level for an output, the external
/// sense for an input.
pub open spec fn level(g: GpioView, pin: u8) -> bool {
    if g.dir[pin as int] {
        g.out[pin as int]
    } else {
        g.ext[pin as int]
    }
}

/// The capability interface every digital I/O backend satisfies.
pub trait GPIO: Sized {
    /// The port state the backend's registers encode.
    spec fn gpio_state(&self) -> GpioView;

    /// How many pins the port offers.
    spec fn pin_count() -> u8;

    /// The three per-pin sequences all have one entry per pin.
    proof fn gpio_state_wf(&self)
        ensures
            self.gpio_state().dir.len() == Self::pin_count() as int,
            self.gpio_state().out.len() == Self::pin_count() as int,
            self.gpio_state().ext.len() == Self::pin_count() as int,
    ;

    /// Set the direction of one pin; no other bit of the port changes.
    fn configure_pin(&mut self, pin: u8, mode: PinMode)
        requires
            pin < Self::pin_count(),
        ensures
            final(self).gpio_state() == configured(old(self).gpio_state(), pin, mode),
    ;

    /// Set the output level of one pin; no other bit of the port changes.
    fn write_pin(&mut self, pin: u8, value: PinValue)
        requires
            pin < Self::pin_count(),
        ensures
            final(self).gpio_state() == written(old(self).gpio_state(), pin, value),
    ;

    /// Sample the live level of one pin.
    fn read_pin(&self, pin: u8) -> (r: PinValue)
        requires
            pin < Self::pin_count(),
        ensures
            r is High <==> level(self.gpio_state(), pin),
    ;
}

/// Configuring a pin as an output and driving it high makes its live level
/// read back high, whatever the port held before.
pub proof fn lemma_output_high_reads_back(g: GpioView, pin: u8)
    requires
        (pin as int) < g.dir.len(),
        (pin as int) < g.out.len(),
    ensures
        level(written(configured(g, pin, PinMode::Output), pin, PinValue::High), pin),
{
}

/// Set the direction of `pin` on the selected backend.
pub fn configure_pin<G: GPIO>(gpio: &mut G, pin: u8, mode: PinMode)
    requires
        pin < G::pin_count(),
    ensures
        final(gpio).gpio_state() == configured(old(gpio).gpio_state(), pin, mode),
{
    gpio.configure_pin(pin, mode);
}

/// Sample the live level of `pin` on the selected backend.
pub fn read_pin<G: GPIO>(gpio: &G, pin: u8) -> (r: PinValue)
    requires
        pin < G::pin_count(),
    ensures
        r is High <==> level(gpio.gpio_state(), pin),
{
    gpio.read_pin(pin)
}

/// Set the output level of `pin` on the selected backend.
pub fn write_pin<G: GPIO>(gpio: &mut G, pin: u8, value: PinValue)
    requires
        pin < G::pin_count(),
    ensures
        final(gpio).gpio_state() == written(old(gpio).gpio_state(), pin, value),
{
    gpio.write_pin(pin, value);
}

/// How many pin indices a [`GpioPin`] accepts.
pub const GPIO_PIN_LIMIT: u8 = 32;

/// A pin index already checked against the caller-facing pin range.
#[derive(Clone, Copy, Debug, PartialEq, Eq, Structural)]
pub struct GpioPin(u8);

impl GpioPin {
    /// The index this value was constructed from.
    pub closed spec fn index(self) -> u8 {
        self.0
    }

    #[verifier::type_invariant]
    spec fn in_range(self) -> bool {
        self.0 < GPIO_PIN_LIMIT
    }

    /// Accept a pin index below [`GPIO_PIN_LIMIT`]; reject any other with a
    /// range error.
    pub fn new(pin: u8) -> (r: Result<Self, HalError>)
        ensures
            pin < GPIO_PIN_LIMIT <==> (r is Ok),
            r matches Ok(p) ==> p.index() == pin,
            r matches Err(e) ==> e == HalError::PinOutOfRange,
    {
        if pin < GPIO_PIN_LIMIT {
            Ok(Self(pin))
        } else {
            Err(HalError::PinOutOfRange)
        }
    }

    /// The checked pin index, always below [`GPIO_PIN_LIMIT`].
    pub fn number(&self) -> (r: u8)
        ensures
            r == self.index(),
            r < GPIO_PIN_LIMIT,
    {
        proof {
            use_type_invariant(self);
        }
        self.0
    }
}

} // verus!
