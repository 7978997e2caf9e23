//! The error taxonomy of the layer.
//!
//! Configuration errors (a clock or baud request whose register divisor falls
//! outside the target register's limits), caller-contract violations (an
//! out-of-range pin index) and protocol stalls (a status flag that the bus
//! never raises) are all surfaced as typed, recoverable values instead of
//! aborting or hanging.

use vstd::prelude::*;

verus! {

/// Every failure a peripheral operation can report.
#[derive(Clone, Copy, Debug, PartialEq, Eq, Structural)]
pub enum HalError {
    /// A pin index beyond the chip's pin count.
    PinOutOfRange,
    /// A baud rate of zero, or one whose divisor does not fit the
    /// baud-rate register.
    InvalidBaudRate,
    /// A bus clock request whose bit-rate divisor falls below the chip's
    /// minimum threshold.
    BitRateTooLow,
    /// A bus clock request whose bit-rate divisor does not fit the bit-rate
    /// register.
    BitRateTooHigh,
    /// A peripheral clock frequency above the chip's maximum.
    ClockTooHigh,
    /// A status flag the bus never raised; the operation may be retried.
    Timeout,
}

} // verus!
