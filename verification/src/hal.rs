//! Pin and delay capabilities the driver is built over.
//!
//! The sensor needs three pin roles — a plain output (clock and chip
//! select), a plain input (the optional motion-pending line), and a
//! bidirectional data line that is switched between output and input at
//! runtime — plus a calibrated delay source. Implementations are supplied
//! per platform by the embedding program; the protocol logic never touches
//! hardware directly.

use vstd::prelude::*;

verus! {

/// A plain digital output pin: drive high or drive low.
pub trait OutputPin {
    /// Drive the pin high.
    fn set_high(&mut self);

    /// Drive the pin low.
    fn set_low(&mut self);
}

/// A plain digital input pin, used for the motion-pending line (active low).
///
/// An implementation over a fallible pin should fold read errors into
/// `true` (pending), so that a broken line degrades to polling every tick
/// rather than to silence.
pub trait InputPin {
    /// Read whether the pin is low.
    fn is_low(&mut self) -> bool;
}

/// Trait for a bidirectional GPIO pin (required for the sensor's SDIO line).
///
/// The PMW3610 uses a single bidirectional data line for SPI communication.
/// This trait abstracts over HAL-specific implementations.
pub trait BidirectionalPin {
    /// Set the pin as output mode.
    fn set_as_output(&mut self);

    /// Set the pin as input mode.
    fn set_as_input(&mut self);

    /// Set the pin high (only valid in output mode).
    fn set_high(&mut self);

    /// Set the pin low (only valid in output mode).
    fn set_low(&mut self);

    /// Read the pin state (only valid in input mode).
    fn is_high(&self) -> bool;

    /// Read the pin state (only valid in input mode).
    fn is_low(&self) -> bool {
        !self.is_high()
    }
}

/// A two-tier calibrated busy-wait plus microsecond- and millisecond-scale
/// waits. The sensor's timing diagram mandates every one of these pauses;
/// implementations must not undershoot them.
pub trait DelayProvider {
    /// Short busy-wait used between bit transitions on the wire.
    fn spi_delay(&mut self);

    /// Slightly longer busy-wait used at transaction edges.
    fn short_delay(&mut self);

    /// Wait at least `us` microseconds.
    fn delay_us(&mut self, us: u32);

    /// Wait at least `ms` milliseconds.
    fn delay_ms(&mut self, ms: u32);
}

} // verus!
