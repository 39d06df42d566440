//! Prescaler computation for the trace output baud rate.

use vstd::prelude::*;

verus! {

/// Failure of the baud-rate configuration.
#[derive(Clone, Copy, Debug, PartialEq, Eq, Structural)]
pub enum Error {
    /// The desired baud rate cannot be derived from the reference clock by an
    /// integer prescaler: it is either above the clock or not an exact
    /// divisor of it.
    ImpossibleBaudRate,
}

/// The desired rate can be produced exactly: it does not exceed the reference
/// clock and divides it without remainder.
pub open spec fn achievable(reference_clock_hz: u32, target_baud: u32) -> bool {
    target_baud <= reference_clock_hz && reference_clock_hz % target_baud == 0
}

/// Computes the prescaler that the trace output unit must be programmed with
/// so that a reference clock of `reference_clock_hz` yields an output rate of
/// exactly `target_baud`.
///
/// Fails with [`Error::ImpossibleBaudRate`] when the target rate is above the
/// reference clock or does not divide it exactly; an unachievable rate is
/// surfaced, never rounded. On success the result is
/// `reference_clock_hz / target_baud - 1`.
pub fn compute_prescaler(reference_clock_hz: u32, target_baud: u32) -> (result: Result<
    u32,
    Error,
>)
    requires
        target_baud > 0,
    ensures
        result is Ok <==> achievable(reference_clock_hz, target_baud),
        result matches Ok(p) ==> p == reference_clock_hz / target_baud - 1,
        result matches Err(e) ==> e == Error::ImpossibleBaudRate,
{
    if target_baud > reference_clock_hz || reference_clock_hz % target_baud != 0 {
        Err(Error::ImpossibleBaudRate)
    } else {
        assert(reference_clock_hz / target_baud >= 1) by (nonlinear_arith)
            requires
                0 < target_baud <= reference_clock_hz,
        ;
        Ok(reference_clock_hz / target_baud - 1)
    }
}

} // verus!
