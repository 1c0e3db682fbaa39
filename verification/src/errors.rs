//! Error taxonomy of the pendant core.

use vstd::prelude::*;

verus! {

/// A request to the scheduler could not be honoured.
#[derive(Clone, Copy, Debug, PartialEq, Eq, Structural)]
pub enum SchedulingError {
    /// The requested instant lies strictly in the past: a missed deadline.
    Elapsed,
}

/// A hardware-side failure reported by an external collaborator.
#[derive(Clone, Copy, Debug, PartialEq, Eq, Structural)]
pub enum HardwareError {
    /// A display/bus transaction failed; the current cycle is skipped and
    /// retried on the next scheduled period.
    TransientBusFailure,
}

/// A defensive-only signal for states that the resolution rules still define.
#[derive(Clone, Copy, Debug, PartialEq, Eq, Structural)]
pub enum LogicError {
    /// More than one mutually-exclusive selector pin is asserted at once:
    /// a possible wiring fault. Resolution itself uses the fixed
    /// earliest-in-order tie-break rather than failing.
    AmbiguousSelection,
}

} // verus!
