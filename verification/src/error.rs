//! The error kinds of the clock.
//!
//! The rendering functions hand these to their caller; the surrounding
//! program treats every one of them as fatal, because a clock showing a
//! wrong time is worse than a dark clock.

use vstd::prelude::*;

verus! {

/// Everything that can go wrong between a received time frame and a
/// finished LED frame.
#[derive(Clone, Copy, Debug, PartialEq, Eq, Structural)]
pub enum ClockError {
    /// The hour lies outside 1..=12.
    InvalidHour,
    /// The minute lies outside 0..=59.
    InvalidMinute,
    /// The inbound frame lacks the required two-byte payload, or does not
    /// carry a standard-form identifier.
    MalformedPayload,
    /// The bus has entered a state the program cannot recover from.
    TransportFatal,
}

} // verus!
