//! Shared vocabulary of the protection elements: the evaluation result,
//! the trip state, and the capability contract each element implements.

use vstd::prelude::*;

verus! {

/// Result of one evaluation of a protection function.
#[derive(Debug, Clone, PartialEq, Eq, Structural)]
pub enum ProtectionResult {
    /// No trip condition detected.
    NoTrip,
    /// Trip condition detected; the payload is the remaining
    /// definite-time delay in milliseconds.
    TripPending(u64),
    /// Trip condition is active (the delay expired).
    Trip,
    /// The function is disabled.
    Disabled,
}

/// Trip state of a protection element.
#[derive(Debug, Clone, Copy, PartialEq, Eq, Structural)]
pub enum TripState {
    /// No overcurrent present.
    Idle,
    /// Overcurrent detected, the definite-time delay is running.
    Pickup,
    /// The delay expired; the trip is latched until an explicit reset.
    Trip,
}

/// Capability contract of a protective element.
///
/// `process` is the only state-mutating entry point besides `reset` and
/// `set_enabled`; implementations state their exact transition behaviour
/// as strengthened contracts on their own impl.
pub trait ProtectionFunction {
    /// Evaluate one measurement: RMS current in primary-side
    /// milliamperes, with the timestamp of the measurement in
    /// microseconds.
    fn process(&mut self, current: u64, timestamp: u64) -> ProtectionResult;

    /// Force the element back to its initial state, discarding any
    /// pending timer.
    fn reset(&mut self);

    /// Whether the element is enabled.
    fn is_enabled(&self) -> bool;

    /// Enable or disable the element; disabling also resets it.
    fn set_enabled(&mut self, enabled: bool);

    /// Identifier of the element, for logging and telemetry.
    fn name(&self) -> &'static str;
}

impl TripState {
    /// True exactly in the latched `Trip` state.
    pub fn is_tripped(&self) -> (r: bool)
        ensures
            r == (*self == TripState::Trip),
    {
        matches!(self, TripState::Trip)
    }

    /// True exactly in the `Pickup` state (a trip is pending).
    pub fn is_pickup(&self) -> (r: bool)
        ensures
            r == (*self == TripState::Pickup),
    {
        matches!(self, TripState::Pickup)
    }

    /// True exactly in the `Idle` state.
    pub fn is_idle(&self) -> (r: bool)
        ensures
            r == (*self == TripState::Idle),
    {
        matches!(self, TripState::Idle)
    }
}

} // verus!
