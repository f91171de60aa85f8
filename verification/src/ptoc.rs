//! PTOC: the definite-time overcurrent element.
//!
//! A three-state machine consumes (current, timestamp) pairs: `Idle`
//! until the current exceeds the pickup threshold, `Pickup` while the
//! definite-time delay runs, and a latched `Trip` once it expires. The
//! whole transition table is captured by [`Ptoc::step`], and `process`
//! is proved to follow it exactly.

use vstd::prelude::*;

use crate::config::PtocConfig;
use crate::protection::{ProtectionFunction, ProtectionResult, TripState};

verus! {

/// The definite-time overcurrent protection element.
pub struct Ptoc {
    /// Pickup and delay settings.
    pub config: PtocConfig,
    /// Current position in the three-state machine.
    pub state: TripState,
    /// Timestamp (microseconds) at which the running pickup began.
    pub pickup_time: Option<u64>,
}

/// Milliseconds elapsed from `pickup` to `now` (both in microseconds),
/// clamped to zero when `now` precedes `pickup`: a non-monotonic
/// timestamp yields no elapsed time rather than an underflow.
pub open spec fn elapsed_ms(pickup: u64, now: u64) -> int {
    if now >= pickup {
        (now - pickup) / 1000
    } else {
        0
    }
}

impl Ptoc {
    /// The pickup timer is recorded exactly while the element waits in
    /// `Pickup`, and never lingers in `Idle`.
    pub open spec fn wf(&self) -> bool {
        &&& (self.state == TripState::Idle ==> self.pickup_time is None)
        &&& (self.state == TripState::Pickup ==> self.pickup_time is Some)
    }

    /// The transition table: next state and result of one evaluation.
    pub open spec fn step(pre: Ptoc, current: u64, timestamp: u64) -> (Ptoc, ProtectionResult) {
        if !pre.config.enabled {
            (pre, ProtectionResult::Disabled)
        } else if pre.state == TripState::Idle {
            if current > pre.config.iset {
                (
                    Ptoc {
                        config: pre.config,
                        state: TripState::Pickup,
                        pickup_time: Some(timestamp),
                    },
                    ProtectionResult::TripPending(pre.config.tset),
                )
            } else {
                (pre, ProtectionResult::NoTrip)
            }
        } else if pre.state == TripState::Pickup {
            if !(current > pre.config.iset) {
                (
                    Ptoc { config: pre.config, state: TripState::Idle, pickup_time: None },
                    ProtectionResult::NoTrip,
                )
            } else {
                match pre.pickup_time {
                    Some(pickup) => {
                        let elapsed = elapsed_ms(pickup, timestamp);
                        if elapsed >= pre.config.tset {
                            (
                                Ptoc {
                                    config: pre.config,
                                    state: TripState::Trip,
                                    pickup_time: pre.pickup_time,
                                },
                                ProtectionResult::Trip,
                            )
                        } else {
                            (pre, ProtectionResult::TripPending((pre.config.tset - elapsed) as u64))
                        }
                    },
                    // Unreachable from any well-formed element; restart
                    // the timer rather than fail.
                    None => (
                        Ptoc {
                            config: pre.config,
                            state: TripState::Pickup,
                            pickup_time: Some(timestamp),
                        },
                        ProtectionResult::TripPending(pre.config.tset),
                    ),
                }
            }
        } else {
            (pre, ProtectionResult::Trip)
        }
    }

    /// Create a new PTOC element in the `Idle` state.
    pub fn new(config: PtocConfig) -> (r: Self)
        ensures
            r.config == config,
            r.state == TripState::Idle,
            (r.pickup_time is None),
            r.wf(),
    {
        Self { config, state: TripState::Idle, pickup_time: None }
    }

    /// Current trip state.
    pub fn state(&self) -> (r: TripState)
        ensures
            r == self.state,
    {
        self.state
    }

    /// Current configuration.
    pub fn config(&self) -> (r: &PtocConfig)
        ensures
            *r == self.config,
    {
        &self.config
    }

    /// Replace the configuration atomically; a disabled new
    /// configuration also resets the element.
    pub fn set_config(&mut self, config: PtocConfig)
        ensures
            final(self).config == config,
            config.enabled ==> final(self).state == old(self).state
                && final(self).pickup_time == old(self).pickup_time,
            !config.enabled ==> final(self).state == TripState::Idle
                && (final(self).pickup_time is None),
            old(self).wf() ==> final(self).wf(),
    {
        self.config = config;
        if !self.config.enabled {
            self.reset();
        }
    }

    /// Pickup current setting (Iset) in primary-side milliamperes.
    pub fn iset(&self) -> (r: u64)
        ensures
            r == self.config.iset,
    {
        self.config.iset
    }

    /// Definite-time delay setting (Tset) in milliseconds.
    pub fn tset(&self) -> (r: u64)
        ensures
            r == self.config.tset,
    {
        self.config.tset
    }

    /// Whether `current` exceeds the pickup setting.
    fn is_overcurrent(&self, current: u64) -> (r: bool)
        ensures
            r == (current > self.config.iset),
    {
        current > self.config.iset
    }

    /// Milliseconds since pickup, if the timer is running.
    fn time_since_pickup(&self, current_time: u64) -> (r: Option<u64>)
        ensures
            (self.pickup_time is None) ==> (r is None),
            (self.pickup_time is Some) ==> r == Some(
                elapsed_ms(self.pickup_time.unwrap(), current_time) as u64,
            ),
    {
        match self.pickup_time {
            Some(pickup) => Some(current_time.saturating_sub(pickup) / 1000),
            None => None,
        }
    }
}

impl ProtectionFunction for Ptoc {
    /// Advance the state machine by one evaluation, exactly as
    /// [`Ptoc::step`] prescribes.
    fn process(&mut self, current: u64, timestamp: u64) -> (r: ProtectionResult)
        ensures
            (*final(self), r) == Ptoc::step(*old(self), current, timestamp),
            final(self).config == old(self).config,
            old(self).wf() ==> final(self).wf(),
    {
        if !self.config.enabled {
            return ProtectionResult::Disabled;
        }

        let is_overcurrent = self.is_overcurrent(current);

        match self.state {
            TripState::Idle => {
                if is_overcurrent {
                    // Current exceeded pickup: start timing.
                    self.state = TripState::Pickup;
                    self.pickup_time = Some(timestamp);
                    ProtectionResult::TripPending(self.config.tset)
                } else {
                    ProtectionResult::NoTrip
                }
            },
            TripState::Pickup => {
                if !is_overcurrent {
                    // Current dropped below pickup: discard the timer.
                    self.state = TripState::Idle;
                    self.pickup_time = None;
                    ProtectionResult::NoTrip
                } else {
                    if let Some(elapsed) = self.time_since_pickup(timestamp) {
                        if elapsed >= self.config.tset {
                            // Delay expired: issue the trip.
                            self.state = TripState::Trip;
                            ProtectionResult::Trip
                        } else {
                            let remaining = self.config.tset - elapsed;
                            ProtectionResult::TripPending(remaining)
                        }
                    } else {
                        self.pickup_time = Some(timestamp);
                        ProtectionResult::TripPending(self.config.tset)
                    }
                }
            },
            TripState::Trip => {
                // Once tripped, stay tripped until reset.
                ProtectionResult::Trip
            },
        }
    }

    /// Force `Idle` with no pending timer, from any state; the only way
    /// out of a latched trip.
    fn reset(&mut self)
        ensures
            final(self).config == old(self).config,
            final(self).state == TripState::Idle,
            (final(self).pickup_time is None),
            final(self).wf(),
    {
        self.state = TripState::Idle;
        self.pickup_time = None;
    }

    fn is_enabled(&self) -> (r: bool)
        ensures
            r == self.config.enabled,
    {
        self.config.enabled
    }

    /// Enable or disable the element; disabling also resets it.
    fn set_enabled(&mut self, enabled: bool)
        ensures
            final(self).config.enabled == enabled,
            final(self).config.iset == old(self).config.iset,
            final(self).config.tset == old(self).config.tset,
            enabled ==> final(self).state == old(self).state
                && final(self).pickup_time == old(self).pickup_time,
            !enabled ==> final(self).state == TripState::Idle
                && (final(self).pickup_time is None),
            old(self).wf() ==> final(self).wf(),
    {
        self.config.enabled = enabled;
        if !enabled {
            self.reset();
        }
    }

    fn name(&self) -> (r: &'static str)
        ensures
            r@ == "PTOC"@,
    {
        "PTOC"
    }
}

/// A latched trip is sticky: while enabled, evaluation in the `Trip`
/// state reports `Trip` and stays tripped, whatever the current and
/// timestamp; only `reset` leaves the state.
pub proof fn lemma_trip_is_latched(pre: Ptoc, current: u64, timestamp: u64)
    requires
        pre.config.enabled,
        pre.state == TripState::Trip,
    ensures
        Ptoc::step(pre, current, timestamp).0 == pre,
        Ptoc::step(pre, current, timestamp).1 == ProtectionResult::Trip,
{
}

/// A disabled element short-circuits: evaluation reports `Disabled` and
/// mutates nothing, whatever the current, timestamp and prior state.
pub proof fn lemma_disabled_freezes_state(pre: Ptoc, current: u64, timestamp: u64)
    requires
        !pre.config.enabled,
    ensures
        Ptoc::step(pre, current, timestamp).0 == pre,
        Ptoc::step(pre, current, timestamp).1 == ProtectionResult::Disabled,
{
}

} // verus!
