use poc_protection_functions::config::PtocConfig;
use poc_protection_functions::protection::{ProtectionFunction, ProtectionResult, TripState};
use poc_protection_functions::ptoc::Ptoc;

#[test]
fn test_ptoc_no_trip_below_pickup() {
    let config = PtocConfig {
        iset: 100_000,
        tset: 100,
        enabled: true,
    };
    let mut ptoc = Ptoc::new(config);

    // Current below pickup
    let result = ptoc.process(50_000, 0);
    assert_eq!(result, ProtectionResult::NoTrip);
    assert_eq!(ptoc.state(), TripState::Idle);
}

#[test]
fn test_ptoc_trip_pending() {
    let config = PtocConfig {
        iset: 100_000,
        tset: 100,
        enabled: true,
    };
    let mut ptoc = Ptoc::new(config);

    // Current exceeds pickup
    let result = ptoc.process(150_000, 0);
    assert!(matches!(result, ProtectionResult::TripPending(_)));
    assert_eq!(ptoc.state(), TripState::Pickup);
}

#[test]
fn test_ptoc_trip_after_delay() {
    let config = PtocConfig {
        iset: 100_000,
        tset: 100,
        enabled: true,
    };
    let mut ptoc = Ptoc::new(config);

    // Current exceeds pickup at t=0
    ptoc.process(150_000, 0);

    // Still overcurrent at t=50ms (50000 microseconds)
    let result = ptoc.process(150_000, 50_000);
    assert!(matches!(result, ProtectionResult::TripPending(_)));

    // Still overcurrent at t=100ms (100000 microseconds) - should trip
    let result = ptoc.process(150_000, 100_000);
    assert_eq!(result, ProtectionResult::Trip);
    assert_eq!(ptoc.state(), TripState::Trip);
}

#[test]
fn test_ptoc_reset_on_current_drop() {
    let config = PtocConfig {
        iset: 100_000,
        tset: 100,
        enabled: true,
    };
    let mut ptoc = Ptoc::new(config);

    // Current exceeds pickup
    ptoc.process(150_000, 0);
    assert_eq!(ptoc.state(), TripState::Pickup);

    // Current drops before delay expires
    let result = ptoc.process(50_000, 50_000);
    assert_eq!(result, ProtectionResult::NoTrip);
    assert_eq!(ptoc.state(), TripState::Idle);
}

#[test]
fn test_ptoc_disabled() {
    let config = PtocConfig {
        iset: 100_000,
        tset: 100,
        enabled: false,
    };
    let mut ptoc = Ptoc::new(config);

    // Current exceeds pickup but function is disabled
    let result = ptoc.process(150_000, 0);
    assert_eq!(result, ProtectionResult::Disabled);
    assert_eq!(ptoc.state(), TripState::Idle);
}

#[test]
fn test_ptoc_reset() {
    let config = PtocConfig {
        iset: 100_000,
        tset: 100,
        enabled: true,
    };
    let mut ptoc = Ptoc::new(config);

    // Trip the function
    ptoc.process(150_000, 0);
    ptoc.process(150_000, 100_000);
    assert_eq!(ptoc.state(), TripState::Trip);

    // Reset
    ptoc.reset();
    assert_eq!(ptoc.state(), TripState::Idle);
}

#[test]
fn test_ptoc_stays_tripped() {
    let config = PtocConfig {
        iset: 100_000,
        tset: 100,
        enabled: true,
    };
    let mut ptoc = Ptoc::new(config);

    // Trip the function
    ptoc.process(150_000, 0);
    ptoc.process(150_000, 100_000);
    assert_eq!(ptoc.state(), TripState::Trip);

    // Even if current drops, should stay tripped
    let result = ptoc.process(50_000, 200_000);
    assert_eq!(result, ProtectionResult::Trip);
    assert_eq!(ptoc.state(), TripState::Trip);
}

#[test]
fn test_ptoc_pending_delay_counts_down() {
    let config = PtocConfig {
        iset: 100_000,
        tset: 100,
        enabled: true,
    };
    let mut ptoc = Ptoc::new(config);

    let first = ptoc.process(150_000, 0);
    assert_eq!(first, ProtectionResult::TripPending(100));
    let second = ptoc.process(150_000, 50_000);
    assert_eq!(second, ProtectionResult::TripPending(50));
}

#[test]
fn test_ptoc_non_monotonic_timestamp_delays_trip() {
    let config = PtocConfig {
        iset: 100_000,
        tset: 100,
        enabled: true,
    };
    let mut ptoc = Ptoc::new(config);

    // Pickup at a late timestamp, then a timestamp in the past: the
    // saturating subtraction yields zero elapsed, so the full delay
    // remains rather than an underflow.
    ptoc.process(150_000, 500_000);
    let result = ptoc.process(150_000, 400_000);
    assert_eq!(result, ProtectionResult::TripPending(100));
    assert_eq!(ptoc.state(), TripState::Pickup);
}

#[test]
fn test_ptoc_set_enabled_false_resets() {
    let config = PtocConfig {
        iset: 100_000,
        tset: 100,
        enabled: true,
    };
    let mut ptoc = Ptoc::new(config);

    ptoc.process(150_000, 0);
    assert_eq!(ptoc.state(), TripState::Pickup);

    // The explicit disable entry point resets the element.
    ptoc.set_enabled(false);
    assert!(!ptoc.is_enabled());
    assert_eq!(ptoc.state(), TripState::Idle);
}

#[test]
fn test_ptoc_getters() {
    let config = PtocConfig {
        iset: 250_000,
        tset: 40,
        enabled: true,
    };
    let ptoc = Ptoc::new(config);
    assert_eq!(ptoc.iset(), 250_000);
    assert_eq!(ptoc.tset(), 40);
    assert!(ptoc.is_enabled());
    assert_eq!(ptoc.name(), "PTOC");
}

#[test]
fn test_ptoc_set_config_disabled_resets() {
    let mut ptoc = Ptoc::new(PtocConfig {
        iset: 100_000,
        tset: 100,
        enabled: true,
    });
    ptoc.process(150_000, 0);
    assert_eq!(ptoc.state(), TripState::Pickup);

    ptoc.set_config(PtocConfig {
        iset: 200_000,
        tset: 50,
        enabled: false,
    });
    assert_eq!(ptoc.state(), TripState::Idle);
    assert_eq!(ptoc.config().iset, 200_000);
}
