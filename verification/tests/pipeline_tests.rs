use std::f64::consts::PI;

use poc_protection_functions::config::SystemConfig;
use poc_protection_functions::protection::{ProtectionFunction, ProtectionResult, TripState};
use poc_protection_functions::ptoc::Ptoc;
use poc_protection_functions::rms::calculate_rms;
use poc_protection_functions::sample_buffer::SvSampleBuffer;
use poc_protection_functions::scaling::CurrentScaler;

/// The full measurement chain on a simulated overcurrent: one cycle of
/// samples accumulates, is scaled to primary milliamperes, reduced to
/// an RMS magnitude and fed to the PTOC element, which picks up and
/// trips once the definite-time delay elapses.
#[test]
fn test_measurement_chain_trips_on_overcurrent() {
    let config = SystemConfig::default();
    let mut ptoc = Ptoc::new(config.ptoc.clone());
    let scaler = CurrentScaler::new(config.adc.clone(), config.ct.clone());
    let mut buffer = SvSampleBuffer::new(config.sv.samples_per_cycle);

    // 150 A primary with a 400/1 CT and 1 mA/count scaling: 375 mA
    // secondary RMS, peak about 530 counts.
    let peak_adc = 530.0;
    let cycle_us: u64 = 20_000;

    let mut tripped = false;
    for cycle in 0..8u64 {
        buffer.clear();
        for i in 0..config.sv.samples_per_cycle {
            let angle = 2.0 * PI * i as f64 / config.sv.samples_per_cycle as f64;
            buffer.add_sample((peak_adc * angle.sin()) as i32);
        }
        assert!(buffer.is_full());

        let primary = scaler.scale_samples_to_primary(buffer.samples());
        let rms = calculate_rms(&primary);
        // About 150 A in milliamperes.
        assert!(rms > 100_000 && rms < 200_000);

        let result = ptoc.process(rms, cycle * cycle_us);
        match result {
            ProtectionResult::Trip => {
                tripped = true;
                break;
            }
            ProtectionResult::TripPending(_) => {}
            other => panic!("unexpected result before trip: {:?}", other),
        }
    }
    assert!(tripped);
    assert_eq!(ptoc.state(), TripState::Trip);

    // A healthy current after a reset stays idle.
    ptoc.reset();
    let result = ptoc.process(50_000, 1_000_000);
    assert_eq!(result, ProtectionResult::NoTrip);
    assert_eq!(ptoc.state(), TripState::Idle);
}
