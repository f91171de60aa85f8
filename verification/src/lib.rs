//! Decision core of a definite-time overcurrent (PTOC) protective relay.
//!
//! A stream of raw current samples is accumulated for one power-system
//! cycle, scaled through the instrument-transformer chain to primary-side
//! current, reduced to one RMS magnitude, and fed to a latching
//! pickup/dwell state machine that yields the trip decision.
//!
//! Current magnitudes are carried as integers in milliamperes, timestamps
//! as microseconds; both are supplied by the caller, never read from a
//! clock, so every computation is deterministic and replayable.

use vstd::prelude::*;

pub mod config;
pub mod goose;
pub mod protection;
pub mod ptoc;
pub mod rms;
pub mod sample_buffer;
pub mod scaling;

pub use config::{AdcConfig, CtConfig, GooseConfig, PtocConfig, SvConfig, SystemConfig};
pub use goose::{parse_mac_address, timestamp_to_iec61850, GoosePublisher, GooseTripMessage};
pub use protection::{ProtectionFunction, ProtectionResult, TripState};
pub use ptoc::Ptoc;
pub use rms::{calculate_rms, calculate_rms_i32, RmsCalculator};
pub use sample_buffer::{SampleData, SvSampleBuffer};
pub use scaling::{
    adc_samples_to_primary, adc_samples_to_secondary, adc_to_primary, adc_to_secondary,
    secondary_to_primary, CurrentScaler,
};

verus! {

/// Version of the library, for telemetry and logging.
pub const VERSION: &'static str = "0.1.0";

/// Name of the library, for telemetry and logging.
pub const NAME: &'static str = "poc_protection_functions";

} // verus!
