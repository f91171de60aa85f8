//! Configuration of the protection channel.
//!
//! Current magnitudes are fixed-point integers in milliamperes (mA), so
//! that every step of the scaling and decision chain is exact integer
//! arithmetic: 1 A equals 1000 mA.

use vstd::prelude::*;
use vstd::string::StringExecFns;

verus! {

/// Configuration of the PTOC (definite-time overcurrent) element.
#[derive(Debug, Clone, PartialEq, Eq, Structural)]
pub struct PtocConfig {
    /// Pickup current in primary-side milliamperes.
    pub iset: u64,
    /// Definite-time delay in milliseconds.
    pub tset: u64,
    /// Enable or disable the protection function.
    pub enabled: bool,
}

impl Default for PtocConfig {
    /// 100 A pickup, 100 ms delay, enabled.
    fn default() -> (r: Self)
        ensures
            r.iset == 100_000u64,
            r.tset == 100u64,
            r.enabled,
    {
        Self { iset: 100_000, tset: 100, enabled: true }
    }
}

/// Configuration of the CT (current transformer) ratio.
#[derive(Debug, Clone, PartialEq, Eq, Structural)]
pub struct CtConfig {
    /// Primary current rating (e.g. 400 for a 400/1 CT).
    pub primary: u32,
    /// Secondary current rating (typically 1 or 5); must not be zero.
    pub secondary: u32,
}

impl CtConfig {
    /// A usable CT rating: the ratio divides by `secondary`.
    pub open spec fn wf(&self) -> bool {
        self.secondary != 0
    }
}

impl Default for CtConfig {
    /// A 400/1 current transformer.
    fn default() -> (r: Self)
        ensures
            r.primary == 400u32,
            r.secondary == 1u32,
            r.wf(),
    {
        Self { primary: 400, secondary: 1 }
    }
}

/// Configuration of the ADC (analog-to-digital converter) scaling.
#[derive(Debug, Clone, PartialEq, Eq, Structural)]
pub struct AdcConfig {
    /// Scaling factor in secondary-side milliamperes per ADC count.
    pub scale_factor: i64,
    /// Zero-point correction in ADC counts.
    pub offset: i32,
}

impl Default for AdcConfig {
    /// 1 mA per count (0.001 A), no offset.
    fn default() -> (r: Self)
        ensures
            r.scale_factor == 1i64,
            r.offset == 0i32,
    {
        Self { scale_factor: 1, offset: 0 }
    }
}

/// Configuration of the GOOSE trip-message output.
#[derive(Debug, Clone)]
pub struct GooseConfig {
    /// Destination MAC address (format: "01:0C:CD:01:00:00").
    pub dst_mac: String,
    /// Application identifier carried in the frame header.
    pub appid: u16,
    /// GOOSE identifier naming the message stream.
    pub goid: String,
    /// GOOSE control block reference.
    pub gocb_ref: String,
    /// Dataset reference.
    pub dat_set: String,
    /// Network interface name (e.g. "eth0").
    pub interface: String,
}

impl Default for GooseConfig {
    fn default() -> (r: Self)
        ensures
            r.dst_mac@ == "01:0C:CD:01:00:00"@,
            r.appid == 0x0001u16,
            r.goid@ == "PTOC_TRIP"@,
            r.gocb_ref@ == "IED1LD0/LLN0$GO$PTOC1"@,
            r.dat_set@ == "IED1LD0/LLN0$PTOC1"@,
            r.interface@ == "eth0"@,
    {
        Self {
            dst_mac: String::from_str("01:0C:CD:01:00:00"),
            appid: 0x0001,
            goid: String::from_str("PTOC_TRIP"),
            gocb_ref: String::from_str("IED1LD0/LLN0$GO$PTOC1"),
            dat_set: String::from_str("IED1LD0/LLN0$PTOC1"),
            interface: String::from_str("eth0"),
        }
    }
}

/// Configuration of the sampled-values input.
#[derive(Debug, Clone)]
pub struct SvConfig {
    /// Samples per power-system cycle (80 for 50 Hz at 4000 samples/s).
    pub samples_per_cycle: usize,
    /// Network interface name (e.g. "eth0").
    pub interface: String,
    /// Multicast MAC address to subscribe to.
    pub multicast_mac: String,
}

impl Default for SvConfig {
    fn default() -> (r: Self)
        ensures
            r.samples_per_cycle == 80usize,
            r.interface@ == "eth0"@,
            r.multicast_mac@ == "01:0C:CD:04:00:00"@,
    {
        Self {
            samples_per_cycle: 80,
            interface: String::from_str("eth0"),
            multicast_mac: String::from_str("01:0C:CD:04:00:00"),
        }
    }
}

/// Complete configuration of one protection channel.
#[derive(Debug, Clone)]
pub struct SystemConfig {
    pub ptoc: PtocConfig,
    pub ct: CtConfig,
    pub adc: AdcConfig,
    pub goose: GooseConfig,
    pub sv: SvConfig,
}

impl Default for SystemConfig {
    fn default() -> (r: Self)
        ensures
            r.ptoc == (PtocConfig { iset: 100_000u64, tset: 100u64, enabled: true }),
            r.ct == (CtConfig { primary: 400u32, secondary: 1u32 }),
            r.adc == (AdcConfig { scale_factor: 1i64, offset: 0i32 }),
            r.goose.dst_mac@ == "01:0C:CD:01:00:00"@,
            r.goose.appid == 0x0001u16,
            r.goose.interface@ == "eth0"@,
            r.sv.samples_per_cycle == 80usize,
            r.sv.interface@ == "eth0"@,
            r.sv.multicast_mac@ == "01:0C:CD:04:00:00"@,
    {
        Self {
            ptoc: PtocConfig::default(),
            ct: CtConfig::default(),
            adc: AdcConfig::default(),
            goose: GooseConfig::default(),
            sv: SvConfig::default(),
        }
    }
}

} // verus!
