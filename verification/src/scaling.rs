//! The instrument-transformer scaling chain: raw ADC counts to
//! secondary-side current, secondary to primary through the CT ratio.
//!
//! Currents are fixed-point integers in milliamperes. The chain is pure
//! and stateless; a zero secondary CT rating is a configuration-time
//! invariant violation, excluded by precondition rather than checked
//! here.

use vstd::prelude::*;
use vstd::arithmetic::div_mod::{lemma_div_nonincreasing, lemma_div_pos_is_pos};

use crate::config::{AdcConfig, CtConfig};

verus! {

/// Secondary-side current (mA) of one raw ADC reading:
/// `(raw - offset) * scale_factor`.
pub open spec fn secondary_of(adc_value: i32, adc: AdcConfig) -> int {
    (adc_value - adc.offset) * adc.scale_factor
}

/// Primary-side current (mA) of a secondary-side current: the value
/// scaled by the CT ratio `primary / secondary`, the division rounding
/// the magnitude down.
pub open spec fn primary_of_secondary(secondary: int, ct: CtConfig) -> int {
    if secondary >= 0 {
        (secondary * ct.primary) / ct.secondary as int
    } else {
        -((-secondary * ct.primary) / ct.secondary as int)
    }
}

/// Primary-side current (mA) of one raw ADC reading: the composition of
/// the two scaling stages.
pub open spec fn primary_of(adc_value: i32, adc: AdcConfig, ct: CtConfig) -> int {
    primary_of_secondary(secondary_of(adc_value, adc), ct)
}

/// The intermediate values of the chain stay within the machine range.
pub open spec fn scaling_in_range(adc_value: i32, adc: AdcConfig, ct: CtConfig) -> bool {
    let s = secondary_of(adc_value, adc);
    &&& -i64::MAX <= s <= i64::MAX
    &&& -i64::MAX <= s * ct.primary <= i64::MAX
}

/// Convert one raw ADC reading to secondary-side current in mA.
pub fn adc_to_secondary(adc_value: i32, config: &AdcConfig) -> (r: i64)
    requires
        -i64::MAX <= secondary_of(adc_value, *config) <= i64::MAX,
    ensures
        r == secondary_of(adc_value, *config),
{
    (adc_value as i64 - config.offset as i64) * config.scale_factor
}

/// Convert a secondary-side current to primary-side current in mA
/// through the CT ratio.
pub fn secondary_to_primary(secondary_current: i64, config: &CtConfig) -> (r: i64)
    requires
        config.wf(),
        -i64::MAX <= secondary_current,
        -i64::MAX <= secondary_current * config.primary <= i64::MAX,
    ensures
        r == primary_of_secondary(secondary_current as int, *config),
{
    let p = config.primary as i64;
    let q = config.secondary as i64;
    if secondary_current >= 0 {
        (secondary_current * p) / q
    } else {
        let neg = -secondary_current;
        proof {
            assert(neg * p == -(secondary_current * p)) by (nonlinear_arith)
                requires neg == -secondary_current;
            assert(neg * p >= 0) by (nonlinear_arith)
                requires neg >= 0 && p >= 0;
            lemma_div_pos_is_pos(neg as int * p as int, q as int);
            lemma_div_nonincreasing(neg as int * p as int, q as int);
        }
        -((neg * p) / q)
    }
}

/// Convert one raw ADC reading directly to primary-side current in mA.
pub fn adc_to_primary(adc_value: i32, adc_config: &AdcConfig, ct_config: &CtConfig) -> (r: i64)
    requires
        ct_config.wf(),
        scaling_in_range(adc_value, *adc_config, *ct_config),
    ensures
        r == primary_of(adc_value, *adc_config, *ct_config),
{
    let secondary = adc_to_secondary(adc_value, adc_config);
    secondary_to_primary(secondary, ct_config)
}

/// Convert a window of raw ADC readings to secondary-side currents,
/// element-wise, preserving order and length.
pub fn adc_samples_to_secondary(adc_values: &Vec<i32>, config: &AdcConfig) -> (r: Vec<i64>)
    requires
        forall|i: int|
            0 <= i < adc_values@.len() ==> -i64::MAX <= secondary_of(
                #[trigger] adc_values@[i],
                *config,
            ) <= i64::MAX,
    ensures
        r@.len() == adc_values@.len(),
        forall|i: int|
            0 <= i < adc_values@.len() ==> #[trigger] r@[i] == secondary_of(
                adc_values@[i],
                *config,
            ),
{
    let mut out: Vec<i64> = Vec::new();
    let mut idx: usize = 0;
    while idx < adc_values.len()
        invariant
            idx <= adc_values@.len(),
            out@.len() == idx,
            forall|i: int|
                0 <= i < adc_values@.len() ==> -i64::MAX <= secondary_of(
                    #[trigger] adc_values@[i],
                    *config,
                ) <= i64::MAX,
            forall|i: int|
                0 <= i < idx ==> #[trigger] out@[i] == secondary_of(adc_values@[i], *config),
        decreases adc_values@.len() - idx,
    {
        out.push(adc_to_secondary(adc_values[idx], config));
        idx = idx + 1;
    }
    out
}

/// Convert a window of raw ADC readings to primary-side currents,
/// element-wise, preserving order and length.
pub fn adc_samples_to_primary(
    adc_values: &Vec<i32>,
    adc_config: &AdcConfig,
    ct_config: &CtConfig,
) -> (r: Vec<i64>)
    requires
        ct_config.wf(),
        forall|i: int|
            0 <= i < adc_values@.len() ==> scaling_in_range(
                #[trigger] adc_values@[i],
                *adc_config,
                *ct_config,
            ),
    ensures
        r@.len() == adc_values@.len(),
        forall|i: int|
            0 <= i < adc_values@.len() ==> #[trigger] r@[i] == primary_of(
                adc_values@[i],
                *adc_config,
                *ct_config,
            ),
{
    let mut out: Vec<i64> = Vec::new();
    let mut idx: usize = 0;
    while idx < adc_values.len()
        invariant
            idx <= adc_values@.len(),
            out@.len() == idx,
            ct_config.wf(),
            forall|i: int|
                0 <= i < adc_values@.len() ==> scaling_in_range(
                    #[trigger] adc_values@[i],
                    *adc_config,
                    *ct_config,
                ),
            forall|i: int|
                0 <= i < idx ==> #[trigger] out@[i] == primary_of(
                    adc_values@[i],
                    *adc_config,
                    *ct_config,
                ),
        decreases adc_values@.len() - idx,
    {
        out.push(adc_to_primary(adc_values[idx], adc_config, ct_config));
        idx = idx + 1;
    }
    out
}

/// The complete scaling chain, holding both configurations.
pub struct CurrentScaler {
    /// ADC scale factor and offset.
    pub adc_config: AdcConfig,
    /// CT ratings.
    pub ct_config: CtConfig,
}

impl CurrentScaler {
    /// A usable scaler: the CT rating divides.
    pub open spec fn wf(&self) -> bool {
        self.ct_config.wf()
    }

    /// Create a scaler from the two configurations.
    pub fn new(adc_config: AdcConfig, ct_config: CtConfig) -> (r: Self)
        requires
            ct_config.wf(),
        ensures
            r.adc_config == adc_config,
            r.ct_config == ct_config,
            r.wf(),
    {
        Self { adc_config, ct_config }
    }

    /// Scale one raw ADC reading to primary-side current in mA.
    pub fn scale_to_primary(&self, adc_value: i32) -> (r: i64)
        requires
            self.wf(),
            scaling_in_range(adc_value, self.adc_config, self.ct_config),
        ensures
            r == primary_of(adc_value, self.adc_config, self.ct_config),
    {
        adc_to_primary(adc_value, &self.adc_config, &self.ct_config)
    }

    /// Scale a window of raw ADC readings to primary-side currents,
    /// element-wise, preserving order and length.
    pub fn scale_samples_to_primary(&self, adc_values: &Vec<i32>) -> (r: Vec<i64>)
        requires
            self.wf(),
            forall|i: int|
                0 <= i < adc_values@.len() ==> scaling_in_range(
                    #[trigger] adc_values@[i],
                    self.adc_config,
                    self.ct_config,
                ),
        ensures
            r@.len() == adc_values@.len(),
            forall|i: int|
                0 <= i < adc_values@.len() ==> #[trigger] r@[i] == primary_of(
                    adc_values@[i],
                    self.adc_config,
                    self.ct_config,
                ),
    {
        adc_samples_to_primary(adc_values, &self.adc_config, &self.ct_config)
    }

    /// The ADC configuration.
    pub fn adc_config(&self) -> (r: &AdcConfig)
        ensures
            *r == self.adc_config,
    {
        &self.adc_config
    }

    /// The CT configuration.
    pub fn ct_config(&self) -> (r: &CtConfig)
        ensures
            *r == self.ct_config,
    {
        &self.ct_config
    }
}

} // verus!
