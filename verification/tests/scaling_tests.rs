use poc_protection_functions::config::{AdcConfig, CtConfig};
use poc_protection_functions::scaling::{
    adc_samples_to_secondary, adc_to_primary, adc_to_secondary, secondary_to_primary,
    CurrentScaler,
};

#[test]
fn test_adc_to_secondary() {
    let config = AdcConfig {
        scale_factor: 1,
        offset: 0,
    };

    let secondary = adc_to_secondary(1000, &config);
    assert_eq!(secondary, 1000);
}

#[test]
fn test_adc_to_secondary_with_offset() {
    let config = AdcConfig {
        scale_factor: 1,
        offset: 100,
    };

    let secondary = adc_to_secondary(1100, &config);
    assert_eq!(secondary, 1000);
}

#[test]
fn test_secondary_to_primary() {
    let config = CtConfig {
        primary: 400,
        secondary: 1,
    };

    let primary = secondary_to_primary(1000, &config);
    assert_eq!(primary, 400_000);
}

#[test]
fn test_adc_to_primary() {
    let adc_config = AdcConfig {
        scale_factor: 1,
        offset: 0,
    };
    let ct_config = CtConfig {
        primary: 400,
        secondary: 1,
    };

    // 1000 ADC counts = 1 A secondary = 400 A primary
    let primary = adc_to_primary(1000, &adc_config, &ct_config);
    assert_eq!(primary, 400_000);
}

#[test]
fn test_current_scaler() {
    let adc_config = AdcConfig {
        scale_factor: 1,
        offset: 0,
    };
    let ct_config = CtConfig {
        primary: 400,
        secondary: 1,
    };

    let scaler = CurrentScaler::new(adc_config, ct_config);
    let primary = scaler.scale_to_primary(1000);
    assert_eq!(primary, 400_000);
}

#[test]
fn test_scale_samples() {
    let adc_config = AdcConfig {
        scale_factor: 1,
        offset: 0,
    };
    let ct_config = CtConfig {
        primary: 400,
        secondary: 1,
    };

    let scaler = CurrentScaler::new(adc_config, ct_config);
    let samples = vec![1000, 2000, 3000];
    let primaries = scaler.scale_samples_to_primary(&samples);

    assert_eq!(primaries, vec![400_000, 800_000, 1_200_000]);
}

#[test]
fn test_scaling_negative_sample() {
    let adc_config = AdcConfig {
        scale_factor: 1,
        offset: 0,
    };
    let ct_config = CtConfig {
        primary: 400,
        secondary: 1,
    };
    let primary = adc_to_primary(-1000, &adc_config, &ct_config);
    assert_eq!(primary, -400_000);
}

#[test]
fn test_scaling_ratio_division_rounds_toward_zero() {
    // A 400/5 CT: the ratio divides by 5.
    let ct = CtConfig {
        primary: 400,
        secondary: 5,
    };
    assert_eq!(secondary_to_primary(7, &ct), 560);
    // 3 * 400 / 5 = 240; 4 * 400 = 1600, 1600 / 5 = 320.
    assert_eq!(secondary_to_primary(3, &ct), 240);
    // Magnitude rounds down for negative values too.
    let ct3 = CtConfig {
        primary: 1,
        secondary: 3,
    };
    assert_eq!(secondary_to_primary(-7, &ct3), -2);
}

#[test]
fn test_adc_samples_to_secondary_preserves_order() {
    let config = AdcConfig {
        scale_factor: 2,
        offset: 10,
    };
    let values = vec![10, 11, 9];
    let secondaries = adc_samples_to_secondary(&values, &config);
    assert_eq!(secondaries, vec![0, 2, -2]);
}

#[test]
fn test_current_scaler_getters() {
    let adc_config = AdcConfig {
        scale_factor: 3,
        offset: 7,
    };
    let ct_config = CtConfig {
        primary: 500,
        secondary: 5,
    };
    let scaler = CurrentScaler::new(adc_config.clone(), ct_config.clone());
    assert_eq!(*scaler.adc_config(), adc_config);
    assert_eq!(*scaler.ct_config(), ct_config);
}
