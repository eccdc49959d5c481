use procon2_xinput::xinput_proxy::normalize_analog_thumbstick_value;

/// The normalization rule restated over real arithmetic: shift by the
/// center, divide by the half-span, deadzone, clamp, invert, scale and round.
fn reference_normalize(value: i32, invert: bool) -> i32 {
    let center = 2048.0;
    let span = 4095.0;
    let mut normalized = (value as f64 - center) / (span / 2.0);
    if normalized.abs() < 0.03 {
        normalized = 0.0;
    }
    if normalized < -1.0 {
        normalized = -1.0;
    }
    if normalized > 1.0 {
        normalized = 1.0;
    }
    if invert {
        normalized = -normalized;
    }
    (normalized * 32767.0).round() as i32
}

#[test]
fn center_maps_to_zero() {
    assert_eq!(normalize_analog_thumbstick_value(2048, false), 0);
    assert_eq!(normalize_analog_thumbstick_value(2048, true), 0);
}

#[test]
fn extremes_clamp_to_full_scale() {
    assert_eq!(normalize_analog_thumbstick_value(0, false), -32767);
    assert_eq!(normalize_analog_thumbstick_value(0, true), 32767);
    // 4095 falls a hair short of one full unit: (4095 - 2048) / 2047.5
    // scaled and rounded gives 32759, within rounding of full scale.
    assert_eq!(normalize_analog_thumbstick_value(4095, false), 32759);
    assert_eq!(normalize_analog_thumbstick_value(4095, true), -32759);
}

#[test]
fn deadzone_maps_to_exactly_zero() {
    for raw in (2048 - 61)..=(2048 + 61) {
        assert_eq!(normalize_analog_thumbstick_value(raw, false), 0);
        assert_eq!(normalize_analog_thumbstick_value(raw, true), 0);
    }
    assert_ne!(normalize_analog_thumbstick_value(2048 - 62, false), 0);
    assert_ne!(normalize_analog_thumbstick_value(2048 + 62, false), 0);
}

#[test]
fn first_step_past_deadzone() {
    // (62 * 65534 + 2047) / 4095 rounds 62 / 2047.5 * 32767 to 992.
    assert_eq!(normalize_analog_thumbstick_value(2110, false), 992);
    assert_eq!(normalize_analog_thumbstick_value(1986, false), -992);
}

#[test]
fn monotonic_over_whole_domain() {
    for raw in 0..4095 {
        let lower = normalize_analog_thumbstick_value(raw, false);
        let upper = normalize_analog_thumbstick_value(raw + 1, false);
        assert!(lower <= upper, "not monotonic at raw {raw}: {lower} > {upper}");
    }
}

#[test]
fn inverted_is_exact_negation() {
    for raw in 0..=4095 {
        assert_eq!(
            normalize_analog_thumbstick_value(raw, true),
            -normalize_analog_thumbstick_value(raw, false),
        );
    }
}

#[test]
fn matches_real_arithmetic_reference_everywhere() {
    for raw in -200..=4300 {
        for invert in [false, true] {
            assert_eq!(
                normalize_analog_thumbstick_value(raw, invert),
                reference_normalize(raw, invert),
                "mismatch at raw {raw}, invert {invert}",
            );
        }
    }
}

#[test]
fn out_of_domain_samples_clamp() {
    assert_eq!(normalize_analog_thumbstick_value(i32::MIN, false), -32767);
    assert_eq!(normalize_analog_thumbstick_value(i32::MAX, false), 32767);
    assert_eq!(normalize_analog_thumbstick_value(5000, false), 32767);
}
