use vehicle_telemetry::rate::{
    distance_per_pulse_um, engine_rpm_mrpm, wheel_speed_mkmh, DEFAULT_PULSES_PER_REVOLUTION,
    DEFAULT_WHEEL_CIRCUMFERENCE_UM, MILLI_KMH_PER_UM_PER_NS, MILLI_RPM_NUMERATOR,
};

fn kmh(milli: u64) -> f64 {
    milli as f64 / 1000.0
}

fn rpm(milli: u64) -> f64 {
    milli as f64 / 1000.0
}

fn default_distance_um() -> u64 {
    distance_per_pulse_um(DEFAULT_WHEEL_CIRCUMFERENCE_UM, DEFAULT_PULSES_PER_REVOLUTION)
}

#[test]
fn test_speed_interrupt_handler() {
    // Travelling for 46,008,500 nanoseconds
    // between interrupts means you are
    // travelling at 10 metres/second
    // or 36 kilometres per hour
    let speed = wheel_speed_mkmh(default_distance_um(), 46_008_500, Some(0));
    assert_eq!(kmh(speed), 36.0);
}

#[test]
fn test_tacho_interrupt_handler() {
    // Revolving at a rate of 1 second
    // between interrupts means that
    // the engine is revolving at
    // 60 rpm.
    let tacho = engine_rpm_mrpm(1_000_000_000, Some(0));
    assert_eq!(rpm(tacho), 60.0);
}

#[test]
fn tacho_half_second_period_is_120_rpm() {
    // Frequency-based formula: two pulses per second is 120 RPM (the
    // period-based formula would give 30).
    let tacho = engine_rpm_mrpm(500_000_000, Some(0));
    assert_eq!(rpm(tacho), 120.0);
}

#[test]
fn default_distance_per_pulse_is_quarter_circumference() {
    assert_eq!(default_distance_um(), 460_085);
}

#[test]
fn zero_pulses_per_revolution_gives_zero_distance() {
    assert_eq!(distance_per_pulse_um(DEFAULT_WHEEL_CIRCUMFERENCE_UM, 0), 0);
}

#[test]
fn cold_start_rates_are_zero() {
    // With no prior edge there is no interval: both rates are 0, whatever
    // `now` is.
    assert_eq!(wheel_speed_mkmh(default_distance_um(), 0, None), 0);
    assert_eq!(wheel_speed_mkmh(default_distance_um(), u64::MAX, None), 0);
    assert_eq!(engine_rpm_mrpm(0, None), 0);
    assert_eq!(engine_rpm_mrpm(u64::MAX, None), 0);
}

#[test]
fn rates_are_finite_and_nonnegative_for_positive_intervals() {
    let d = default_distance_um();
    for delta in [1u64, 7, 1_000, 46_008_500, 1_000_000_000, u64::MAX / 2] {
        let speed = wheel_speed_mkmh(d, delta, Some(0));
        let tacho = engine_rpm_mrpm(delta, Some(0));
        assert!(kmh(speed).is_finite());
        assert!(rpm(tacho).is_finite());
        assert!(kmh(speed) >= 0.0);
        assert!(rpm(tacho) >= 0.0);
        assert!(speed <= d * MILLI_KMH_PER_UM_PER_NS);
        assert!(tacho <= MILLI_RPM_NUMERATOR);
    }
}

#[test]
fn zero_interval_gives_zero_rate() {
    // Two edges at the identical timestamp: no division by zero, no
    // non-finite value — the rate is clamped to 0.
    let speed = wheel_speed_mkmh(default_distance_um(), 5_000, Some(5_000));
    let tacho = engine_rpm_mrpm(5_000, Some(5_000));
    assert_eq!(speed, 0);
    assert_eq!(tacho, 0);
    assert!(kmh(speed).is_finite());
}

#[test]
fn backwards_interval_gives_zero_rate() {
    // A timestamp pair out of order (clock anomaly) is degenerate: rate 0.
    assert_eq!(wheel_speed_mkmh(default_distance_um(), 4_999, Some(5_000)), 0);
    assert_eq!(engine_rpm_mrpm(4_999, Some(5_000)), 0);
}

#[test]
fn speed_scales_inversely_with_interval() {
    let d = default_distance_um();
    // Twice the interval, half the speed.
    let fast = wheel_speed_mkmh(d, 46_008_500, Some(0));
    let slow = wheel_speed_mkmh(d, 92_017_000, Some(0));
    assert_eq!(kmh(fast), 36.0);
    assert_eq!(kmh(slow), 18.0);
}
