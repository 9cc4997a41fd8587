use vehicle_telemetry::state::{SensorId, SharedRateState};
use vehicle_telemetry::telemetry::{
    IndicatorLevels, PinLevel, TelemetrySnapshotBuilder,
};

const DIST_UM: u64 = 460_085;

fn indicators_example() -> IndicatorLevels {
    IndicatorLevels {
        highbeam: PinLevel::High,
        left_turn: PinLevel::Low,
        right_turn: PinLevel::High,
        neutral: PinLevel::Low,
        fuel_injection: PinLevel::High,
    }
}

#[test]
fn snapshot_reflects_indicator_levels_unchanged() {
    let state = SharedRateState::new(DIST_UM);
    let mut builder = TelemetrySnapshotBuilder::new(1_000);
    let t = builder.build_snapshot(indicators_example(), Some(500), Some(90_000), &state);
    assert_eq!(t.indicators, indicators_example());
    assert_eq!(t.fuel_level_milli, 500);
    assert_eq!(t.coolant_temp_milli, 90_000);
}

#[test]
fn snapshot_reads_rates_from_shared_state() {
    let state = SharedRateState::new(DIST_UM);
    state.on_edge(SensorId::Wheel, 0);
    state.on_edge(SensorId::Wheel, 46_008_500);
    state.on_edge(SensorId::Tacho, 0);
    state.on_edge(SensorId::Tacho, 500_000_000);
    let mut builder = TelemetrySnapshotBuilder::new(0);
    let t = builder.build_snapshot(indicators_example(), None, None, &state);
    assert_eq!(t.speed_mkmh as f64 / 1000.0, 36.0);
    assert_eq!(t.engine_mrpm as f64 / 1000.0, 120.0);
}

#[test]
fn failed_analog_reading_reports_last_known_value() {
    // A per-cycle sensor failure is recoverable: the cycle continues with
    // the last known value.
    let state = SharedRateState::new(DIST_UM);
    let mut builder = TelemetrySnapshotBuilder::new(0);
    let first = builder.build_snapshot(indicators_example(), Some(750), Some(85_500), &state);
    assert_eq!(first.fuel_level_milli, 750);
    let second = builder.build_snapshot(indicators_example(), None, None, &state);
    assert_eq!(second.fuel_level_milli, 750);
    assert_eq!(second.coolant_temp_milli, 85_500);
    let third = builder.build_snapshot(indicators_example(), Some(700), None, &state);
    assert_eq!(third.fuel_level_milli, 700);
    assert_eq!(third.coolant_temp_milli, 85_500);
}

#[test]
fn analog_memory_starts_at_zero() {
    // Before any successful reading the substitute is the 0 sentinel.
    let state = SharedRateState::new(DIST_UM);
    let mut builder = TelemetrySnapshotBuilder::new(0);
    let t = builder.build_snapshot(indicators_example(), None, None, &state);
    assert_eq!(t.fuel_level_milli, 0);
    assert_eq!(t.coolant_temp_milli, 0);
}

#[test]
fn cadence_is_configuration_only() {
    let builder_fast = TelemetrySnapshotBuilder::new(0);
    let builder_slow = TelemetrySnapshotBuilder::new(1_000);
    assert_eq!(builder_fast.cycle_delay_ms, 0);
    assert_eq!(builder_slow.cycle_delay_ms, 1_000);
}

#[test]
fn negative_coolant_temperature_is_representable() {
    let state = SharedRateState::new(DIST_UM);
    let mut builder = TelemetrySnapshotBuilder::new(0);
    let t = builder.build_snapshot(indicators_example(), Some(800), Some(-12_500), &state);
    assert_eq!(t.coolant_temp_milli, -12_500);
    assert_eq!(t.coolant_temp_milli as f64 / 1000.0, -12.5);
}
