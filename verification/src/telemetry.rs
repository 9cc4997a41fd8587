//! The periodic sampling side: assembles one immutable [`Telemetry`] record
//! per cycle from the indicator levels and analog readings handed in by the
//! caller and from the shared rate store.
//!
//! A failed analog reading (`None`) is recoverable per cycle: the builder
//! substitutes the last known value and the cycle continues.

use vstd::prelude::*;
use crate::state::{SensorId, SharedRateState, spec_max_rate_milli};

verus! {

/// Logic level of a digital indicator pin.
#[derive(Clone, Copy, Debug, PartialEq, Eq, Structural)]
pub enum PinLevel {
    Low,
    High,
}

/// The five digital indicator levels read synchronously each cycle.
#[derive(Clone, Copy, Debug, PartialEq, Eq, Structural)]
pub struct IndicatorLevels {
    pub highbeam: PinLevel,
    pub left_turn: PinLevel,
    pub right_turn: PinLevel,
    pub neutral: PinLevel,
    pub fuel_injection: PinLevel,
}

/// One immutable snapshot of the whole instrument state, assembled once per
/// sampling cycle and handed to the consumer. Rates in milli-units, the fuel
/// level in milli-units of its scale, the coolant temperature in
/// milli-degrees.
#[derive(Clone, Copy, Debug)]
pub struct Telemetry {
    pub indicators: IndicatorLevels,
    pub speed_mkmh: u64,
    pub engine_mrpm: u64,
    pub fuel_level_milli: u64,
    pub coolant_temp_milli: i64,
}

/// Builds one [`Telemetry`] record per cycle. Remembers the last analog
/// values so that a reading that fails in one cycle is reported as the last
/// known value rather than aborting the cycle.
pub struct TelemetrySnapshotBuilder {
    /// Inter-cycle delay in milliseconds; `0` means continuous polling. The
    /// cadence is configuration, not logic: the caller's loop applies it.
    pub cycle_delay_ms: u64,
    /// Fuel level substituted when a fuel reading fails; `0` until the first
    /// successful reading.
    pub last_fuel_level_milli: u64,
    /// Coolant temperature substituted when a temperature reading fails; `0`
    /// until the first successful reading.
    pub last_coolant_temp_milli: i64,
}

impl TelemetrySnapshotBuilder {
    /// A fresh builder with the given cadence and no analog history.
    pub fn new(cycle_delay_ms: u64) -> (b: TelemetrySnapshotBuilder)
        ensures
            b.cycle_delay_ms == cycle_delay_ms,
            b.last_fuel_level_milli == 0,
            b.last_coolant_temp_milli == 0,
    {
        TelemetrySnapshotBuilder {
            cycle_delay_ms,
            last_fuel_level_milli: 0,
            last_coolant_temp_milli: 0,
        }
    }

    /// One cycle's assembly: the indicator levels pass through unchanged,
    /// each analog reading is taken as given or, when it failed, replaced by
    /// the last known value, and each rate channel is read independently from
    /// the shared store (each within its channel's bound). The builder's
    /// analog memory advances to exactly what the record reports.
    pub fn build_snapshot(
        &mut self,
        indicators: IndicatorLevels,
        fuel_level_milli: Option<u64>,
        coolant_temp_milli: Option<i64>,
        rates: &SharedRateState,
    ) -> (t: Telemetry)
        requires
            rates.wf(),
        ensures
            t.indicators == indicators,
            t.fuel_level_milli == (match fuel_level_milli {
                Option::Some(f) => f,
                Option::None => old(self).last_fuel_level_milli,
            }),
            t.coolant_temp_milli == (match coolant_temp_milli {
                Option::Some(c) => c,
                Option::None => old(self).last_coolant_temp_milli,
            }),
            t.speed_mkmh <= spec_max_rate_milli(
                SensorId::Wheel,
                rates.spec_distance_per_pulse_um(),
            ),
            t.engine_mrpm <= spec_max_rate_milli(
                SensorId::Tacho,
                rates.spec_distance_per_pulse_um(),
            ),
            final(self).last_fuel_level_milli == t.fuel_level_milli,
            final(self).last_coolant_temp_milli == t.coolant_temp_milli,
            final(self).cycle_delay_ms == old(self).cycle_delay_ms,
    {
        let speed_mkmh = rates.read(SensorId::Wheel);
        let engine_mrpm = rates.read(SensorId::Tacho);
        let fuel = match fuel_level_milli {
            Option::Some(f) => f,
            Option::None => self.last_fuel_level_milli,
        };
        let temp = match coolant_temp_milli {
            Option::Some(c) => c,
            Option::None => self.last_coolant_temp_milli,
        };
        self.last_fuel_level_milli = fuel;
        self.last_coolant_temp_milli = temp;
        Telemetry {
            indicators,
            speed_mkmh,
            engine_mrpm,
            fuel_level_milli: fuel,
            coolant_temp_milli: temp,
        }
    }
}

} // verus!
