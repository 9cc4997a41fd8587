//! Pure rate computation: converts the interval between two edge events into
//! a wheel speed (milli-km/h) or an engine speed (milli-RPM).
//!
//! Both operations are total over `(now, previous)`. A missing previous edge
//! (cold start) and a zero or negative interval (a debounce artifact, or a
//! clock read that went backwards) yield `0`, never a division by zero.

use vstd::prelude::*;

verus! {

/// Largest admitted distance per pulse, in micrometres (1 km). Keeps
/// `distance * MILLI_KMH_PER_UM_PER_NS` inside `u64`.
pub const MAX_DISTANCE_PER_PULSE_UM: u64 = 1_000_000_000;

/// Multiplier turning micrometres-per-nanosecond into milli-km/h:
/// `d_um * 3_600_000 / delta_ns` is the speed in milli-km/h.
pub const MILLI_KMH_PER_UM_PER_NS: u64 = 3_600_000;

/// Numerator of the RPM formula: one revolution per `delta_ns` nanoseconds is
/// `60_000_000_000_000 / delta_ns` milli-RPM (frequency times 60).
pub const MILLI_RPM_NUMERATOR: u64 = 60_000_000_000_000;

/// Circumference of the observed front wheel, in micrometres (1.84034 m).
pub const DEFAULT_WHEEL_CIRCUMFERENCE_UM: u64 = 1_840_340;

/// Pulses per wheel revolution of the observed hardware.
pub const DEFAULT_PULSES_PER_REVOLUTION: u64 = 4;

/// The length of the interval between two edges, or `0` when there is no
/// prior edge or the interval is degenerate (zero or negative).
pub open spec fn spec_interval_ns(now: u64, previous: Option<u64>) -> int {
    match previous {
        Option::None => 0,
        Option::Some(p) => if now <= p {
            0
        } else {
            now - p
        },
    }
}

/// Wheel speed in milli-km/h derived from one edge interval: the distance
/// covered per pulse (micrometres) over the interval (nanoseconds). Cold
/// start and degenerate intervals give `0`.
pub open spec fn spec_wheel_speed_mkmh(
    distance_per_pulse_um: u64,
    now: u64,
    previous: Option<u64>,
) -> int {
    if spec_interval_ns(now, previous) == 0 {
        0
    } else {
        (distance_per_pulse_um as int * MILLI_KMH_PER_UM_PER_NS as int) / spec_interval_ns(
            now,
            previous,
        )
    }
}

/// Engine speed in milli-RPM derived from one tachometer period: pulses per
/// second times 60 — the frequency-based formula, deliberately, not period
/// times 60, with which it coincides only at a period of exactly one
/// second. Cold start and degenerate intervals give `0`.
pub open spec fn spec_engine_rpm_mrpm(now: u64, previous: Option<u64>) -> int {
    if spec_interval_ns(now, previous) == 0 {
        0
    } else {
        MILLI_RPM_NUMERATOR as int / spec_interval_ns(now, previous)
    }
}

/// Distance covered per sensor pulse, in micrometres, from the wheel
/// circumference and the pulse count (`0` pulses gives `0`).
pub open spec fn spec_distance_per_pulse_um(circumference_um: u64, pulses_per_revolution: u64) -> int {
    if pulses_per_revolution == 0 {
        0
    } else {
        circumference_um as int / pulses_per_revolution as int
    }
}

/// Exec counterpart of [`spec_distance_per_pulse_um`].
pub fn distance_per_pulse_um(circumference_um: u64, pulses_per_revolution: u64) -> (r: u64)
    ensures
        r == spec_distance_per_pulse_um(circumference_um, pulses_per_revolution),
        r <= circumference_um,
{
    if pulses_per_revolution == 0 {
        0
    } else {
        circumference_um / pulses_per_revolution
    }
}

/// Wheel speed in milli-km/h for the interval ending at `now`. Returns `0`
/// when `previous` is absent (cold start) or the interval is degenerate.
pub fn wheel_speed_mkmh(distance_per_pulse_um: u64, now: u64, previous: Option<u64>) -> (r: u64)
    requires
        distance_per_pulse_um <= MAX_DISTANCE_PER_PULSE_UM,
    ensures
        r == spec_wheel_speed_mkmh(distance_per_pulse_um, now, previous),
        r <= distance_per_pulse_um * MILLI_KMH_PER_UM_PER_NS,
{
    match previous {
        Option::None => 0,
        Option::Some(p) => {
            if now <= p {
                0
            } else {
                let delta: u64 = now - p;
                let numerator: u64 = distance_per_pulse_um * MILLI_KMH_PER_UM_PER_NS;
                proof {
                    lemma_div_bounds(numerator as int, delta as int);
                }
                numerator / delta
            }
        },
    }
}

/// Engine speed in milli-RPM for the tachometer period ending at `now`.
/// Returns `0` when `previous` is absent (cold start) or the period is
/// degenerate.
pub fn engine_rpm_mrpm(now: u64, previous: Option<u64>) -> (r: u64)
    ensures
        r == spec_engine_rpm_mrpm(now, previous),
        r <= MILLI_RPM_NUMERATOR,
{
    match previous {
        Option::None => 0,
        Option::Some(p) => {
            if now <= p {
                0
            } else {
                let delta: u64 = now - p;
                proof {
                    lemma_div_bounds(MILLI_RPM_NUMERATOR as int, delta as int);
                }
                MILLI_RPM_NUMERATOR / delta
            }
        },
    }
}

/// Integer division by a positive divisor keeps a non-negative dividend's
/// bounds: the quotient lies between `0` and the dividend.
proof fn lemma_div_bounds(a: int, d: int)
    requires
        a >= 0,
        d >= 1,
    ensures
        0 <= a / d <= a,
{
    assert(0 <= a / d <= a) by (nonlinear_arith)
        requires
            a >= 0,
            d >= 1,
    ;
}

/// Whatever interval separates two edges, both rates are defined, finite by
/// type, non-negative, and bounded: the speed by the rate of one pulse per
/// nanosecond, the RPM by one revolution per nanosecond.
pub proof fn lemma_rates_finite_and_nonnegative(
    distance_per_pulse_um: u64,
    now: u64,
    previous: u64,
)
    requires
        distance_per_pulse_um <= MAX_DISTANCE_PER_PULSE_UM,
    ensures
        0 <= spec_wheel_speed_mkmh(distance_per_pulse_um, now, Option::Some(previous))
            <= distance_per_pulse_um * MILLI_KMH_PER_UM_PER_NS,
        0 <= spec_engine_rpm_mrpm(now, Option::Some(previous)) <= MILLI_RPM_NUMERATOR,
{
    let delta = spec_interval_ns(now, Option::Some(previous));
    if delta > 0 {
        lemma_div_bounds(distance_per_pulse_um * MILLI_KMH_PER_UM_PER_NS, delta);
        lemma_div_bounds(MILLI_RPM_NUMERATOR as int, delta);
    }
}

/// Cold start: with no prior edge both rates are exactly `0`, for any `now`
/// and any calibration.
pub proof fn lemma_cold_start_rates_are_zero(distance_per_pulse_um: u64, now: u64)
    ensures
        spec_wheel_speed_mkmh(distance_per_pulse_um, now, Option::None) == 0,
        spec_engine_rpm_mrpm(now, Option::None) == 0,
{
}

} // verus!
