//! Shared rate store: one state cell per rate-producing sensor, holding the
//! `(last_edge_timestamp, current_rate)` pair under a single lock so that the
//! pair is always read and replaced as one unit (no tearing), and so that one
//! sensor's handler never delays the other's (one lock per channel, not one
//! over all sensors).
//!
//! Edge handlers call [`SharedRateState::on_edge`]; the periodic sampler
//! calls [`SharedRateState::read`] or [`SharedRateState::read_pair`].

use vstd::prelude::*;
use vstd::rwlock::{RwLock, RwLockPredicate};
use crate::rate::{
    spec_wheel_speed_mkmh, spec_engine_rpm_mrpm, wheel_speed_mkmh, engine_rpm_mrpm,
    MAX_DISTANCE_PER_PULSE_UM, MILLI_KMH_PER_UM_PER_NS, MILLI_RPM_NUMERATOR,
    lemma_rates_finite_and_nonnegative,
};

verus! {

/// Identifies one of the two rate-producing sensors.
#[derive(Clone, Copy, Debug)]
pub enum SensorId {
    /// The wheel magnetic pulse sensor (speed).
    Wheel,
    /// The ignition / tachometer pulse sensor (RPM).
    Tacho,
}

/// State of one sensor channel: the timestamp of the last edge (if any edge
/// has arrived yet) paired with the rate computed from it, in milli-units.
/// The two fields form one value on purpose: they are only ever stored and
/// observed together.
#[derive(Clone, Copy, Debug)]
pub struct EdgeChannelState {
    /// Nanosecond timestamp of the most recent edge, `None` before the first.
    pub last_edge_timestamp: Option<u64>,
    /// Rate derived from the most recent edge interval: milli-km/h for the
    /// wheel channel, milli-RPM for the tachometer channel.
    pub current_rate_milli: u64,
}

impl EdgeChannelState {
    /// The cold-start state: no edge seen, rate `0`.
    pub open spec fn spec_initial() -> EdgeChannelState {
        EdgeChannelState { last_edge_timestamp: Option::None, current_rate_milli: 0 }
    }

    /// Exec counterpart of [`EdgeChannelState::spec_initial`].
    pub fn initial() -> (s: EdgeChannelState)
        ensures
            s == EdgeChannelState::spec_initial(),
    {
        EdgeChannelState { last_edge_timestamp: Option::None, current_rate_milli: 0 }
    }
}

/// The channel state after one edge at `now`: the pair is replaced as a
/// whole — the new timestamp together with the rate derived from the old
/// timestamp and `now`.
pub open spec fn spec_channel_after_edge(
    sensor: SensorId,
    distance_per_pulse_um: u64,
    ch: EdgeChannelState,
    now: u64,
) -> EdgeChannelState {
    EdgeChannelState {
        last_edge_timestamp: Option::Some(now),
        current_rate_milli: (match sensor {
            SensorId::Wheel => spec_wheel_speed_mkmh(
                distance_per_pulse_um,
                now,
                ch.last_edge_timestamp,
            ),
            SensorId::Tacho => spec_engine_rpm_mrpm(now, ch.last_edge_timestamp),
        }) as u64,
    }
}

/// The rate bound a channel never exceeds: one pulse per nanosecond for the
/// wheel channel, one revolution per nanosecond for the tachometer channel.
pub open spec fn spec_max_rate_milli(sensor: SensorId, distance_per_pulse_um: u64) -> int {
    match sensor {
        SensorId::Wheel => distance_per_pulse_um as int * MILLI_KMH_PER_UM_PER_NS as int,
        SensorId::Tacho => MILLI_RPM_NUMERATOR as int,
    }
}

/// One edge transaction, as a pure function from the old channel state to
/// the new one. [`SharedRateState::on_edge`] applies exactly this under the
/// channel's lock.
pub fn channel_after_edge(
    sensor: SensorId,
    distance_per_pulse_um: u64,
    ch: &EdgeChannelState,
    now: u64,
) -> (r: EdgeChannelState)
    requires
        distance_per_pulse_um <= MAX_DISTANCE_PER_PULSE_UM,
    ensures
        r == spec_channel_after_edge(sensor, distance_per_pulse_um, *ch, now),
        r.last_edge_timestamp == Option::Some(now),
        r.current_rate_milli <= spec_max_rate_milli(sensor, distance_per_pulse_um),
{
    let rate: u64 = match sensor {
        SensorId::Wheel => wheel_speed_mkmh(distance_per_pulse_um, now, ch.last_edge_timestamp),
        SensorId::Tacho => engine_rpm_mrpm(now, ch.last_edge_timestamp),
    };
    EdgeChannelState { last_edge_timestamp: Option::Some(now), current_rate_milli: rate }
}

/// Invariant every value stored in a channel's lock satisfies: the rate is
/// within the channel's bound, and before the first edge it is exactly `0`.
/// Readers rely on it: whatever interleaving of handlers ran, an acquired
/// value is one that some single completed transaction produced.
pub struct ChannelPred {
    /// Bound on `current_rate_milli` for this channel.
    pub max_rate_milli: u64,
}

impl RwLockPredicate<EdgeChannelState> for ChannelPred {
    open spec fn inv(self, v: EdgeChannelState) -> bool {
        &&& v.current_rate_milli <= self.max_rate_milli
        &&& (v.last_edge_timestamp is None ==> v.current_rate_milli == 0)
    }
}

/// Every edge transaction yields a pair that satisfies the channel
/// invariant: its timestamp is the edge's own and its rate is within the
/// channel's bound. Together with the per-channel lock this is the
/// no-tearing guarantee: a reader can only ever observe such a pair, never a
/// half-updated one.
pub proof fn lemma_edge_satisfies_channel_invariant(
    sensor: SensorId,
    distance_per_pulse_um: u64,
    ch: EdgeChannelState,
    now: u64,
    pred: ChannelPred,
)
    requires
        distance_per_pulse_um <= MAX_DISTANCE_PER_PULSE_UM,
        pred.max_rate_milli == spec_max_rate_milli(sensor, distance_per_pulse_um),
    ensures
        pred.inv(spec_channel_after_edge(sensor, distance_per_pulse_um, ch, now)),
{
    match ch.last_edge_timestamp {
        Option::None => {
        },
        Option::Some(p) => {
            lemma_rates_finite_and_nonnegative(distance_per_pulse_um, now, p);
        },
    }
}

/// The channel state after a whole sequence of edges, applied oldest first,
/// one transaction at a time. Per-channel updates are totally ordered, so
/// this is the only way a channel's state can evolve.
pub open spec fn spec_channel_after_edges(
    sensor: SensorId,
    distance_per_pulse_um: u64,
    ch: EdgeChannelState,
    edges: Seq<u64>,
) -> EdgeChannelState
    decreases edges.len(),
{
    if edges.len() == 0 {
        ch
    } else {
        spec_channel_after_edge(
            sensor,
            distance_per_pulse_um,
            spec_channel_after_edges(sensor, distance_per_pulse_um, ch, edges.drop_last()),
            edges.last(),
        )
    }
}

/// However many edges arrive, and however the two channels' handlers
/// interleave with readers, each channel's state is the fold of its own
/// single-edge transactions, and every intermediate state satisfies the
/// channel invariant — so every read, wherever it falls in the
/// interleaving, observes a consistent, bounded pair.
pub proof fn lemma_edge_sequence_preserves_invariant(
    sensor: SensorId,
    distance_per_pulse_um: u64,
    ch: EdgeChannelState,
    edges: Seq<u64>,
    pred: ChannelPred,
)
    requires
        distance_per_pulse_um <= MAX_DISTANCE_PER_PULSE_UM,
        pred.max_rate_milli == spec_max_rate_milli(sensor, distance_per_pulse_um),
        pred.inv(ch),
    ensures
        pred.inv(spec_channel_after_edges(sensor, distance_per_pulse_um, ch, edges)),
    decreases edges.len(),
{
    if edges.len() > 0 {
        lemma_edge_sequence_preserves_invariant(
            sensor,
            distance_per_pulse_um,
            ch,
            edges.drop_last(),
            pred,
        );
        lemma_edge_satisfies_channel_invariant(
            sensor,
            distance_per_pulse_um,
            spec_channel_after_edges(sensor, distance_per_pulse_um, ch, edges.drop_last()),
            edges.last(),
            pred,
        );
    }
}

/// Two edges with an identical timestamp (a hardware or debounce artifact):
/// the second transaction stores the defined rate `0` — never an undefined
/// or unbounded value.
pub proof fn lemma_identical_timestamps_give_zero_rate(
    sensor: SensorId,
    distance_per_pulse_um: u64,
    ch: EdgeChannelState,
    now: u64,
)
    requires
        ch.last_edge_timestamp == Option::Some(now),
    ensures
        spec_channel_after_edge(sensor, distance_per_pulse_um, ch, now).current_rate_milli == 0,
{
}

/// The shared store: one independently locked channel per sensor, plus the
/// calibration (distance covered per wheel pulse) fixed at construction.
pub struct SharedRateState {
    distance_per_pulse_um: u64,
    wheel: RwLock<EdgeChannelState, ChannelPred>,
    tacho: RwLock<EdgeChannelState, ChannelPred>,
}

impl SharedRateState {
    /// Distance covered per wheel pulse, in micrometres, as configured.
    pub closed spec fn spec_distance_per_pulse_um(self) -> u64 {
        self.distance_per_pulse_um
    }

    /// Well-formedness: the calibration is within bounds and each channel's
    /// lock carries that channel's invariant.
    pub closed spec fn wf(self) -> bool {
        &&& self.distance_per_pulse_um <= MAX_DISTANCE_PER_PULSE_UM
        &&& self.wheel.pred() == (ChannelPred {
            max_rate_milli: (self.distance_per_pulse_um as int
                * MILLI_KMH_PER_UM_PER_NS as int) as u64,
        })
        &&& self.tacho.pred() == (ChannelPred { max_rate_milli: MILLI_RPM_NUMERATOR })
    }

    /// A fresh store: both channels in the cold-start state.
    pub fn new(distance_per_pulse_um: u64) -> (s: SharedRateState)
        requires
            distance_per_pulse_um <= MAX_DISTANCE_PER_PULSE_UM,
        ensures
            s.wf(),
            s.spec_distance_per_pulse_um() == distance_per_pulse_um,
    {
        let max_wheel: u64 = distance_per_pulse_um * MILLI_KMH_PER_UM_PER_NS;
        SharedRateState {
            distance_per_pulse_um,
            wheel: RwLock::new(
                EdgeChannelState::initial(),
                Ghost(ChannelPred { max_rate_milli: max_wheel }),
            ),
            tacho: RwLock::new(
                EdgeChannelState::initial(),
                Ghost(ChannelPred { max_rate_milli: MILLI_RPM_NUMERATOR }),
            ),
        }
    }

    /// One edge notification for `sensor` at timestamp `now`: reads the
    /// channel's pair, derives the new rate, and replaces the pair, all as a
    /// single transaction under that channel's own lock. Takes `&self`: it is
    /// meant to be called from a notification context that shares the store
    /// with the sampler. Bounded and non-blocking apart from the one lock.
    pub fn on_edge(&self, sensor: SensorId, now: u64)
        requires
            self.wf(),
    {
        let lock = match sensor {
            SensorId::Wheel => &self.wheel,
            SensorId::Tacho => &self.tacho,
        };
        let (current, write_handle) = lock.acquire_write();
        let next = channel_after_edge(sensor, self.distance_per_pulse_um, &current, now);
        proof {
            lemma_edge_satisfies_channel_invariant(
                sensor,
                self.distance_per_pulse_um,
                current,
                now,
                lock.pred(),
            );
        }
        write_handle.release_write(next);
    }

    /// Rate snapshot of one channel, in milli-units. The pair lives under one
    /// lock, so the value always belongs to one completed transaction and is
    /// within the channel's bound.
    pub fn read(&self, sensor: SensorId) -> (r: u64)
        requires
            self.wf(),
        ensures
            r <= spec_max_rate_milli(sensor, self.spec_distance_per_pulse_um()),
    {
        let (_last_edge, rate) = self.read_pair(sensor);
        rate
    }

    /// Consistent snapshot of one channel's whole pair: timestamp of the
    /// last edge and the rate derived from it, as stored by one transaction.
    /// Before the first edge the rate is exactly `0`.
    pub fn read_pair(&self, sensor: SensorId) -> (r: (Option<u64>, u64))
        requires
            self.wf(),
        ensures
            r.1 <= spec_max_rate_milli(sensor, self.spec_distance_per_pulse_um()),
            r.0 is None ==> r.1 == 0,
    {
        let lock = match sensor {
            SensorId::Wheel => &self.wheel,
            SensorId::Tacho => &self.tacho,
        };
        let read_handle = lock.acquire_read();
        let pair = (read_handle.borrow().last_edge_timestamp, read_handle.borrow().current_rate_milli);
        read_handle.release_read();
        pair
    }
}

} // verus!
