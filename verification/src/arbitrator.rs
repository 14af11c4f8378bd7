//! The arbitration state machine: decides, on each new reading, whether the
//! reporting sensor becomes (or remains) the active driver of the output.
//!
//! The machine is pure: it is driven only by logical time (passed in as a
//! millisecond timestamp) and by comparison of heating demand. A minimum hold
//! keeps a newly active sensor in place and prevents rapid oscillation; once
//! the hold has passed, the incumbent is kept only while its demand strictly
//! exceeds the rival's — on equal demand the rival takes over.

use vstd::prelude::*;
use crate::reading::{Reading, demand, demand_exec, VALVE_FULL_PERMILLE};

verus! {

/// Default minimum time a sensor stays active before a rival may take over:
/// fifteen minutes, in milliseconds.
pub const DEFAULT_MIN_HOLD_MILLIS: i64 = 900_000;

/// The arbitration state. `Initializing` is left exactly once, on the first
/// reading, and never re-entered.
pub enum ArbitrationState {
    /// No sensor has reported yet; carries the logical time the system
    /// started.
    Initializing { start: i64 },
    /// One sensor currently drives the output. `since` is the logical time
    /// this sensor became active; its demand fields are refreshed by its own
    /// readings only.
    Active { sensor_id: String, since: i64, temp: i64, setpoint: i64, valve: i64 },
}

impl ArbitrationState {
    /// The valve fraction carried by an active state lies in `[0, 1]`.
    pub open spec fn wf(self) -> bool {
        self matches ArbitrationState::Active { valve, .. } ==> 0 <= valve
            <= VALVE_FULL_PERMILLE
    }

    /// Heating demand of the currently active values.
    pub open spec fn active_demand(self) -> int
        recommends
            self is Active,
    {
        demand(
            self->Active_setpoint as int,
            self->Active_temp as int,
            self->Active_valve as int,
        )
    }

    /// One transition of the machine, exactly `spec_next`.
    pub fn next(self, reading: Reading, now: i64, min_hold: i64) -> (r: ArbitrationState)
        requires
            self.wf(),
            reading.wf(),
        ensures
            r == spec_next(self, reading, now, min_hold),
            r.wf(),
            r is Active,
    {
        match self {
            ArbitrationState::Initializing { start: _ } => ArbitrationState::Active {
                sensor_id: reading.sensor_id,
                since: now,
                temp: reading.temperature,
                setpoint: reading.setpoint,
                valve: reading.valve,
            },
            ArbitrationState::Active { sensor_id, since, temp, setpoint, valve } => {
                let is_current = reading.sensor_id == sensor_id;
                if is_current {
                    ArbitrationState::Active {
                        sensor_id,
                        since,
                        temp: reading.temperature,
                        setpoint: reading.setpoint,
                        valve: reading.valve,
                    }
                } else {
                    let held: i128 = (now as i128) - (since as i128);
                    let incumbent: i128 = demand_exec(setpoint, temp, valve);
                    let candidate: i128 = reading.demand();
                    if held < (min_hold as i128) || incumbent > candidate {
                        ArbitrationState::Active { sensor_id, since, temp, setpoint, valve }
                    } else {
                        ArbitrationState::Active {
                            sensor_id: reading.sensor_id,
                            since: now,
                            temp: reading.temperature,
                            setpoint: reading.setpoint,
                            valve: reading.valve,
                        }
                    }
                }
            },
        }
    }
}

/// The transition rule. From `Initializing` the first reading activates its
/// sensor unconditionally. A reading from the active sensor refreshes the
/// demand fields and leaves `since` untouched. A reading from any other
/// sensor takes over only when the incumbent has been active at least
/// `min_hold` milliseconds and its demand does not exceed the candidate's;
/// otherwise the state is unchanged.
pub open spec fn spec_next(
    state: ArbitrationState,
    reading: Reading,
    now: i64,
    min_hold: i64,
) -> ArbitrationState {
    match state {
        ArbitrationState::Initializing { .. } => ArbitrationState::Active {
            sensor_id: reading.sensor_id,
            since: now,
            temp: reading.temperature,
            setpoint: reading.setpoint,
            valve: reading.valve,
        },
        ArbitrationState::Active { sensor_id, since, temp, setpoint, valve } => {
            if reading.sensor_id@ == sensor_id@ {
                ArbitrationState::Active {
                    sensor_id,
                    since,
                    temp: reading.temperature,
                    setpoint: reading.setpoint,
                    valve: reading.valve,
                }
            } else if now - since < min_hold || demand(
                setpoint as int,
                temp as int,
                valve as int,
            ) > reading.spec_demand() {
                ArbitrationState::Active { sensor_id, since, temp, setpoint, valve }
            } else {
                ArbitrationState::Active {
                    sensor_id: reading.sensor_id,
                    since: now,
                    temp: reading.temperature,
                    setpoint: reading.setpoint,
                    valve: reading.valve,
                }
            }
        },
    }
}

/// The machine folded over a whole sequence of timestamped readings, in
/// arrival order.
pub open spec fn spec_run(
    state: ArbitrationState,
    inputs: Seq<(Reading, i64)>,
    min_hold: i64,
) -> ArbitrationState
    decreases inputs.len(),
{
    if inputs.len() == 0 {
        state
    } else {
        spec_run(
            spec_next(state, inputs[0].0, inputs[0].1, min_hold),
            inputs.drop_first(),
            min_hold,
        )
    }
}

/// From `Initializing`, the first reading of any sequence always activates
/// its own sensor: the successor state is `Active` with that reading's
/// `sensor_id`, its demand fields, and `since` equal to its timestamp.
pub proof fn lemma_first_reading_activates(
    state: ArbitrationState,
    reading: Reading,
    now: i64,
    min_hold: i64,
)
    requires
        state is Initializing,
    ensures
        (spec_next(state, reading, now, min_hold) matches ArbitrationState::Active {
            sensor_id,
            since,
            temp,
            setpoint,
            valve,
        } && sensor_id@ == reading.sensor_id@ && since == now && temp == reading.temperature
            && setpoint == reading.setpoint && valve == reading.valve),
{
}

/// While only one sensor ever reports, the active identity never changes:
/// folding any number of readings that all carry `sensor_id` view `s` over a
/// state that is either still `Initializing` or already active for `s` leaves
/// the machine active for `s` (or still `Initializing`, when nothing arrived).
pub proof fn lemma_single_sensor_stable(
    state: ArbitrationState,
    inputs: Seq<(Reading, i64)>,
    min_hold: i64,
    s: Seq<char>,
)
    requires
        state matches ArbitrationState::Active { sensor_id, .. } ==> sensor_id@ == s,
        forall|i: int|
            0 <= i < inputs.len() ==> (#[trigger] inputs[i]).0.sensor_id@ == s,
    ensures
        (spec_run(state, inputs, min_hold) matches ArbitrationState::Active { sensor_id, .. }
            ==> sensor_id@ == s),
        state is Active ==> spec_run(state, inputs, min_hold) is Active,
    decreases inputs.len(),
{
    if inputs.len() > 0 {
        let st1 = spec_next(state, inputs[0].0, inputs[0].1, min_hold);
        assert(st1 matches ArbitrationState::Active { sensor_id, .. } ==> sensor_id@ == s);
        let rest = inputs.drop_first();
        assert forall|i: int| 0 <= i < rest.len() implies (#[trigger] rest[i]).0.sensor_id@
            == s by {
            assert(rest[i] == inputs[i + 1]);
        }
        lemma_single_sensor_stable(st1, rest, min_hold, s);
    }
}

/// A rival reporting strictly lower demand within the minimum hold changes
/// nothing: the incumbent keeps the output with every field as it was. Either
/// condition alone already retains the incumbent; this states the property
/// for a rival that loses on both counts.
pub proof fn lemma_incumbent_retained(
    state: ArbitrationState,
    reading: Reading,
    now: i64,
    min_hold: i64,
)
    requires
        state is Active,
        reading.sensor_id@ != state->Active_sensor_id@,
        now - state->Active_since < min_hold,
        reading.spec_demand() < state.active_demand(),
    ensures
        spec_next(state, reading, now, min_hold) == state,
{
}

/// Once the incumbent has been active at least the minimum hold, a rival
/// whose demand is at least the incumbent's takes over: the rival becomes
/// active with its own fields and `since` reset to its reading's timestamp.
pub proof fn lemma_rival_takes_over(
    state: ArbitrationState,
    reading: Reading,
    now: i64,
    min_hold: i64,
)
    requires
        state is Active,
        reading.sensor_id@ != state->Active_sensor_id@,
        now - state->Active_since >= min_hold,
        reading.spec_demand() >= state.active_demand(),
    ensures
        (spec_next(state, reading, now, min_hold) matches ArbitrationState::Active {
            sensor_id,
            since,
            temp,
            setpoint,
            valve,
        } && sensor_id@ == reading.sensor_id@ && since == now && temp == reading.temperature
            && setpoint == reading.setpoint && valve == reading.valve),
{
}

} // verus!
