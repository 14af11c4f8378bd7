//! The decision the ingest path makes for one inbound reading.
//!
//! The surrounding program receives and parses transport messages (a parse
//! failure drops the message there and never reaches this step) and hands
//! each parsed reading over, one at a time and in delivery order. This step
//! stamps the reading with the current logical time, records it in the
//! store, and routes it through the arbitrator.

use vstd::prelude::*;
use crate::arbitrator::{spec_next, ArbitrationState};
use crate::clock::clock_now_millis;
use crate::reading::Reading;
use crate::store::SensorStore;

verus! {

/// `reading` with its receipt time set to `now` and every other field
/// unchanged.
pub open spec fn stamp(reading: Reading, now: i64) -> Reading {
    Reading { received_at: now, ..reading }
}

/// Ingests one reading at logical time `now`: the stamped reading becomes
/// the store's entry for its sensor (tagged with `now`, all other sensors
/// untouched), and the returned state is exactly one arbitrator transition
/// on the stamped reading.
pub fn ingest(
    store: &mut SensorStore,
    state: ArbitrationState,
    reading: Reading,
    now: i64,
    min_hold: i64,
) -> (r: ArbitrationState)
    requires
        old(store).wf(),
        state.wf(),
        reading.wf(),
    ensures
        final(store).wf(),
        final(store)@ == old(store)@.insert(reading.sensor_id@, (stamp(reading, now), now)),
        r == spec_next(state, stamp(reading, now), now, min_hold),
        r.wf(),
{
    let stamped = Reading { received_at: now, ..reading };
    store.set(stamped.sensor_id.clone(), stamped.clone(), now);
    state.next(stamped, now, min_hold)
}

/// Ingests one reading stamped with the machine's clock. Whatever timestamp
/// the clock hands back, the effect is exactly `ingest` at that time, which
/// is returned beside the new state; when the clock cannot be read, nothing
/// changes and the state comes back as it was.
pub fn ingest_now(
    store: &mut SensorStore,
    state: ArbitrationState,
    reading: Reading,
    min_hold: i64,
) -> (r: (ArbitrationState, Option<i64>))
    requires
        old(store).wf(),
        state.wf(),
        reading.wf(),
    ensures
        final(store).wf(),
        r.0.wf(),
        (match r.1 {
            Some(now) => final(store)@ == old(store)@.insert(
                reading.sensor_id@,
                (stamp(reading, now), now),
            ) && r.0 == spec_next(state, stamp(reading, now), now, min_hold),
            None => final(store)@ == old(store)@ && r.0 == state,
        }),
{
    match clock_now_millis() {
        Some(now) => {
            let next_state = ingest(store, state, reading, now, min_hold);
            (next_state, Some(now))
        },
        None => (state, None),
    }
}

} // verus!
