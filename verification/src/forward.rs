//! The decision the forwarding tick makes: whether to publish, and what.
//!
//! On each tick the forwarder looks up the active sensor's latest stored
//! reading. It publishes nothing while no sensor is active, while the active
//! sensor has no stored entry, or while the entry is older than the
//! freshness threshold; otherwise it publishes the formatted temperature. Performing the publish, and retrying
//! on the next tick after a transport failure, is the surrounding program's
//! affair: a failed publish changes no state here.

use vstd::prelude::*;
use crate::arbitrator::ArbitrationState;
use crate::payload::{format_payload, payload_chars};
use crate::reading::Reading;
use crate::store::SensorStore;

verus! {

/// Default freshness threshold: a stored reading older than forty minutes
/// (in milliseconds) is not forwarded.
pub const DEFAULT_FRESHNESS_MILLIS: i64 = 2_400_000;

/// Default wall-clock interval between forwarding ticks, in milliseconds.
pub const DEFAULT_FORWARD_INTERVAL_MILLIS: i64 = 60_000;

/// What one forwarding tick emits, over the store's map model: the payload
/// for the active sensor's stored temperature when that sensor has a stored
/// entry at most `freshness` milliseconds old, and nothing otherwise — a
/// reading is skipped only when it is strictly older than the threshold.
pub open spec fn spec_forward(
    state: ArbitrationState,
    stored: Map<Seq<char>, (Reading, i64)>,
    now: i64,
    freshness: i64,
) -> Option<Seq<char>> {
    match state {
        ArbitrationState::Initializing { .. } => None,
        ArbitrationState::Active { sensor_id, .. } => {
            if !stored.contains_key(sensor_id@) {
                None
            } else {
                let entry = stored[sensor_id@];
                if now - entry.1 <= freshness {
                    Some(payload_chars(entry.0.temperature as int))
                } else {
                    None
                }
            }
        },
    }
}

/// One forwarding tick's decision, exactly `spec_forward`: `Some` payload
/// if and only if a sensor is active, its entry is stored, and that entry is
/// at most `freshness` milliseconds old; `None` marks the defined skip
/// conditions (still initializing, no stored entry, or stale data), which
/// are not errors.
pub fn forward_decision(
    state: &ArbitrationState,
    store: &SensorStore,
    now: i64,
    freshness: i64,
) -> (r: Option<String>)
    requires
        store.wf(),
    ensures
        (match spec_forward(*state, store@, now, freshness) {
            Some(p) => r matches Some(s) && s@ == p,
            None => r is None,
        }),
{
    match state {
        ArbitrationState::Initializing { .. } => None,
        ArbitrationState::Active { sensor_id, .. } => {
            match store.get(sensor_id) {
                None => None,
                Some((reading, t)) => {
                    if (now as i128) - (t as i128) <= (freshness as i128) {
                        Some(format_payload(reading.temperature))
                    } else {
                        None
                    }
                },
            }
        },
    }
}

} // verus!
