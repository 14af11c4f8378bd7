use heat_arbiter::arbitrator::{ArbitrationState, DEFAULT_MIN_HOLD_MILLIS};
use heat_arbiter::Reading;

const MINUTE: i64 = 60_000;

fn reading(id: &str, temp: i64, setpoint: i64, valve: i64) -> Reading {
    Reading {
        sensor_id: id.to_string(),
        temperature: temp,
        setpoint,
        valve,
        battery: 100,
        humidity: 4500,
        link_quality: 60,
        received_at: 0,
    }
}

fn active_fields(state: &ArbitrationState) -> (String, i64, i64, i64, i64) {
    match state {
        ArbitrationState::Active { sensor_id, since, temp, setpoint, valve } => {
            (sensor_id.clone(), *since, *temp, *setpoint, *valve)
        }
        ArbitrationState::Initializing { .. } => panic!("expected an active state"),
    }
}

#[test]
fn first_reading_activates_its_sensor() {
    let state = ArbitrationState::Initializing { start: 0 };
    let next = state.next(reading("a1", 2100, 2200, 700), 1000, DEFAULT_MIN_HOLD_MILLIS);
    let (id, since, temp, setpoint, valve) = active_fields(&next);
    assert_eq!(id, "a1");
    assert_eq!(since, 1000);
    assert_eq!(temp, 2100);
    assert_eq!(setpoint, 2200);
    assert_eq!(valve, 700);
}

#[test]
fn single_sensor_stays_active_and_refreshes() {
    let mut state = ArbitrationState::Initializing { start: 0 };
    let samples = [
        (2100, 2200, 700),
        (2120, 2200, 800),
        (2140, 2300, 900),
        (2160, 2200, 700),
        (2280, 2200, 400),
    ];
    let mut now: i64 = 0;
    for (temp, setpoint, valve) in samples {
        state = state.next(reading("a1", temp, setpoint, valve), now, DEFAULT_MIN_HOLD_MILLIS);
        now += 30 * MINUTE;
    }
    let (id, since, temp, setpoint, valve) = active_fields(&state);
    assert_eq!(id, "a1");
    assert_eq!(since, 0);
    assert_eq!(temp, 2280);
    assert_eq!(setpoint, 2200);
    assert_eq!(valve, 400);
}

#[test]
fn rival_with_lower_demand_within_hold_changes_nothing() {
    let state = ArbitrationState::Initializing { start: 0 };
    let state = state.next(reading("a1", 2100, 2200, 700), 0, DEFAULT_MIN_HOLD_MILLIS);
    // demand of a1: (2200 - 2100) * 700 = 70_000; rival offers 10_000 at five minutes.
    let state = state.next(reading("a2", 2000, 2050, 200), 5 * MINUTE, DEFAULT_MIN_HOLD_MILLIS);
    let (id, since, temp, setpoint, valve) = active_fields(&state);
    assert_eq!(id, "a1");
    assert_eq!(since, 0);
    assert_eq!(temp, 2100);
    assert_eq!(setpoint, 2200);
    assert_eq!(valve, 700);
}

#[test]
fn rival_with_higher_demand_after_hold_takes_over() {
    let state = ArbitrationState::Initializing { start: 0 };
    let state = state.next(reading("a1", 2100, 2200, 700), 0, DEFAULT_MIN_HOLD_MILLIS);
    // demand of a1 is 70_000; rival offers (2300 - 2000) * 800 = 240_000 at twenty minutes.
    let state = state.next(reading("a2", 2000, 2300, 800), 20 * MINUTE, DEFAULT_MIN_HOLD_MILLIS);
    let (id, since, temp, setpoint, valve) = active_fields(&state);
    assert_eq!(id, "a2");
    assert_eq!(since, 20 * MINUTE);
    assert_eq!(temp, 2000);
    assert_eq!(setpoint, 2300);
    assert_eq!(valve, 800);
}

#[test]
fn rival_with_equal_demand_at_exact_hold_takes_over() {
    let state = ArbitrationState::Initializing { start: 0 };
    let state = state.next(reading("a1", 2100, 2200, 700), 0, DEFAULT_MIN_HOLD_MILLIS);
    // Equal demand (70_000 each) at exactly the minimum hold: the tie and the
    // just-expired hold both clear the guards, so the rival takes over.
    let state = state.next(reading("a2", 2150, 2250, 700), DEFAULT_MIN_HOLD_MILLIS, DEFAULT_MIN_HOLD_MILLIS);
    let (id, since, _, _, _) = active_fields(&state);
    assert_eq!(id, "a2");
    assert_eq!(since, DEFAULT_MIN_HOLD_MILLIS);
}

#[test]
fn rival_with_higher_demand_within_hold_is_kept_out() {
    let state = ArbitrationState::Initializing { start: 0 };
    let state = state.next(reading("a1", 2100, 2200, 700), 0, DEFAULT_MIN_HOLD_MILLIS);
    let state = state.next(reading("a2", 2000, 2300, 800), 14 * MINUTE, DEFAULT_MIN_HOLD_MILLIS);
    let (id, since, _, _, _) = active_fields(&state);
    assert_eq!(id, "a1");
    assert_eq!(since, 0);
}

#[test]
fn negative_demand_rival_never_wins_against_positive() {
    let state = ArbitrationState::Initializing { start: 0 };
    let state = state.next(reading("a1", 2100, 2200, 700), 0, DEFAULT_MIN_HOLD_MILLIS);
    // Rival above its setpoint: demand (2100 - 2300) * 500 = -100_000.
    let state = state.next(reading("a2", 2300, 2100, 500), 30 * MINUTE, DEFAULT_MIN_HOLD_MILLIS);
    let (id, _, _, _, _) = active_fields(&state);
    assert_eq!(id, "a1");
}

#[test]
fn negative_demand_incumbent_yields_to_zero_demand_rival() {
    let state = ArbitrationState::Initializing { start: 0 };
    let state = state.next(reading("a1", 2300, 2100, 500), 0, DEFAULT_MIN_HOLD_MILLIS);
    // Incumbent demand is -100_000; a rival with a closed valve (demand 0)
    // is still the better target once the hold has passed.
    let state = state.next(reading("a2", 2000, 2200, 0), 16 * MINUTE, DEFAULT_MIN_HOLD_MILLIS);
    let (id, _, _, _, valve) = active_fields(&state);
    assert_eq!(id, "a2");
    assert_eq!(valve, 0);
}

#[test]
fn hysteresis_scenario_keeps_the_incumbent() {
    // One sensor activates, a weaker rival knocks twice: once inside the
    // hold, once after it with lower demand. Both knocks change nothing.
    let state = ArbitrationState::Initializing { start: 0 };
    let state = state.next(reading("a1", 2100, 2200, 700), 0, DEFAULT_MIN_HOLD_MILLIS);
    let (id, _, _, _, _) = active_fields(&state);
    assert_eq!(id, "a1");

    // a1's demand is (2200 - 2100) * 700 = 70_000 (the fraction 0.7);
    // a2 offers (2050 - 2000) * 200 = 10_000 (the fraction 0.1).
    let state = state.next(reading("a2", 2000, 2050, 200), 5 * MINUTE, DEFAULT_MIN_HOLD_MILLIS);
    let (id, since, temp, setpoint, valve) = active_fields(&state);
    assert_eq!((id.as_str(), since), ("a1", 0));
    assert_eq!((temp, setpoint, valve), (2100, 2200, 700));

    let state = state.next(reading("a2", 2000, 2050, 200), 20 * MINUTE, DEFAULT_MIN_HOLD_MILLIS);
    let (id, since, temp, setpoint, valve) = active_fields(&state);
    assert_eq!((id.as_str(), since), ("a1", 0));
    assert_eq!((temp, setpoint, valve), (2100, 2200, 700));
}

#[test]
fn demand_is_exact() {
    assert_eq!(reading("a1", 2100, 2200, 700).demand(), 70_000);
    assert_eq!(reading("a1", 2300, 2100, 500).demand(), -100_000);
    assert_eq!(reading("a1", 2000, 2200, 0).demand(), 0);
    assert_eq!(
        reading("a1", i64::MIN, i64::MAX, 1000).demand(),
        (i64::MAX as i128 - i64::MIN as i128) * 1000
    );
}
