//! The immutable value type for one ingested sensor sample.
//!
//! Temperatures and setpoints are fixed-point centidegrees (hundredths of a
//! degree), the valve opening is in per-mille (0 ..= 1000 stands for the
//! fraction 0.0 ..= 1.0), and timestamps are logical milliseconds. Heating
//! demand is `(setpoint - temperature) * valve`, computed exactly in `i128`
//! so that no range restriction on the temperature fields is needed.

use vstd::prelude::*;

verus! {

/// How far a valve can open, in per-mille: 1000 stands for fully open (1.0).
pub const VALVE_FULL_PERMILLE: i64 = 1000;

/// One sensor sample. Never mutated after construction; a newer sample for
/// the same sensor is a fresh `Reading`.
pub struct Reading {
    /// Opaque identifier of the originating sensor.
    pub sensor_id: String,
    /// Measured temperature, centidegrees.
    pub temperature: i64,
    /// Desired temperature for the sensor's zone, centidegrees.
    pub setpoint: i64,
    /// Valve-opening fraction, per-mille in `[0, 1000]`.
    pub valve: i64,
    /// Auxiliary telemetry, carried through unchanged.
    pub battery: i64,
    /// Auxiliary telemetry, relative humidity in centi-percent.
    pub humidity: i64,
    /// Auxiliary telemetry, radio link quality.
    pub link_quality: i64,
    /// Logical time (milliseconds) the sample was received, assigned at
    /// ingest; never supplied by the sensor itself.
    pub received_at: i64,
}

impl Reading {
    /// The only structural invariant: the valve fraction lies in `[0, 1]`.
    pub open spec fn wf(self) -> bool {
        0 <= self.valve <= VALVE_FULL_PERMILLE
    }

    /// Heating demand of this sample: how urgently its zone asks for heat.
    pub open spec fn spec_demand(self) -> int {
        demand(self.setpoint as int, self.temperature as int, self.valve as int)
    }

    /// Heating demand, exact. Negative demand (temperature above setpoint)
    /// is a valid value and is not special-cased.
    pub fn demand(&self) -> (r: i128)
        requires
            self.wf(),
        ensures
            r == self.spec_demand(),
    {
        demand_exec(self.setpoint, self.temperature, self.valve)
    }
}

impl Clone for Reading {
    /// A clone is the very same sample.
    fn clone(&self) -> (r: Self)
        ensures
            r == *self,
    {
        Reading {
            sensor_id: self.sensor_id.clone(),
            temperature: self.temperature,
            setpoint: self.setpoint,
            valve: self.valve,
            battery: self.battery,
            humidity: self.humidity,
            link_quality: self.link_quality,
            received_at: self.received_at,
        }
    }
}

/// Heating demand `(setpoint - temperature) * valve` over the mathematical
/// integers.
pub open spec fn demand(setpoint: int, temperature: int, valve: int) -> int {
    (setpoint - temperature) * valve
}

/// Computes `demand` exactly; widening to `i128` rules overflow out for every
/// `i64` input with a per-mille valve.
pub fn demand_exec(setpoint: i64, temperature: i64, valve: i64) -> (r: i128)
    requires
        0 <= valve <= VALVE_FULL_PERMILLE,
    ensures
        r == demand(setpoint as int, temperature as int, valve as int),
{
    let diff: i128 = (setpoint as i128) - (temperature as i128);
    proof {
        lemma_demand_bounded(setpoint as int, temperature as int, valve as int);
    }
    diff * (valve as i128)
}

/// The demand of any `i64` sample with a per-mille valve stays far inside
/// the `i128` range.
proof fn lemma_demand_bounded(setpoint: int, temperature: int, valve: int)
    requires
        i64::MIN <= setpoint <= i64::MAX,
        i64::MIN <= temperature <= i64::MAX,
        0 <= valve <= VALVE_FULL_PERMILLE,
    ensures
        i128::MIN <= (setpoint - temperature) * valve <= i128::MAX,
{
    let diff = setpoint - temperature;
    assert(-(0x1_0000_0000_0000_0000 as int) <= diff <= 0x1_0000_0000_0000_0000);
    assert((setpoint - temperature) * valve <= 0x1_0000_0000_0000_0000 * 1000
        && -(0x1_0000_0000_0000_0000 * 1000) <= (setpoint - temperature) * valve)
        by (nonlinear_arith)
        requires
            -(0x1_0000_0000_0000_0000 as int) <= diff <= 0x1_0000_0000_0000_0000,
            0 <= valve <= 1000,
            diff == setpoint - temperature,
    ;
}

} // verus!
