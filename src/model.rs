//! The readings of one device pairing: a reference sensor and a valve.
use vstd::prelude::*;

use crate::calibrator::{calibration_of, compute_new_calibration, should_publish, worth_publishing};

verus! {

/// What the reference sensor reports, in hundredths of a degree.
#[derive(Clone, Copy, Debug, PartialEq, Eq)]
pub struct TemperatureSensorReading {
    pub temperature: i32,
}

/// What the valve reports, in hundredths of a degree: the temperature it
/// displays and the offset it currently applies.
#[derive(Clone, Copy, Debug, PartialEq, Eq)]
pub struct ThermoValveReading {
    pub local_temperature: i32,
    pub local_temperature_calibration: i32,
}

/// One reading of either kind, in the order the bus delivered it.
#[derive(Clone, Copy, Debug, PartialEq, Eq)]
pub enum Reading {
    Sensor(TemperatureSensorReading),
    Valve(ThermoValveReading),
}

/// The abstract state of a device pairing.
pub struct CoupledView {
    pub sensor: TemperatureSensorReading,
    pub sensor_seen: bool,
    pub valve: ThermoValveReading,
    pub valve_seen: bool,
}

impl CoupledView {
    /// Nothing recorded yet: zero readings, neither flag set.
    pub open spec fn initial() -> CoupledView {
        CoupledView {
            sensor: TemperatureSensorReading { temperature: 0 },
            sensor_seen: false,
            valve: ThermoValveReading { local_temperature: 0, local_temperature_calibration: 0 },
            valve_seen: false,
        }
    }

    /// Both a sensor and a valve reading have been recorded.
    pub open spec fn ready(self) -> bool {
        self.sensor_seen && self.valve_seen
    }

    pub open spec fn with_sensor(self, t: TemperatureSensorReading) -> CoupledView {
        CoupledView { sensor: t, sensor_seen: true, ..self }
    }

    pub open spec fn with_valve(self, v: ThermoValveReading) -> CoupledView {
        CoupledView { valve: v, valve_seen: true, ..self }
    }

    pub open spec fn record(self, r: Reading) -> CoupledView {
        match r {
            Reading::Sensor(t) => self.with_sensor(t),
            Reading::Valve(v) => self.with_valve(v),
        }
    }

    /// The offset to send to the valve after this state was reached, if any:
    /// only once ready, with both temperatures above zero, and only when the
    /// new offset is a full grid step away from the applied one.
    pub open spec fn correction(self) -> Option<int> {
        if self.ready() && self.sensor.temperature > 0 && self.valve.local_temperature > 0 {
            let n = calibration_of(
                self.sensor.temperature as int,
                self.valve.local_temperature_calibration as int,
                self.valve.local_temperature as int,
            );
            if worth_publishing(n, self.valve.local_temperature_calibration as int) {
                Some(n)
            } else {
                None
            }
        } else {
            None
        }
    }
}

/// The state reached from the initial one by recording `events` in order.
pub open spec fn replay(events: Seq<Reading>) -> CoupledView
    decreases events.len(),
{
    if events.len() == 0 {
        CoupledView::initial()
    } else {
        replay(events.drop_last()).record(events.last())
    }
}

pub open spec fn has_sensor_event(events: Seq<Reading>) -> bool {
    exists|i: int| 0 <= i < events.len() && (#[trigger] events[i]) is Sensor
}

pub open spec fn has_valve_event(events: Seq<Reading>) -> bool {
    exists|i: int| 0 <= i < events.len() && (#[trigger] events[i]) is Valve
}

/// A pairing is ready exactly when at least one sensor reading and at least
/// one valve reading have been recorded, whatever their values and order.
pub proof fn lemma_ready_iff_both_recorded(events: Seq<Reading>)
    ensures
        replay(events).ready() <==> (has_sensor_event(events) && has_valve_event(events)),
        replay(events).sensor_seen <==> has_sensor_event(events),
        replay(events).valve_seen <==> has_valve_event(events),
    decreases events.len(),
{
    if events.len() > 0 {
        let prev = events.drop_last();
        lemma_ready_iff_both_recorded(prev);
        assert forall|i: int| 0 <= i < prev.len() implies prev[i] == events[i] by {}
        if has_sensor_event(prev) {
            let i = choose|i: int| 0 <= i < prev.len() && (#[trigger] prev[i]) is Sensor;
            assert(events[i] is Sensor);
        }
        if has_valve_event(prev) {
            let i = choose|i: int| 0 <= i < prev.len() && (#[trigger] prev[i]) is Valve;
            assert(events[i] is Valve);
        }
        if has_sensor_event(events) && !(events.last() is Sensor) {
            let i = choose|i: int| 0 <= i < events.len() && (#[trigger] events[i]) is Sensor;
            assert(prev[i] is Sensor);
        }
        if has_valve_event(events) && !(events.last() is Valve) {
            let i = choose|i: int| 0 <= i < events.len() && (#[trigger] events[i]) is Valve;
            assert(prev[i] is Valve);
        }
        assert(events[events.len() - 1] == events.last());
    }
}

/// Once ready, a pairing stays ready whatever readings follow.
pub proof fn lemma_ready_is_kept(events: Seq<Reading>, later: Seq<Reading>)
    requires
        replay(events).ready(),
    ensures
        replay(events + later).ready(),
{
    lemma_ready_iff_both_recorded(events);
    lemma_ready_iff_both_recorded(events + later);
    let i = choose|i: int| 0 <= i < events.len() && (#[trigger] events[i]) is Sensor;
    let j = choose|j: int| 0 <= j < events.len() && (#[trigger] events[j]) is Valve;
    assert((events + later)[i] is Sensor);
    assert((events + later)[j] is Valve);
}

/// The latest sensor and valve readings of one pairing, and whether each has
/// been seen at all. A flag once set is never cleared.
#[derive(Clone, Copy, Debug)]
pub struct CoupledThermoValveAndSensorReadings {
    temp_sensor: TemperatureSensorReading,
    temp_sensor_initialized: bool,
    valve_actuator: ThermoValveReading,
    valve_actuator_initialized: bool,
}

impl View for CoupledThermoValveAndSensorReadings {
    type V = CoupledView;

    closed spec fn view(&self) -> CoupledView {
        CoupledView {
            sensor: self.temp_sensor,
            sensor_seen: self.temp_sensor_initialized,
            valve: self.valve_actuator,
            valve_seen: self.valve_actuator_initialized,
        }
    }
}

impl CoupledThermoValveAndSensorReadings {
    pub fn new() -> (r: Self)
        ensures
            r@ == CoupledView::initial(),
    {
        CoupledThermoValveAndSensorReadings {
            temp_sensor: TemperatureSensorReading { temperature: 0 },
            temp_sensor_initialized: false,
            valve_actuator: ThermoValveReading { local_temperature: 0, local_temperature_calibration: 0 },
            valve_actuator_initialized: false,
        }
    }

    pub fn set_temp_sensor(&mut self, temp_sensor: TemperatureSensorReading)
        ensures
            final(self)@ == old(self)@.with_sensor(temp_sensor),
    {
        self.temp_sensor = temp_sensor;
        self.temp_sensor_initialized = true;
    }

    pub fn get_temp_sensor(&self) -> (r: &TemperatureSensorReading)
        ensures
            *r == self@.sensor,
    {
        &self.temp_sensor
    }

    pub fn set_valve_actuator(&mut self, valve_actuator: ThermoValveReading)
        ensures
            final(self)@ == old(self)@.with_valve(valve_actuator),
    {
        self.valve_actuator = valve_actuator;
        self.valve_actuator_initialized = true;
    }

    pub fn get_valve_actuator(&self) -> (r: &ThermoValveReading)
        ensures
            *r == self@.valve,
    {
        &self.valve_actuator
    }

    /// Records one reading of either kind.
    pub fn record(&mut self, reading: Reading)
        ensures
            final(self)@ == old(self)@.record(reading),
    {
        match reading {
            Reading::Sensor(t) => self.set_temp_sensor(t),
            Reading::Valve(v) => self.set_valve_actuator(v),
        }
    }

    /// A sensor reading has been recorded at least once.
    pub fn temp_sensor_seen(&self) -> (r: bool)
        ensures
            r == self@.sensor_seen,
    {
        self.temp_sensor_initialized
    }

    /// A valve reading has been recorded at least once.
    pub fn valve_actuator_seen(&self) -> (r: bool)
        ensures
            r == self@.valve_seen,
    {
        self.valve_actuator_initialized
    }

    pub fn is_ready_to_be_calibrated(&self) -> (r: bool)
        ensures
            r == self@.ready(),
    {
        self.temp_sensor_initialized && self.valve_actuator_initialized
    }

    /// The offset to send to the valve now, if one is due.
    pub fn pending_correction(&self) -> (r: Option<i32>)
        ensures
            r matches Some(n) ==> self@.correction() == Some(n as int),
            r is None ==> self@.correction() is None,
    {
        if self.is_ready_to_be_calibrated() && self.temp_sensor.temperature > 0
            && self.valve_actuator.local_temperature > 0 {
            let old_calibration = self.valve_actuator.local_temperature_calibration;
            let n = compute_new_calibration(
                self.temp_sensor.temperature,
                old_calibration,
                self.valve_actuator.local_temperature,
            );
            if should_publish(n, old_calibration) {
                Some(n)
            } else {
                None
            }
        } else {
            None
        }
    }
}

} // verus!
