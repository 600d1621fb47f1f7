//! The device state store: the coupled readings of every configured device.
use vstd::prelude::*;

use crate::config::DeviceConfig;
use crate::model::{
    CoupledThermoValveAndSensorReadings, CoupledView, Reading, TemperatureSensorReading, ThermoValveReading,
};

verus! {

/// Entries in configuration order: a device identifier and its readings.
pub type Entries = Seq<(Seq<char>, CoupledView)>;

pub open spec fn has_key(entries: Entries, key: Seq<char>) -> bool {
    exists|i: int| 0 <= i < entries.len() && (#[trigger] entries[i]).0 == key
}

/// `i` is the first entry that belongs to `key`.
pub open spec fn is_first_index(entries: Entries, key: Seq<char>, i: int) -> bool {
    0 <= i < entries.len() && entries[i].0 == key && forall|k: int| 0 <= k < i ==> (#[trigger] entries[k]).0 != key
}

/// The readings of the first entry that belongs to `key`.
pub open spec fn lookup(entries: Entries, key: Seq<char>) -> Option<CoupledView> {
    if exists|i: int| is_first_index(entries, key, i) {
        Some(entries[choose|i: int| is_first_index(entries, key, i)].1)
    } else {
        None
    }
}

/// Every entry of `key` with `r` recorded; the other entries as they were.
pub open spec fn with_recorded(entries: Entries, key: Seq<char>, r: Reading) -> Entries {
    Seq::new(entries.len(), |i: int| if entries[i].0 == key { (entries[i].0, entries[i].1.record(r)) } else { entries[i] })
}

/// A store that has just been set up: one fresh entry per device, in order.
pub open spec fn initial_entries(devices: Seq<(String, DeviceConfig)>) -> Entries {
    Seq::new(devices.len(), |i: int| (devices[i].0@, CoupledView::initial()))
}

/// Once a reading is recorded for a device, looking the device up gives its
/// former readings with that reading recorded: nothing older is seen.
pub proof fn lemma_recorded_reading_is_seen(entries: Entries, key: Seq<char>, r: Reading)
    ensures
        lookup(with_recorded(entries, key, r), key) == match lookup(entries, key) {
            Some(c) => Some(c.record(r)),
            None => None,
        },
{
    let after = with_recorded(entries, key, r);
    if exists|i: int| is_first_index(entries, key, i) {
        let i = choose|i: int| is_first_index(entries, key, i);
        assert(is_first_index(after, key, i));
        let j = choose|j: int| is_first_index(after, key, j);
        if j < i {
            assert(after[j].0 == entries[j].0);
        } else if i < j {
            assert(after[i].0 == key);
        }
        assert(j == i);
    } else {
        if exists|j: int| is_first_index(after, key, j) {
            let j = choose|j: int| is_first_index(after, key, j);
            assert(after[j].0 == entries[j].0);
            assert forall|k: int| 0 <= k < j implies (#[trigger] entries[k]).0 != key by {
                assert(after[k].0 == entries[k].0);
            }
            assert(is_first_index(entries, key, j));
        }
    }
}

pub struct State {
    keys: Vec<String>,
    devices_state: Vec<CoupledThermoValveAndSensorReadings>,
}

impl View for State {
    type V = Entries;

    closed spec fn view(&self) -> Entries {
        Seq::new(self.keys@.len(), |i: int| (self.keys@[i]@, self.devices_state@[i]@))
    }
}

impl State {
    pub closed spec fn wf(&self) -> bool {
        self.keys.len() == self.devices_state.len()
    }

    pub fn new(devices: &Vec<(String, DeviceConfig)>) -> (r: Self)
        ensures
            r.wf(),
            r@ == initial_entries(devices@),
    {
        let mut keys: Vec<String> = Vec::new();
        let mut devices_state: Vec<CoupledThermoValveAndSensorReadings> = Vec::new();
        let mut i: usize = 0;
        while i < devices.len()
            invariant
                i <= devices.len(),
                keys.len() == i,
                devices_state.len() == i,
                forall|k: int| 0 <= k < i ==> (#[trigger] keys@[k])@ == devices@[k].0@,
                forall|k: int| 0 <= k < i ==> (#[trigger] devices_state@[k])@ == CoupledView::initial(),
            decreases devices.len() - i,
        {
            keys.push(devices[i].0.clone());
            devices_state.push(CoupledThermoValveAndSensorReadings::new());
            i = i + 1;
        }
        let r = State { keys, devices_state };
        assert(r@ =~= initial_entries(devices@));
        r
    }

    /// Records `reading` in every entry of `key`; tells whether there was one.
    pub fn update(&mut self, key: &String, reading: Reading) -> (found: bool)
        requires
            old(self).wf(),
        ensures
            final(self).wf(),
            found == has_key(old(self)@, key@),
            final(self)@ == with_recorded(old(self)@, key@, reading),
    {
        let ghost start = self@;
        let mut found = false;
        let mut i: usize = 0;
        while i < self.keys.len()
            invariant
                self.wf(),
                i <= self.keys.len(),
                self@.len() == start.len(),
                found == exists|k: int| 0 <= k < i && (#[trigger] start[k]).0 == key@,
                forall|k: int| 0 <= k < i ==> #[trigger] self@[k] == with_recorded(start, key@, reading)[k],
                forall|k: int| i <= k < start.len() ==> #[trigger] self@[k] == start[k],
            decreases self.keys.len() - i,
        {
            let ghost pre = self@;
            assert(pre[i as int] == start[i as int]);
            let matches = self.keys[i] == *key;
            if matches {
                let mut c = self.devices_state[i];
                c.record(reading);
                self.devices_state.set(i, c);
                found = true;
            }
            assert(self@[i as int] == with_recorded(start, key@, reading)[i as int]);
            assert forall|k: int| 0 <= k < self@.len() && k != i implies #[trigger] self@[k] == pre[k] by {}
            assert(matches ==> start[i as int].0 == key@);
            assert(!matches ==> start[i as int].0 != key@);
            i = i + 1;
        }
        assert(self@ =~= with_recorded(start, key@, reading));
        found
    }

    pub fn update_temp_sensor_value(&mut self, key: &String, temp_sensor: TemperatureSensorReading) -> (found: bool)
        requires
            old(self).wf(),
        ensures
            final(self).wf(),
            found == has_key(old(self)@, key@),
            final(self)@ == with_recorded(old(self)@, key@, Reading::Sensor(temp_sensor)),
    {
        self.update(key, Reading::Sensor(temp_sensor))
    }

    pub fn update_valve_actuator_value(&mut self, key: &String, valve_actuator: ThermoValveReading) -> (found: bool)
        requires
            old(self).wf(),
        ensures
            final(self).wf(),
            found == has_key(old(self)@, key@),
            final(self)@ == with_recorded(old(self)@, key@, Reading::Valve(valve_actuator)),
    {
        self.update(key, Reading::Valve(valve_actuator))
    }

    /// The readings of the first entry of `key`, copied.
    pub fn get_device_state(&self, key: &String) -> (r: Option<CoupledThermoValveAndSensorReadings>)
        requires
            self.wf(),
        ensures
            r matches Some(c) ==> lookup(self@, key@) == Some(c@),
            r is None ==> lookup(self@, key@) is None,
    {
        let mut i: usize = 0;
        while i < self.keys.len()
            invariant
                self.wf(),
                i <= self.keys.len(),
                forall|k: int| 0 <= k < i ==> (#[trigger] self@[k]).0 != key@,
            decreases self.keys.len() - i,
        {
            if self.keys[i] == *key {
                proof {
                    assert(is_first_index(self@, key@, i as int));
                    let j = choose|j: int| is_first_index(self@, key@, j);
                    assert(j == i as int);
                }
                return Some(self.devices_state[i]);
            }
            i = i + 1;
        }
        assert(!exists|j: int| is_first_index(self@, key@, j));
        None
    }

    /// A copy of every entry, in configuration order.
    pub fn get_devices_state(&self) -> (r: Vec<(String, CoupledThermoValveAndSensorReadings)>)
        requires
            self.wf(),
        ensures
            r.len() == self@.len(),
            forall|i: int| 0 <= i < r.len() ==> (#[trigger] r@[i]).0@ == self@[i].0 && r@[i].1@ == self@[i].1,
    {
        let mut r: Vec<(String, CoupledThermoValveAndSensorReadings)> = Vec::new();
        let mut i: usize = 0;
        while i < self.keys.len()
            invariant
                self.wf(),
                i <= self.keys.len(),
                r.len() == i,
                forall|k: int| 0 <= k < i ==> (#[trigger] r@[k]).0@ == self@[k].0 && r@[k].1@ == self@[k].1,
            decreases self.keys.len() - i,
        {
            r.push((self.keys[i].clone(), self.devices_state[i]));
            i = i + 1;
        }
        r
    }
}

} // verus!
