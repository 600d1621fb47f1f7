//! Routes a bus message to the device it belongs to and applies it to the store.
use vstd::prelude::*;

use crate::config::{devices_view, device_view, DeviceConfig};
use crate::model::{CoupledView, Reading, TemperatureSensorReading, ThermoValveReading};
use crate::state::{has_key, lookup, with_recorded, Entries, State};
use crate::topic::{occurs_in, str_contains};

verus! {

/// Configured devices as the contracts see them: identifier, sensor suffix, valve suffix.
pub type Devices = Seq<(Seq<char>, Seq<char>, Seq<char>)>;

/// The suffix of a device's sensor, or of its valve when `valve` holds.
pub open spec fn suffix_of(d: (Seq<char>, Seq<char>, Seq<char>), valve: bool) -> Seq<char> {
    if valve { d.2 } else { d.1 }
}

/// The last device whose sensor (or valve) suffix occurs in `topic`.
pub open spec fn last_match(ds: Devices, topic: Seq<char>, valve: bool) -> Option<int>
    decreases ds.len(),
{
    if ds.len() == 0 {
        None
    } else if occurs_in(suffix_of(ds.last(), valve), topic) {
        Some(ds.len() - 1)
    } else {
        last_match(ds.drop_last(), topic, valve)
    }
}

/// Where a topic goes: a device and whether it is that device's valve. A
/// sensor match takes precedence over a valve match.
pub open spec fn route_of(ds: Devices, topic: Seq<char>) -> Option<(int, bool)> {
    match last_match(ds, topic, false) {
        Some(i) => Some((i, false)),
        None => match last_match(ds, topic, true) {
            Some(i) => Some((i, true)),
            None => None,
        },
    }
}

/// A payload decoded both ways: as a sensor reading and as a valve reading,
/// each present only where the payload has that shape.
pub struct DecodedPayload {
    pub as_sensor: Option<TemperatureSensorReading>,
    pub as_valve: Option<ThermoValveReading>,
}

/// The reading a payload gives for a sensor topic, or for a valve topic.
pub open spec fn reading_for(p: DecodedPayload, valve: bool) -> Option<Reading> {
    if valve {
        match p.as_valve {
            Some(v) => Some(Reading::Valve(v)),
            None => None,
        }
    } else {
        match p.as_sensor {
            Some(t) => Some(Reading::Sensor(t)),
            None => None,
        }
    }
}

#[derive(Clone, Copy, Debug, PartialEq, Eq)]
pub enum HandleError {
    /// The topic belongs to a device, but the payload is not of the expected shape.
    DecodeError,
    /// The topic belongs to a device that the store holds no entry for.
    StoreKeyMissing,
}

/// A new offset to send to a device's valve.
#[derive(Clone, Debug)]
pub struct CalibrationUpdate {
    pub device_id: String,
    pub valve_actuator: String,
    pub calibration: i32,
}

/// What the contracts see of a handling result: identifier, valve suffix and offset.
pub open spec fn outcome_view(r: Result<Option<CalibrationUpdate>, HandleError>) -> Result<
    Option<(Seq<char>, Seq<char>, int)>,
    HandleError,
> {
    match r {
        Ok(Some(u)) => Ok(Some((u.device_id@, u.valve_actuator@, u.calibration as int))),
        Ok(None) => Ok(None),
        Err(e) => Err(e),
    }
}

/// The store after a message on `topic` with payload `p`.
pub open spec fn handled_state(ds: Devices, topic: Seq<char>, p: DecodedPayload, entries: Entries) -> Entries {
    match route_of(ds, topic) {
        Some((i, valve)) => match reading_for(p, valve) {
            Some(r) => with_recorded(entries, ds[i].0, r),
            None => entries,
        },
        None => entries,
    }
}

/// The result of handling a message on `topic` with payload `p`: an unknown
/// topic is ignored; a payload of the wrong shape, or a device missing from
/// the store, is an error; otherwise the reading is recorded and the device's
/// due correction, if any, is returned.
pub open spec fn handled_outcome(ds: Devices, topic: Seq<char>, p: DecodedPayload, entries: Entries) -> Result<
    Option<(Seq<char>, Seq<char>, int)>,
    HandleError,
> {
    match route_of(ds, topic) {
        None => Ok(None),
        Some((i, valve)) => match reading_for(p, valve) {
            None => Err(HandleError::DecodeError),
            Some(r) => if !has_key(entries, ds[i].0) {
                Err(HandleError::StoreKeyMissing)
            } else {
                match lookup(with_recorded(entries, ds[i].0, r), ds[i].0) {
                    Some(c) => match c.correction() {
                        Some(n) => Ok(Some((ds[i].0, ds[i].2, n))),
                        None => Ok(None),
                    },
                    None => Ok(None),
                }
            },
        },
    }
}

/// The device `last_match` picks is a device whose suffix occurs in the
/// topic, and there is one whenever any device's suffix occurs in it.
pub proof fn lemma_last_match_finds(ds: Devices, topic: Seq<char>, valve: bool)
    ensures
        last_match(ds, topic, valve) matches Some(i) ==> 0 <= i < ds.len() && occurs_in(suffix_of(ds[i], valve), topic),
        last_match(ds, topic, valve) is None <==> forall|k: int| 0 <= k < ds.len() ==> !occurs_in(suffix_of(#[trigger] ds[k], valve), topic),
    decreases ds.len(),
{
    if ds.len() > 0 {
        let prev = ds.drop_last();
        lemma_last_match_finds(prev, topic, valve);
        assert forall|k: int| 0 <= k < prev.len() implies prev[k] == ds[k] by {}
        assert(ds.last() == ds[ds.len() - 1]);
    }
}

/// No correction comes out of a message unless the device is then ready and
/// both its sensor temperature and its valve's displayed temperature are
/// above zero.
pub proof fn lemma_no_correction_before_ready(ds: Devices, topic: Seq<char>, p: DecodedPayload, entries: Entries)
    ensures
        handled_outcome(ds, topic, p, entries) matches Ok(Some(u)) ==> {
            &&& route_of(ds, topic) matches Some((i, valve))
            &&& lookup(handled_state(ds, topic, p, entries), ds[i].0) matches Some(c)
            &&& c.ready()
            &&& c.sensor.temperature > 0
            &&& c.valve.local_temperature > 0
            &&& c.correction() == Some(u.2)
        },
{
}

/// A topic in which some device's sensor suffix occurs is routed to a sensor
/// whose suffix occurs in it, and handling it changes no valve reading and no
/// valve flag of any device.
pub proof fn lemma_sensor_topic_updates_sensor_only(
    ds: Devices,
    topic: Seq<char>,
    p: DecodedPayload,
    entries: Entries,
    d: int,
)
    requires
        0 <= d < ds.len(),
        occurs_in(ds[d].1, topic),
    ensures
        route_of(ds, topic) matches Some((j, valve)) && !valve && 0 <= j < ds.len() && occurs_in(ds[j].1, topic),
        handled_state(ds, topic, p, entries).len() == entries.len(),
        forall|k: int|
            0 <= k < entries.len() ==> {
                let after = #[trigger] handled_state(ds, topic, p, entries)[k];
                &&& after.0 == entries[k].0
                &&& after.1.valve == entries[k].1.valve
                &&& after.1.valve_seen == entries[k].1.valve_seen
            },
{
    lemma_last_match_finds(ds, topic, false);
    assert(occurs_in(suffix_of(ds[d], false), topic));
}

/// The device registry: which topic suffixes belong to which device.
pub struct MessageHandler {
    devices: Vec<(String, DeviceConfig)>,
}

impl View for MessageHandler {
    type V = Devices;

    closed spec fn view(&self) -> Devices {
        devices_view(self.devices@)
    }
}

impl MessageHandler {
    pub fn new(devices: Vec<(String, DeviceConfig)>) -> (r: Self)
        ensures
            r@ == devices_view(devices@),
    {
        MessageHandler { devices }
    }

    /// The index of the last device whose sensor (or valve) suffix occurs in `topic`.
    fn find_device(&self, topic: &str, valve: bool) -> (r: Option<usize>)
        ensures
            r matches Some(i) ==> last_match(self@, topic@, valve) == Some(i as int),
            r is None ==> last_match(self@, topic@, valve) is None,
            r matches Some(i) ==> i < self@.len(),
    {
        let mut found: Option<usize> = None;
        let mut i: usize = 0;
        while i < self.devices.len()
            invariant
                i <= self.devices.len(),
                self@.len() == self.devices.len(),
                found matches Some(k) ==> k < i && last_match(self@.take(i as int), topic@, valve) == Some(k as int),
                found is None ==> last_match(self@.take(i as int), topic@, valve) is None,
            decreases self.devices.len() - i,
        {
            let suffix = if valve {
                self.devices[i].1.valve_actuator.as_str()
            } else {
                self.devices[i].1.temperature_sensor.as_str()
            };
            let hit = str_contains(topic, suffix);
            proof {
                let ds = self@;
                assert(ds[i as int] == device_view(self.devices@[i as int]));
                assert(ds.take(i + 1).drop_last() =~= ds.take(i as int));
                assert(ds.take(i + 1).last() == ds[i as int]);
                assert(ds.take(i + 1).len() == i + 1);
            }
            if hit {
                found = Some(i);
            }
            i = i + 1;
        }
        assert(self@.take(self@.len() as int) =~= self@);
        found
    }

    pub fn find_key_for_temp_sensor(&self, topic: &str) -> (r: Option<String>)
        ensures
            r matches Some(k) ==> last_match(self@, topic@, false) matches Some(i) && k@ == self@[i].0,
            r is None ==> last_match(self@, topic@, false) is None,
    {
        match self.find_device(topic, false) {
            Some(i) => {
                assert(self@[i as int] == device_view(self.devices@[i as int]));
                Some(self.devices[i].0.clone())
            },
            None => None,
        }
    }

    pub fn find_key_for_valve_actuator(&self, topic: &str) -> (r: Option<String>)
        ensures
            r matches Some(k) ==> last_match(self@, topic@, true) matches Some(i) && k@ == self@[i].0,
            r is None ==> last_match(self@, topic@, true) is None,
    {
        match self.find_device(topic, true) {
            Some(i) => {
                assert(self@[i as int] == device_view(self.devices@[i as int]));
                Some(self.devices[i].0.clone())
            },
            None => None,
        }
    }

    /// Applies a message on `topic` to the store and returns the offset to
    /// publish, if one is due.
    pub fn handle_message(&self, payload: DecodedPayload, topic: &str, state: &mut State) -> (r: Result<
        Option<CalibrationUpdate>,
        HandleError,
    >)
        requires
            old(state).wf(),
        ensures
            final(state).wf(),
            final(state)@ == handled_state(self@, topic@, payload, old(state)@),
            outcome_view(r) == handled_outcome(self@, topic@, payload, old(state)@),
    {
        let (i, valve) = match self.find_device(topic, false) {
            Some(i) => (i, false),
            None => match self.find_device(topic, true) {
                Some(i) => (i, true),
                None => return Ok(None),
            },
        };
        assert(self@[i as int] == device_view(self.devices@[i as int]));
        let reading = if valve {
            match payload.as_valve {
                Some(v) => Reading::Valve(v),
                None => return Err(HandleError::DecodeError),
            }
        } else {
            match payload.as_sensor {
                Some(t) => Reading::Sensor(t),
                None => return Err(HandleError::DecodeError),
            }
        };
        let key = &self.devices[i].0;
        if !state.update(key, reading) {
            return Err(HandleError::StoreKeyMissing);
        }
        match state.get_device_state(key) {
            Some(c) => match c.pending_correction() {
                Some(n) => Ok(
                    Some(
                        CalibrationUpdate {
                            device_id: key.clone(),
                            valve_actuator: self.devices[i].1.valve_actuator.clone(),
                            calibration: n,
                        },
                    ),
                ),
                None => Ok(None),
            },
            None => Ok(None),
        }
    }
}

} // verus!
