//! The shape of the configuration, and the subscription list derived from it.
use vstd::prelude::*;

use crate::topic::{join_segments, joined};

verus! {

/// How to reach the broker, and the topic under which all devices live.
#[derive(Clone, Debug)]
pub struct MqttConfig {
    pub server: String,
    pub host: String,
    pub base_topic: String,
    pub port: u16,
    pub username: Option<String>,
    pub password: Option<String>,
    pub qos_value: i32,
}

/// One pairing: the topic suffixes of its reference sensor and of its valve.
#[derive(Clone, Debug)]
pub struct DeviceConfig {
    pub temperature_sensor: String,
    pub valve_actuator: String,
}

/// A device as the contracts see it: its identifier, sensor suffix and valve suffix.
pub open spec fn device_view(d: (String, DeviceConfig)) -> (Seq<char>, Seq<char>, Seq<char>) {
    (d.0@, d.1.temperature_sensor@, d.1.valve_actuator@)
}

pub open spec fn devices_view(ds: Seq<(String, DeviceConfig)>) -> Seq<(Seq<char>, Seq<char>, Seq<char>)> {
    ds.map_values(|d: (String, DeviceConfig)| device_view(d))
}

/// The topics to subscribe to: every sensor topic, in device order, then every valve topic.
pub open spec fn subscription_topics(base_topic: Seq<char>, ds: Seq<(Seq<char>, Seq<char>, Seq<char>)>) -> Seq<Seq<char>> {
    ds.map_values(|d: (Seq<char>, Seq<char>, Seq<char>)| joined(base_topic, d.1))
        + ds.map_values(|d: (Seq<char>, Seq<char>, Seq<char>)| joined(base_topic, d.2))
}

/// The configuration the service runs with: the broker, the devices, and one
/// subscription (with its quality of service) per sensor and per valve.
pub struct RunningConfig {
    pub mqtt: MqttConfig,
    pub devices: Vec<(String, DeviceConfig)>,
    pub topics: Vec<String>,
    pub qos: Vec<i32>,
}

impl RunningConfig {
    pub fn new(mqtt: MqttConfig, devices: Vec<(String, DeviceConfig)>) -> (r: RunningConfig)
        requires
            2 * devices.len() <= usize::MAX,
        ensures
            r.mqtt == mqtt,
            r.devices@ == devices@,
            r.topics@.map_values(|t: String| t@) == subscription_topics(mqtt.base_topic@, devices_view(devices@)),
            r.qos@ == Seq::new(2 * devices.len() as nat, |i: int| mqtt.qos_value),
    {
        let ghost base = mqtt.base_topic@;
        let mut topics: Vec<String> = Vec::new();
        let mut i: usize = 0;
        while i < devices.len()
            invariant
                i <= devices.len(),
                base == mqtt.base_topic@,
                topics.len() == i,
                forall|k: int| 0 <= k < i ==> #[trigger] topics@[k]@ == joined(base, devices@[k].1.temperature_sensor@),
            decreases devices.len() - i,
        {
            let t = join_segments(mqtt.base_topic.as_str(), devices[i].1.temperature_sensor.as_str());
            topics.push(t);
            i = i + 1;
        }
        let n = devices.len();
        let mut j: usize = 0;
        while j < devices.len()
            invariant
                j <= devices.len(),
                n == devices.len(),
                base == mqtt.base_topic@,
                topics.len() == n + j,
                forall|k: int| 0 <= k < n ==> #[trigger] topics@[k]@ == joined(base, devices@[k].1.temperature_sensor@),
                forall|k: int| 0 <= k < j ==> #[trigger] topics@[n + k]@ == joined(base, devices@[k].1.valve_actuator@),
            decreases devices.len() - j,
        {
            let t = join_segments(mqtt.base_topic.as_str(), devices[j].1.valve_actuator.as_str());
            topics.push(t);
            assert(topics@[n + j]@ == joined(base, devices@[j as int].1.valve_actuator@));
            j = j + 1;
        }
        proof {
            let dv = devices_view(devices@);
            let expected = subscription_topics(base, dv);
            let got = topics@.map_values(|t: String| t@);
            assert forall|k: int| 0 <= k < got.len() implies got[k] == expected[k] by {
                if k < n {
                    assert(dv[k] == device_view(devices@[k]));
                } else {
                    assert(dv[k - n] == device_view(devices@[k - n]));
                    assert(topics@[n + (k - n)]@ == joined(base, devices@[k - n].1.valve_actuator@));
                }
            }
            assert(got =~= expected);
        }
        let mut qos: Vec<i32> = Vec::new();
        let mut k: usize = 0;
        while k < topics.len()
            invariant
                k <= topics.len(),
                topics.len() == 2 * devices.len(),
                qos@ == Seq::new(k as nat, |i: int| mqtt.qos_value),
            decreases topics.len() - k,
        {
            qos.push(mqtt.qos_value);
            assert(qos@ =~= Seq::new((k + 1) as nat, |i: int| mqtt.qos_value));
            k = k + 1;
        }
        RunningConfig { mqtt, devices, topics, qos }
    }
}

} // verus!
