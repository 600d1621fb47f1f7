use thermo_calibrator::config::{DeviceConfig, MqttConfig, RunningConfig};
use thermo_calibrator::message_handler::{DecodedPayload, HandleError, MessageHandler};
use thermo_calibrator::model::{CoupledThermoValveAndSensorReadings, TemperatureSensorReading, ThermoValveReading};
use thermo_calibrator::state::State;
use thermo_calibrator::topic::calibration_topic;

fn devices() -> Vec<(String, DeviceConfig)> {
    vec![
        (
            "living".to_string(),
            DeviceConfig { temperature_sensor: "living_sensor".to_string(), valve_actuator: "living_valve".to_string() },
        ),
        (
            "office".to_string(),
            DeviceConfig { temperature_sensor: "office_sensor".to_string(), valve_actuator: "office_valve".to_string() },
        ),
    ]
}

fn sensor(t: i32) -> DecodedPayload {
    DecodedPayload { as_sensor: Some(TemperatureSensorReading { temperature: t }), as_valve: None }
}

fn valve(shown: i32, offset: i32) -> DecodedPayload {
    DecodedPayload {
        as_sensor: None,
        as_valve: Some(ThermoValveReading { local_temperature: shown, local_temperature_calibration: offset }),
    }
}

fn device(state: &State, id: &str) -> CoupledThermoValveAndSensorReadings {
    state.get_device_state(&id.to_string()).unwrap()
}

#[test]
fn ready_only_after_both_readings() {
    let mut c = CoupledThermoValveAndSensorReadings::new();
    assert!(!c.is_ready_to_be_calibrated());
    c.set_temp_sensor(TemperatureSensorReading { temperature: 2000 });
    assert!(!c.is_ready_to_be_calibrated());
    c.set_temp_sensor(TemperatureSensorReading { temperature: 0 });
    assert!(!c.is_ready_to_be_calibrated());
    c.set_valve_actuator(ThermoValveReading { local_temperature: 1800, local_temperature_calibration: 0 });
    assert!(c.is_ready_to_be_calibrated());
    c.set_valve_actuator(ThermoValveReading { local_temperature: 0, local_temperature_calibration: 0 });
    c.set_temp_sensor(TemperatureSensorReading { temperature: -100 });
    assert!(c.is_ready_to_be_calibrated());
    assert_eq!(c.get_temp_sensor().temperature, -100);
    assert_eq!(c.get_valve_actuator().local_temperature, 0);
}

#[test]
fn no_correction_until_both_readings_are_positive() {
    let handler = MessageHandler::new(devices());
    let mut state = State::new(&devices());
    assert_eq!(handler.handle_message(sensor(2160), "home/living_sensor", &mut state).unwrap().is_none(), true);
    assert_eq!(handler.handle_message(valve(0, 100), "home/living_valve", &mut state).unwrap().is_none(), true);
    assert_eq!(handler.handle_message(valve(1800, 100), "home/living_valve", &mut state).unwrap().is_none(), false);
    assert_eq!(handler.handle_message(sensor(0), "home/living_sensor", &mut state).unwrap().is_none(), true);
    assert_eq!(handler.handle_message(sensor(-300), "home/living_sensor", &mut state).unwrap().is_none(), true);
}

#[test]
fn correction_published_with_valve_suffix() {
    let handler = MessageHandler::new(devices());
    let mut state = State::new(&devices());
    handler.handle_message(sensor(2160), "home/living_sensor", &mut state).unwrap();
    let update = handler.handle_message(valve(1800, 100), "home/living_valve", &mut state).unwrap().unwrap();
    assert_eq!(update.device_id, "living");
    assert_eq!(update.valve_actuator, "living_valve");
    assert_eq!(update.calibration, 450);
    assert_eq!(
        calibration_topic("home", &update.valve_actuator),
        "home/living_valve/set/local_temperature_calibration"
    );
}

#[test]
fn small_drift_is_not_published() {
    let handler = MessageHandler::new(devices());
    let mut state = State::new(&devices());
    handler.handle_message(sensor(2020), "home/office_sensor", &mut state).unwrap();
    // 20.2 - (20.0 - 1.0) = 1.2 => 1.0, the offset already applied
    assert!(handler.handle_message(valve(2000, 100), "home/office_valve", &mut state).unwrap().is_none());
    // applied 0.5, new 1.0: a full step away
    let update = handler.handle_message(valve(1950, 50), "home/office_valve", &mut state).unwrap().unwrap();
    assert_eq!(update.calibration, 100);
    assert_eq!(update.device_id, "office");
}

#[test]
fn sensor_topic_updates_sensor_only() {
    let handler = MessageHandler::new(devices());
    let mut state = State::new(&devices());
    handler.handle_message(valve(1900, 50), "home/office_valve", &mut state).unwrap();
    handler.handle_message(sensor(2150), "home/office_sensor", &mut state).unwrap();
    let office = device(&state, "office");
    assert_eq!(office.get_temp_sensor().temperature, 2150);
    assert_eq!(office.get_valve_actuator().local_temperature, 1900);
    assert_eq!(office.get_valve_actuator().local_temperature_calibration, 50);
    let living = device(&state, "living");
    assert!(!living.is_ready_to_be_calibrated());
    assert_eq!(living.get_temp_sensor().temperature, 0);
}

#[test]
fn unknown_topic_is_ignored() {
    let handler = MessageHandler::new(devices());
    let mut state = State::new(&devices());
    assert!(handler.handle_message(sensor(2000), "home/kitchen", &mut state).unwrap().is_none());
    assert!(!device(&state, "living").is_ready_to_be_calibrated());
    assert_eq!(device(&state, "living").get_temp_sensor().temperature, 0);
}

#[test]
fn wrong_payload_shape_is_decode_error() {
    let handler = MessageHandler::new(devices());
    let mut state = State::new(&devices());
    assert_eq!(
        handler.handle_message(valve(1800, 0), "home/living_sensor", &mut state).err(),
        Some(HandleError::DecodeError)
    );
    assert_eq!(device(&state, "living").get_temp_sensor().temperature, 0);
}

#[test]
fn device_missing_from_store() {
    let handler = MessageHandler::new(devices());
    let mut state = State::new(&Vec::new());
    assert_eq!(
        handler.handle_message(sensor(1800), "home/living_sensor", &mut state).err(),
        Some(HandleError::StoreKeyMissing)
    );
    assert!(!state.update_temp_sensor_value(&"living".to_string(), TemperatureSensorReading { temperature: 1 }));
}

#[test]
fn last_matching_device_wins() {
    let handler = MessageHandler::new(devices());
    assert_eq!(handler.find_key_for_temp_sensor("home/living_sensor"), Some("living".to_string()));
    assert_eq!(handler.find_key_for_temp_sensor("home/office_valve"), None);
    assert_eq!(handler.find_key_for_valve_actuator("home/office_valve"), Some("office".to_string()));
    assert_eq!(handler.find_key_for_temp_sensor("living_sensor+office_sensor"), Some("office".to_string()));
}

#[test]
fn snapshot_shows_latest_update() {
    let mut state = State::new(&devices());
    assert!(state.update_temp_sensor_value(&"office".to_string(), TemperatureSensorReading { temperature: 2100 }));
    assert!(state.update_valve_actuator_value(
        &"office".to_string(),
        ThermoValveReading { local_temperature: 1900, local_temperature_calibration: 150 }
    ));
    assert!(state.update_temp_sensor_value(&"office".to_string(), TemperatureSensorReading { temperature: 2200 }));
    let snapshot = state.get_devices_state();
    assert_eq!(snapshot.len(), 2);
    assert_eq!(snapshot[0].0, "living");
    assert!(!snapshot[0].1.is_ready_to_be_calibrated());
    assert_eq!(snapshot[1].0, "office");
    assert!(snapshot[1].1.is_ready_to_be_calibrated());
    assert_eq!(snapshot[1].1.get_temp_sensor().temperature, 2200);
    assert_eq!(snapshot[1].1.get_valve_actuator().local_temperature_calibration, 150);
}

#[test]
fn subscriptions_cover_sensors_then_valves() {
    let mqtt = MqttConfig {
        server: "broker".to_string(),
        host: "localhost".to_string(),
        base_topic: "zigbee2mqtt".to_string(),
        port: 1883,
        username: None,
        password: None,
        qos_value: 1,
    };
    let config = RunningConfig::new(mqtt, devices());
    assert_eq!(
        config.topics,
        vec![
            "zigbee2mqtt/living_sensor".to_string(),
            "zigbee2mqtt/office_sensor".to_string(),
            "zigbee2mqtt/living_valve".to_string(),
            "zigbee2mqtt/office_valve".to_string(),
        ]
    );
    assert_eq!(config.qos, vec![1, 1, 1, 1]);
    assert_eq!(config.devices.len(), 2);
}
