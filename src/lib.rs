//! Keeps the displayed temperature of a thermostat valve in line with an
//! independent reference sensor.
//!
//! Temperatures are carried as whole hundredths of a degree (`2160` is 21.6°).
pub mod calibrator;
pub mod config;
pub mod message_handler;
pub mod model;
pub mod state;
pub mod topic;

pub use config::{DeviceConfig, MqttConfig, RunningConfig};
