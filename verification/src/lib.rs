//! Sensor decoding, telemetry encoding and task scheduling logic for the
//! Pure Flow environmental monitor.

pub mod ble;
pub mod domain;
pub mod i2c_bus;
pub mod sensors;
pub mod tasks;
pub mod transport;
