//! Measurement records passed between the sensor drivers, the fusion of
//! readings and the telemetry encoder.

use vstd::prelude::*;

verus! {

/// The latest known value of each environmental quantity; `None` where no
/// sensor has reported it yet.
///
/// Humidity and temperature are kept in the whole units that the telemetry
/// packet carries (percent and degrees Celsius, truncated toward zero and
/// saturated to the field's range).
#[derive(Clone, Copy, Debug, PartialEq, Eq, Structural)]
pub struct EnvironmentData {
    pub co2_ppm: Option<u16>,
    pub hcho_ppb: Option<u16>,
    pub pm1_0: Option<u16>,
    pub pm2_5: Option<u16>,
    pub pm4_0: Option<u16>,
    pub pm10: Option<u16>,
    pub voc_index: Option<u16>,
    pub nox_index: Option<u16>,
    pub temperature_celsius: Option<i16>,
    pub humidity_percent: Option<u16>,
}

impl EnvironmentData {
    /// A record in which nothing has been measured yet.
    pub fn new() -> (data: Self)
        ensures
            data.co2_ppm is None,
            data.hcho_ppb is None,
            data.pm1_0 is None,
            data.pm2_5 is None,
            data.pm4_0 is None,
            data.pm10 is None,
            data.voc_index is None,
            data.nox_index is None,
            data.temperature_celsius is None,
            data.humidity_percent is None,
    {
        EnvironmentData {
            co2_ppm: None,
            hcho_ppb: None,
            pm1_0: None,
            pm2_5: None,
            pm4_0: None,
            pm10: None,
            voc_index: None,
            nox_index: None,
            humidity_percent: None,
            temperature_celsius: None,
        }
    }
}

/// An SFA30 measurement as sent by the sensor: formaldehyde in ppb,
/// humidity in 1/100 %RH and temperature in 1/200 degrees Celsius, each a
/// signed 16-bit word.
#[derive(Clone, Copy, Debug, PartialEq, Eq, Structural)]
pub struct RawHCOHSensorData {
    pub hcho_ppb: i16,
    pub humidity_raw: i16,
    pub temperature_raw: i16,
}

/// An SCD40 measurement as sent by the sensor: CO2 in ppm, and temperature
/// and humidity as 16-bit ticks (T = -45 + 175 * ticks / 65535 degrees
/// Celsius, RH = 100 * ticks / 65535 %).
#[derive(Clone, Copy, Debug, PartialEq, Eq, Structural)]
pub struct RawCO2SensorData {
    pub co2_ppm: u16,
    pub temperature_raw: u16,
    pub humidity_raw: u16,
}

/// A SEN55 measurement as sent by the sensor: particulate matter in
/// 1/10 ug/m3, humidity in 1/100 %RH, temperature in 1/200 degrees Celsius,
/// VOC and NOx indices in 1/10.
#[derive(Clone, Copy, Debug, PartialEq, Eq, Structural)]
pub struct RawAQISensorData {
    pub pm1_0_raw: u16,
    pub pm2_5_raw: u16,
    pub pm4_0_raw: u16,
    pub pm10_raw: u16,
    pub humidity_raw: u16,
    pub temperature_raw: u16,
    pub voc_raw: u16,
    pub nox_raw: u16,
}

} // verus!
