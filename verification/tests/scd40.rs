use pure_flow::domain::sensor_data::RawCO2SensorData;
use pure_flow::sensors::scd40::{
    bus_result, data_ready_response, decode, is_data_ready, read_response, DecodeError, Error, Scd40,
    CMD_GET_DATA_READY_STATUS, CMD_READ_MEASUREMENT, CMD_START_PERIODIC_MEASUREMENT, SCD40_ADDR,
};

fn temperature_celsius(raw: u16) -> f32 {
    -45.0 + 175.0 * (raw as f32) / 65535.0
}

fn humidity_percent(raw: u16) -> f32 {
    100.0 * (raw as f32) / 65535.0
}

#[test]
fn scd40_decodes_known_sample() {
    // CO2 = 500 ppm, temp raw = 27067 (~27.28C), RH raw = 26214 (40%)
    let buffer = [0x01, 0xf4, 0x33, 0x69, 0xbb, 0x42, 0x66, 0x66, 0x93];
    let reading = decode(&buffer).unwrap();
    assert_eq!(reading.co2_ppm, 500);
    assert!((temperature_celsius(reading.temperature_raw) - 27.28).abs() < 0.05);
    assert!((humidity_percent(reading.humidity_raw) - 40.0).abs() < 0.05);
}

#[test]
fn scd40_decode_gives_raw_words() {
    let buffer = [0x01, 0xf4, 0x33, 0x69, 0xbb, 0x42, 0x66, 0x66, 0x93];
    assert_eq!(
        decode(&buffer),
        Ok(RawCO2SensorData { co2_ppm: 500, temperature_raw: 27067, humidity_raw: 26214 })
    );
}

#[test]
fn scd40_decode_reports_first_bad_crc() {
    let good = [0x01, 0xf4, 0x33, 0x69, 0xbb, 0x42, 0x66, 0x66, 0x93];

    let mut co2_bad = good;
    co2_bad[2] ^= 1;
    co2_bad[5] ^= 1;
    assert_eq!(decode(&co2_bad), Err(DecodeError::Co2CrcMismatch));

    let mut temp_bad = good;
    temp_bad[4] ^= 0x80;
    assert_eq!(decode(&temp_bad), Err(DecodeError::TemperatureCrcMismatch));

    let mut rh_bad = good;
    rh_bad[8] = 0;
    assert_eq!(decode(&rh_bad), Err(DecodeError::HumidityCrcMismatch));
}

#[test]
fn scd40_data_ready_uses_low_eleven_bits() {
    assert_eq!(is_data_ready(&[0x00, 0x06, 0x27]), Ok(true));
    assert_eq!(is_data_ready(&[0x00, 0x00, 0x81]), Ok(false));
    // 0x8000: only bits above the low 11 are set.
    assert_eq!(is_data_ready(&[0x80, 0x00, 0xa2]), Ok(false));
    assert_eq!(is_data_ready(&[0x00, 0x06, 0x28]), Err(DecodeError::DataReadyCrcMismatch));
}

#[test]
fn scd40_operation_results() {
    assert_eq!(data_ready_response(&[0x00, 0x01, 0xb0]), Ok(true));
    assert_eq!(
        data_ready_response(&[0x00, 0x01, 0xb1]),
        Err(Error::Decode(DecodeError::DataReadyCrcMismatch))
    );
    let buffer = [0x01, 0xf4, 0x33, 0x69, 0xbb, 0x42, 0x66, 0x66, 0x00];
    assert_eq!(read_response(&buffer), Err(Error::Decode(DecodeError::HumidityCrcMismatch)));
    let failed: Result<(), ()> = Err(());
    assert_eq!(bus_result(failed), Err(Error::I2c));
    assert_eq!(bus_result::<u8, ()>(Ok(3)), Ok(3));
}

#[test]
fn scd40_driver_keeps_bus() {
    let mut sensor = Scd40::new(41u32);
    *sensor.bus_mut() += 1;
    assert_eq!(*sensor.bus_mut(), 42);
}

#[test]
fn scd40_command_set() {
    assert_eq!(SCD40_ADDR, 0x62);
    assert_eq!(CMD_START_PERIODIC_MEASUREMENT, [0x21, 0xB1]);
    assert_eq!(CMD_GET_DATA_READY_STATUS, [0xE4, 0xB8]);
    assert_eq!(CMD_READ_MEASUREMENT, [0xEC, 0x05]);
}
