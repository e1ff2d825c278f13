use pure_flow::domain::sensor_data::RawHCOHSensorData;
use pure_flow::sensors::sfa30::{
    bus_result, decode, read_response, DecodeError, Error, Sfa30, CMD_READ_VALUES,
    CMD_START_CONTINUOUS, SFA30_ADDR,
};

#[test]
fn sfa30_decodes_known_sample() {
    let buffer = [0, 55, 211, 21, 99, 112, 25, 126, 203];
    let reading = decode(&buffer).unwrap();
    assert!(((reading.hcho_ppb as f32) - 55.0).abs() < 0.01);
    assert!(((reading.humidity_raw as f32) / 100.0 - 54.75).abs() < 0.01);
    assert!(((reading.temperature_raw as f32) / 200.0 - 32.63).abs() < 0.01);
}

#[test]
fn sfa30_decode_gives_signed_words() {
    let buffer = [0, 55, 211, 21, 99, 112, 25, 126, 203];
    assert_eq!(
        decode(&buffer),
        Ok(RawHCOHSensorData { hcho_ppb: 55, humidity_raw: 5475, temperature_raw: 6526 })
    );
    // 0xffff is -1 and 0x8000 is -32768.
    let negative = [0xff, 0xff, 0xac, 0x80, 0x00, 0xa2, 0x00, 0x00, 0x81];
    assert_eq!(
        decode(&negative),
        Ok(RawHCOHSensorData { hcho_ppb: -1, humidity_raw: -32768, temperature_raw: 0 })
    );
}

#[test]
fn sfa30_decode_reports_first_bad_crc() {
    let good = [0, 55, 211, 21, 99, 112, 25, 126, 203];
    let mut bad = good;
    bad[0] = 1;
    assert_eq!(decode(&bad), Err(DecodeError::HchoCrcMismatch));
    let mut bad = good;
    bad[5] = 0;
    assert_eq!(decode(&bad), Err(DecodeError::HumidityCrcMismatch));
    let mut bad = good;
    bad[7] = 0;
    assert_eq!(decode(&bad), Err(DecodeError::TemperatureCrcMismatch));
    assert_eq!(read_response(&bad), Err(Error::Decode(DecodeError::TemperatureCrcMismatch)));
}

#[test]
fn sfa30_operation_results() {
    assert_eq!(bus_result::<(), &str>(Err("nack")), Err(Error::I2c));
    assert_eq!(bus_result::<u8, &str>(Ok(9)), Ok(9));
    let mut sensor = Sfa30::new(5u8);
    *sensor.bus_mut() = 6;
    assert_eq!(*sensor.bus_mut(), 6);
}

#[test]
fn sfa30_command_set() {
    assert_eq!(SFA30_ADDR, 0x5D);
    assert_eq!(CMD_START_CONTINUOUS, [0x00, 0x06]);
    assert_eq!(CMD_READ_VALUES, [0x03, 0x27]);
}
