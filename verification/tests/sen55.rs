use pure_flow::domain::sensor_data::RawAQISensorData;
use pure_flow::sensors::sen55::{
    bus_result, data_ready_response, decode, decode_word, is_data_ready, read_response, DecodeError,
    Error, Sen55, CMD_READ_DATA_READY, CMD_READ_MEASURED_VALUES, CMD_START_MEASUREMENT,
    CMD_STOP_MEASUREMENT, SEN55_ADDR,
};

const FRAME: [u8; 24] = [
    0, 100, 254, 0, 200, 127, 1, 44, 142, 1, 144, 76, 19, 136, 1, 15, 160, 228, 3, 232, 212, 7,
    208, 43,
];

#[test]
fn sen55_decodes_all_eight_words() {
    assert_eq!(
        decode(&FRAME),
        Ok(RawAQISensorData {
            pm1_0_raw: 100,
            pm2_5_raw: 200,
            pm4_0_raw: 300,
            pm10_raw: 400,
            humidity_raw: 5000,
            temperature_raw: 4000,
            voc_raw: 1000,
            nox_raw: 2000,
        })
    );
}

#[test]
fn sen55_decode_reports_first_bad_crc() {
    let errors = [
        DecodeError::Pm1CrcMismatch,
        DecodeError::Pm25CrcMismatch,
        DecodeError::Pm4CrcMismatch,
        DecodeError::Pm10CrcMismatch,
        DecodeError::HumidityCrcMismatch,
        DecodeError::TemperatureCrcMismatch,
        DecodeError::VocCrcMismatch,
        DecodeError::NoxCrcMismatch,
    ];
    for (k, expected) in errors.iter().enumerate() {
        let mut bad = FRAME;
        bad[3 * k + 2] ^= 0x01;
        // Corrupt every later word too: the first failure is reported.
        for j in (k + 1)..8 {
            bad[3 * j] ^= 0x10;
        }
        assert_eq!(decode(&bad), Err(*expected));
    }
}

#[test]
fn sen55_decode_word() {
    assert_eq!(decode_word(0xbe, 0xef, 0x92, DecodeError::VocCrcMismatch), Ok(0xbeef));
    assert_eq!(
        decode_word(0xbe, 0xef, 0x93, DecodeError::VocCrcMismatch),
        Err(DecodeError::VocCrcMismatch)
    );
}

#[test]
fn sen55_data_ready_uses_lowest_bit() {
    assert_eq!(is_data_ready(&[0x00, 0x01, 0xb0]), Ok(true));
    assert_eq!(is_data_ready(&[0x00, 0x06, 0x27]), Ok(false));
    assert_eq!(is_data_ready(&[0x00, 0x07, 0x16]), Ok(true));
    assert_eq!(is_data_ready(&[0x00, 0x00, 0x00]), Err(DecodeError::DataReadyCrcMismatch));
}

#[test]
fn sen55_operation_results() {
    match data_ready_response::<u8>(&[0x00, 0x00, 0x81]) {
        Ok(ready) => assert!(!ready),
        Err(_) => panic!("valid status rejected"),
    }
    match data_ready_response::<u8>(&[0x00, 0x00, 0x80]) {
        Err(Error::Decode(DecodeError::DataReadyCrcMismatch)) => {}
        _ => panic!("corrupt status accepted"),
    }
    match read_response::<u8>(&FRAME) {
        Ok(reading) => assert_eq!(reading.nox_raw, 2000),
        Err(_) => panic!("valid frame rejected"),
    }
    match bus_result::<(), u8>(Err(7)) {
        Err(Error::I2c(7)) => {}
        _ => panic!("bus error lost"),
    }
    match bus_result::<u8, u8>(Ok(4)) {
        Ok(4) => {}
        _ => panic!("bus value lost"),
    }
}

#[test]
fn sen55_driver_and_commands() {
    let mut sensor = Sen55::new(1u16);
    *sensor.bus_mut() = 2;
    assert_eq!(*sensor.bus_mut(), 2);
    assert_eq!(SEN55_ADDR, 0x69);
    assert_eq!(CMD_START_MEASUREMENT, [0x00, 0x21]);
    assert_eq!(CMD_STOP_MEASUREMENT, [0x01, 0x04]);
    assert_eq!(CMD_READ_DATA_READY, [0x02, 0x02]);
    assert_eq!(CMD_READ_MEASURED_VALUES, [0x03, 0xC4]);
}
