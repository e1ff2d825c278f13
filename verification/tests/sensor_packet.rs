use pure_flow::ble::advertiser::advertisement_payload;
use pure_flow::ble::sensor_packet::EnvironmentPacket;
use pure_flow::domain::sensor_data::EnvironmentData;

fn sample_packet() -> EnvironmentPacket {
    EnvironmentPacket {
        co2_ppm: 0x01f4,
        hcho_ppb: 55,
        pm1_0: 0x0102,
        pm2_5: 0x0304,
        pm4_0: 0x0506,
        pm10: 0x0708,
        voc_index: 100,
        nox_index: 1,
        relative_humidity: 40,
        temperature: -2,
    }
}

#[test]
fn packet_encodes_little_endian_fields_in_order() {
    assert_eq!(
        sample_packet().encode(),
        [
            0xf4, 0x01, 55, 0, 0x02, 0x01, 0x04, 0x03, 0x06, 0x05, 0x08, 0x07, 100, 0, 1, 0, 40,
            0, 0xfe, 0xff
        ]
    );
}

#[test]
fn packet_round_trips_through_bytes() {
    let bytes = sample_packet().encode();
    let word = |k: usize| u16::from_le_bytes([bytes[2 * k], bytes[2 * k + 1]]);
    assert_eq!(word(0), 500);
    assert_eq!(word(8), 40);
    assert_eq!(i16::from_le_bytes([bytes[18], bytes[19]]), -2);
}

#[test]
fn extreme_temperatures_encode_as_twos_complement() {
    let mut packet = sample_packet();
    packet.temperature = i16::MIN;
    assert_eq!(&packet.encode()[18..], &[0x00, 0x80]);
    packet.temperature = i16::MAX;
    assert_eq!(&packet.encode()[18..], &[0xff, 0x7f]);
}

#[test]
fn missing_readings_become_zero() {
    let packet = EnvironmentPacket::from(EnvironmentData::new());
    assert_eq!(packet.encode(), [0u8; 20]);
}

#[test]
fn present_readings_are_kept() {
    let mut data = EnvironmentData::new();
    data.co2_ppm = Some(812);
    data.pm10 = Some(33);
    data.temperature_celsius = Some(-7);
    data.humidity_percent = Some(61);
    let packet = EnvironmentPacket::from(data);
    assert_eq!(packet.co2_ppm, 812);
    assert_eq!(packet.hcho_ppb, 0);
    assert_eq!(packet.pm10, 33);
    assert_eq!(packet.temperature, -7);
    assert_eq!(packet.relative_humidity, 61);
    assert_eq!(advertisement_payload(data), packet.encode());
}

#[test]
fn new_environment_is_empty() {
    let data = EnvironmentData::new();
    assert_eq!(data.co2_ppm, None);
    assert_eq!(data.nox_index, None);
    assert_eq!(data.temperature_celsius, None);
    assert_eq!(data.humidity_percent, None);
}
