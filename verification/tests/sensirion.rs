use pure_flow::i2c_bus::{bus_result, TwimError};
use pure_flow::sensors::sensirion::crc8;

#[test]
fn known_vector() {
    // From the Sensirion CRC-8 application note example.
    assert_eq!(crc8([0xbe, 0xef]), 0x92);
}

#[test]
fn crc8_of_zero_word() {
    assert_eq!(crc8([0x00, 0x00]), 0x81);
}

#[test]
fn crc8_of_all_ones_word() {
    assert_eq!(crc8([0xff, 0xff]), 0xac);
}

#[test]
fn crc8_differs_on_single_bit_change() {
    assert_ne!(crc8([0x00, 0x06]), crc8([0x00, 0x07]));
    assert_eq!(crc8([0x00, 0x06]), 0x27);
    assert_eq!(crc8([0x00, 0x07]), 0x16);
}

#[test]
fn bus_result_keeps_success_value() {
    let ok: Result<u8, &str> = Ok(7);
    assert_eq!(bus_result(ok), Ok(7));
}

#[test]
fn bus_result_maps_any_failure() {
    let failed: Result<u8, &str> = Err("nack");
    assert_eq!(bus_result(failed), Err(TwimError));
}
