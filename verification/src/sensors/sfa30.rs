//! Sensirion SFA30 formaldehyde sensor: I2C commands and response decoding.

use vstd::prelude::*;

use crate::domain::sensor_data::RawHCOHSensorData;
use crate::sensors::sensirion::{
    crc_matches, group_crc_ok, group_i16, i16_bits, i16_from_be, lemma_word_group, spec_crc8,
    word_group,
};

verus! {

/// 7-bit I2C address of the SFA30.
pub const SFA30_ADDR: u8 = 0x5D;

/// Command: start continuous measurement.
pub const CMD_START_CONTINUOUS: [u8; 2] = [0x00, 0x06];

/// Command: read measured values (9-byte response, about 50 ms later).
pub const CMD_READ_VALUES: [u8; 2] = [0x03, 0x27];

/// Wait between the read-values command and reading its response, in
/// milliseconds.
pub const READ_DELAY_MS: u64 = 50;

/// Why a measurement response was rejected.
#[derive(Debug, Copy, Clone, PartialEq, Eq, Structural)]
pub enum DecodeError {
    HchoCrcMismatch,
    HumidityCrcMismatch,
    TemperatureCrcMismatch,
}

/// Failure of a driver operation.
#[derive(Debug, PartialEq, Eq, Structural)]
pub enum Error {
    I2c,
    Decode(DecodeError),
}

/// SFA30 driver state: the bus it talks on.
pub struct Sfa30<I2C> {
    i2c: I2C,
}

impl<I2C> Sfa30<I2C> {
    /// The bus the driver talks on.
    pub closed spec fn bus(&self) -> I2C {
        self.i2c
    }

    pub fn new(i2c: I2C) -> (sensor: Self)
        ensures
            sensor.bus() == i2c,
    {
        Self { i2c }
    }

    /// Mutable access to the bus, for issuing the commands above.
    pub fn bus_mut(&mut self) -> (bus: &mut I2C)
        ensures
            *bus == old(self).bus(),
            final(self).bus() == *final(bus),
    {
        &mut self.i2c
    }
}

/// Result of a bus transfer within a driver operation: any failure of the bus
/// is `Error::I2c`.
pub fn bus_result<T, E>(transfer: Result<T, E>) -> (result: Result<T, Error>)
    ensures
        transfer matches Ok(v) ==> result == Ok::<T, Error>(v),
        transfer is Err ==> result == Err::<T, Error>(Error::I2c),
{
    match transfer {
        Ok(v) => Ok(v),
        Err(_) => Err(Error::I2c),
    }
}

/// What the 9-byte measurement response means: the first group whose CRC
/// does not match is reported, else the signed words formaldehyde, humidity
/// and temperature, in that order.
pub open spec fn spec_decode(frame: Seq<u8>) -> Result<RawHCOHSensorData, DecodeError> {
    if !group_crc_ok(frame, 0) {
        Err(DecodeError::HchoCrcMismatch)
    } else if !group_crc_ok(frame, 1) {
        Err(DecodeError::HumidityCrcMismatch)
    } else if !group_crc_ok(frame, 2) {
        Err(DecodeError::TemperatureCrcMismatch)
    } else {
        Ok(
            RawHCOHSensorData {
                hcho_ppb: group_i16(frame, 0),
                humidity_raw: group_i16(frame, 1),
                temperature_raw: group_i16(frame, 2),
            },
        )
    }
}

/// Parses the 9-byte "read measured values" response: formaldehyde,
/// humidity, temperature, each as a 2-byte big-endian signed value followed
/// by a CRC byte.
pub fn decode(buffer: &[u8; 9]) -> (reading: Result<RawHCOHSensorData, DecodeError>)
    ensures
        reading == spec_decode(buffer@),
{
    if !crc_matches(buffer[0], buffer[1], buffer[2]) {
        return Err(DecodeError::HchoCrcMismatch);
    }
    if !crc_matches(buffer[3], buffer[4], buffer[5]) {
        return Err(DecodeError::HumidityCrcMismatch);
    }
    if !crc_matches(buffer[6], buffer[7], buffer[8]) {
        return Err(DecodeError::TemperatureCrcMismatch);
    }
    Ok(
        RawHCOHSensorData {
            hcho_ppb: i16_from_be(buffer[0], buffer[1]),
            humidity_raw: i16_from_be(buffer[3], buffer[4]),
            temperature_raw: i16_from_be(buffer[6], buffer[7]),
        },
    )
}

/// Result of the read operation once the measurement response has been read.
pub fn read_response(buffer: &[u8; 9]) -> (reading: Result<RawHCOHSensorData, Error>)
    ensures
        reading == match spec_decode(buffer@) {
            Ok(r) => Ok::<RawHCOHSensorData, Error>(r),
            Err(e) => Err(Error::Decode(e)),
        },
{
    match decode(buffer) {
        Ok(r) => Ok(r),
        Err(e) => Err(Error::Decode(e)),
    }
}

/// A measurement response in which every signed word is followed by its own
/// CRC decodes to exactly those words.
pub proof fn lemma_decode_well_formed(hcho_ppb: i16, humidity_raw: i16, temperature_raw: i16)
    ensures
        spec_decode(
            word_group(i16_bits(hcho_ppb)) + word_group(i16_bits(humidity_raw)) + word_group(
                i16_bits(temperature_raw),
            ),
        ) == Ok::<RawHCOHSensorData, DecodeError>(
            RawHCOHSensorData { hcho_ppb, humidity_raw, temperature_raw },
        ),
{
    let g0 = word_group(i16_bits(hcho_ppb));
    let g1 = word_group(i16_bits(humidity_raw));
    let g2 = word_group(i16_bits(temperature_raw));
    let frame = g0 + g1 + g2;
    lemma_word_group(i16_bits(hcho_ppb));
    lemma_word_group(i16_bits(humidity_raw));
    lemma_word_group(i16_bits(temperature_raw));
    assert(seq![frame[0], frame[1]] =~= seq![g0[0], g0[1]]);
    assert(seq![frame[3], frame[4]] =~= seq![g1[0], g1[1]]);
    assert(seq![frame[6], frame[7]] =~= seq![g2[0], g2[1]]);
}

/// A measurement response is accepted exactly when each of its three words
/// carries its own CRC-8; the words are then formaldehyde, humidity and
/// temperature in that order, big-endian two's complement, and a rejection
/// names the first word whose CRC does not match.
pub proof fn lemma_decode_checks_each_word(frame: Seq<u8>)
    requires
        frame.len() == 9,
    ensures
        spec_decode(frame) is Ok <==> (spec_crc8(seq![frame[0], frame[1]]) == frame[2]
            && spec_crc8(seq![frame[3], frame[4]]) == frame[5] && spec_crc8(
            seq![frame[6], frame[7]],
        ) == frame[8]),
        spec_decode(frame) matches Ok(r) ==> r.hcho_ppb == (if frame[0] < 128 { frame[0] * 256 + frame[1] } else { frame[0] * 256 + frame[1] - 65536 })
            && r.humidity_raw == (if frame[3] < 128 { frame[3] * 256 + frame[4] } else { frame[3] * 256 + frame[4] - 65536 })
            && r.temperature_raw == (if frame[6] < 128 { frame[6] * 256 + frame[7] } else { frame[6] * 256 + frame[7] - 65536 }),
        spec_crc8(seq![frame[0], frame[1]]) != frame[2] ==> spec_decode(frame) == Err::<
            RawHCOHSensorData,
            DecodeError,
        >(DecodeError::HchoCrcMismatch),
        spec_crc8(seq![frame[0], frame[1]]) == frame[2] && spec_crc8(seq![frame[3], frame[4]])
            != frame[5] ==> spec_decode(frame) == Err::<RawHCOHSensorData, DecodeError>(
            DecodeError::HumidityCrcMismatch,
        ),
        spec_crc8(seq![frame[0], frame[1]]) == frame[2] && spec_crc8(seq![frame[3], frame[4]])
            == frame[5] && spec_crc8(seq![frame[6], frame[7]]) != frame[8] ==> spec_decode(frame)
            == Err::<RawHCOHSensorData, DecodeError>(DecodeError::TemperatureCrcMismatch),
{
}

} // verus!
