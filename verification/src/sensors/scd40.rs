//! Sensirion SCD40 carbon dioxide sensor: I2C commands and response decoding.

use vstd::prelude::*;

use crate::domain::sensor_data::RawCO2SensorData;
use crate::sensors::sensirion::{
    crc_matches, group_crc_ok, group_u16, lemma_word_group, spec_crc8, u16_from_be, word_group,
};

verus! {

/// 7-bit I2C address of the SCD40.
pub const SCD40_ADDR: u8 = 0x62;

/// Command: start periodic measurement.
pub const CMD_START_PERIODIC_MEASUREMENT: [u8; 2] = [0x21, 0xB1];

/// Command: get data ready status (3-byte response).
pub const CMD_GET_DATA_READY_STATUS: [u8; 2] = [0xE4, 0xB8];

/// Command: read measurement (9-byte response).
pub const CMD_READ_MEASUREMENT: [u8; 2] = [0xEC, 0x05];

/// Wait between the read-measurement command and reading its response, in
/// milliseconds.
pub const READ_DELAY_MS: u64 = 1;

/// Why a response from the sensor was rejected.
#[derive(Debug, Copy, Clone, PartialEq, Eq, Structural)]
pub enum DecodeError {
    Co2CrcMismatch,
    TemperatureCrcMismatch,
    HumidityCrcMismatch,
    DataReadyCrcMismatch,
}

/// Failure of a driver operation.
#[derive(Debug, PartialEq, Eq, Structural)]
pub enum Error {
    I2c,
    Decode(DecodeError),
}

/// SCD40 driver state: the bus it talks on.
pub struct Scd40<I2C> {
    i2c: I2C,
}

impl<I2C> Scd40<I2C> {
    /// The bus the driver talks on.
    pub closed spec fn bus(&self) -> I2C {
        self.i2c
    }

    pub fn new(i2c: I2C) -> (sensor: Self)
        ensures
            sensor.bus() == i2c,
    {
        Self { i2c }
    }

    /// Mutable access to the bus, for issuing the commands above.
    pub fn bus_mut(&mut self) -> (bus: &mut I2C)
        ensures
            *bus == old(self).bus(),
            final(self).bus() == *final(bus),
    {
        &mut self.i2c
    }
}

/// What the 3-byte data-ready response means: a CRC error, or whether the
/// low 11 bits of the status word are non-zero (a fresh sample is waiting).
pub open spec fn spec_is_data_ready(frame: Seq<u8>) -> Result<bool, DecodeError> {
    if !group_crc_ok(frame, 0) {
        Err(DecodeError::DataReadyCrcMismatch)
    } else {
        Ok(group_u16(frame, 0) & 0x07ff != 0)
    }
}

/// Result of a bus transfer within a driver operation: any failure of the bus
/// is `Error::I2c`.
pub fn bus_result<T, E>(transfer: Result<T, E>) -> (result: Result<T, Error>)
    ensures
        transfer matches Ok(v) ==> result == Ok::<T, Error>(v),
        transfer is Err ==> result == Err::<T, Error>(Error::I2c),
{
    match transfer {
        Ok(v) => Ok(v),
        Err(_) => Err(Error::I2c),
    }
}

/// What the 9-byte measurement response means: the first group whose CRC
/// does not match is reported, else the three words CO2, temperature and
/// humidity, in that order.
pub open spec fn spec_decode(frame: Seq<u8>) -> Result<RawCO2SensorData, DecodeError> {
    if !group_crc_ok(frame, 0) {
        Err(DecodeError::Co2CrcMismatch)
    } else if !group_crc_ok(frame, 1) {
        Err(DecodeError::TemperatureCrcMismatch)
    } else if !group_crc_ok(frame, 2) {
        Err(DecodeError::HumidityCrcMismatch)
    } else {
        Ok(
            RawCO2SensorData {
                co2_ppm: group_u16(frame, 0),
                temperature_raw: group_u16(frame, 1),
                humidity_raw: group_u16(frame, 2),
            },
        )
    }
}

/// Parses the 3-byte "get data ready status" response.
/// The low 11 bits of the word are non-zero when a fresh sample is available.
pub fn is_data_ready(buffer: &[u8; 3]) -> (ready: Result<bool, DecodeError>)
    ensures
        ready == spec_is_data_ready(buffer@),
        spec_crc8(seq![buffer[0], buffer[1]]) != buffer[2] ==> ready == Err::<bool, DecodeError>(
            DecodeError::DataReadyCrcMismatch,
        ),
        spec_crc8(seq![buffer[0], buffer[1]]) == buffer[2] ==> ready == Ok::<bool, DecodeError>(
            buffer[1] != 0 || buffer[0] % 8 != 0,
        ),
{
    proof {
        lemma_data_ready_checks_crc_first(buffer@);
    }
    if !crc_matches(buffer[0], buffer[1], buffer[2]) {
        return Err(DecodeError::DataReadyCrcMismatch);
    }
    let word = u16_from_be(buffer[0], buffer[1]);
    Ok(word & 0x07ff != 0)
}

/// Parses the 9-byte "read measurement" response: CO2, temperature, humidity,
/// each as a 2-byte big-endian value followed by a CRC byte.
pub fn decode(buffer: &[u8; 9]) -> (reading: Result<RawCO2SensorData, DecodeError>)
    ensures
        reading == spec_decode(buffer@),
{
    if !crc_matches(buffer[0], buffer[1], buffer[2]) {
        return Err(DecodeError::Co2CrcMismatch);
    }
    if !crc_matches(buffer[3], buffer[4], buffer[5]) {
        return Err(DecodeError::TemperatureCrcMismatch);
    }
    if !crc_matches(buffer[6], buffer[7], buffer[8]) {
        return Err(DecodeError::HumidityCrcMismatch);
    }
    Ok(
        RawCO2SensorData {
            co2_ppm: u16_from_be(buffer[0], buffer[1]),
            temperature_raw: u16_from_be(buffer[3], buffer[4]),
            humidity_raw: u16_from_be(buffer[6], buffer[7]),
        },
    )
}

/// Result of the data-ready operation once the status response has been read:
/// a CRC error becomes `Error::Decode(DataReadyCrcMismatch)`.
pub fn data_ready_response(buffer: &[u8; 3]) -> (ready: Result<bool, Error>)
    ensures
        ready == match spec_is_data_ready(buffer@) {
            Ok(r) => Ok::<bool, Error>(r),
            Err(_) => Err(Error::Decode(DecodeError::DataReadyCrcMismatch)),
        },
{
    match is_data_ready(buffer) {
        Ok(r) => Ok(r),
        Err(_) => Err(Error::Decode(DecodeError::DataReadyCrcMismatch)),
    }
}

/// Result of the read operation once the measurement response has been read.
pub fn read_response(buffer: &[u8; 9]) -> (reading: Result<RawCO2SensorData, Error>)
    ensures
        reading == match spec_decode(buffer@) {
            Ok(r) => Ok::<RawCO2SensorData, Error>(r),
            Err(e) => Err(Error::Decode(e)),
        },
{
    match decode(buffer) {
        Ok(r) => Ok(r),
        Err(e) => Err(Error::Decode(e)),
    }
}

/// A measurement response in which every word is followed by its own CRC
/// decodes to exactly those words.
pub proof fn lemma_decode_well_formed(co2_ppm: u16, temperature_raw: u16, humidity_raw: u16)
    ensures
        spec_decode(word_group(co2_ppm) + word_group(temperature_raw) + word_group(humidity_raw))
            == Ok::<RawCO2SensorData, DecodeError>(
            RawCO2SensorData { co2_ppm, temperature_raw, humidity_raw },
        ),
{
    let frame = word_group(co2_ppm) + word_group(temperature_raw) + word_group(humidity_raw);
    lemma_word_group(co2_ppm);
    lemma_word_group(temperature_raw);
    lemma_word_group(humidity_raw);
    assert(seq![frame[0], frame[1]] =~= seq![word_group(co2_ppm)[0], word_group(co2_ppm)[1]]);
    assert(seq![frame[3], frame[4]] =~= seq![
        word_group(temperature_raw)[0],
        word_group(temperature_raw)[1],
    ]);
    assert(seq![frame[6], frame[7]] =~= seq![
        word_group(humidity_raw)[0],
        word_group(humidity_raw)[1],
    ]);
}

/// A status response carrying `status` with its own CRC reports a fresh
/// sample exactly when the low 11 bits of `status` are not all zero.
pub proof fn lemma_data_ready_well_formed(status: u16)
    ensures
        spec_is_data_ready(word_group(status)) == Ok::<bool, DecodeError>(status & 0x07ff != 0),
{
    lemma_word_group(status);
}

/// A status response is accepted exactly when its third byte is the CRC-8 of
/// its first two; whatever the status bits say, a mismatch is rejected. An
/// accepted response reports a fresh sample exactly when one of the low 11
/// bits of the big-endian status word is set, that is, when the low byte is
/// non-zero or one of the three low bits of the high byte is set.
pub proof fn lemma_data_ready_checks_crc_first(frame: Seq<u8>)
    requires
        frame.len() == 3,
    ensures
        spec_crc8(seq![frame[0], frame[1]]) != frame[2] ==> spec_is_data_ready(frame) == Err::<
            bool,
            DecodeError,
        >(DecodeError::DataReadyCrcMismatch),
        spec_crc8(seq![frame[0], frame[1]]) == frame[2] ==> spec_is_data_ready(frame) == Ok::<
            bool,
            DecodeError,
        >(frame[1] != 0 || frame[0] % 8 != 0),
{
    let hi = frame[0];
    let lo = frame[1];
    assert(group_u16(frame, 0) == (hi * 256 + lo) as u16);
    assert(((hi * 256 + lo) as u16) & 0x07ff != 0 <==> (lo != 0 || hi % 8 != 0)) by (bit_vector);
}

/// A measurement response is accepted exactly when each of its three words
/// carries its own CRC-8; the words are then CO2, temperature and humidity in
/// that order, big-endian, and a rejection names the first word whose CRC
/// does not match.
pub proof fn lemma_decode_checks_each_word(frame: Seq<u8>)
    requires
        frame.len() == 9,
    ensures
        spec_decode(frame) is Ok <==> (spec_crc8(seq![frame[0], frame[1]]) == frame[2]
            && spec_crc8(seq![frame[3], frame[4]]) == frame[5] && spec_crc8(
            seq![frame[6], frame[7]],
        ) == frame[8]),
        spec_decode(frame) matches Ok(r) ==> r.co2_ppm == frame[0] * 256 + frame[1]
            && r.temperature_raw == frame[3] * 256 + frame[4] && r.humidity_raw == frame[6] * 256
            + frame[7],
        spec_crc8(seq![frame[0], frame[1]]) != frame[2] ==> spec_decode(frame) == Err::<
            RawCO2SensorData,
            DecodeError,
        >(DecodeError::Co2CrcMismatch),
        spec_crc8(seq![frame[0], frame[1]]) == frame[2] && spec_crc8(seq![frame[3], frame[4]])
            != frame[5] ==> spec_decode(frame) == Err::<RawCO2SensorData, DecodeError>(
            DecodeError::TemperatureCrcMismatch,
        ),
        spec_crc8(seq![frame[0], frame[1]]) == frame[2] && spec_crc8(seq![frame[3], frame[4]])
            == frame[5] && spec_crc8(seq![frame[6], frame[7]]) != frame[8] ==> spec_decode(frame)
            == Err::<RawCO2SensorData, DecodeError>(DecodeError::HumidityCrcMismatch),
{
}

} // verus!
