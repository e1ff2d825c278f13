//! Sensirion SEN55 particulate matter / VOC / NOx sensor: I2C commands and
//! response decoding.

use vstd::prelude::*;

use crate::domain::sensor_data::RawAQISensorData;
use crate::sensors::sensirion::{
    be_u16, crc_matches, group_crc_ok, group_u16, lemma_word_group, spec_crc8, u16_from_be,
    word_group,
};

verus! {

/// 7-bit I2C address of the SEN55.
pub const SEN55_ADDR: u8 = 0x69;

/// Command: start measurement (the fan and laser need about a second).
pub const CMD_START_MEASUREMENT: [u8; 2] = [0x00, 0x21];

/// Command: stop measurement (executes in under 200 ms).
pub const CMD_STOP_MEASUREMENT: [u8; 2] = [0x01, 0x04];

/// Command: read data-ready flag (3-byte response).
pub const CMD_READ_DATA_READY: [u8; 2] = [0x02, 0x02];

/// Command: read measured values (24-byte response).
pub const CMD_READ_MEASURED_VALUES: [u8; 2] = [0x03, 0xC4];

/// Wait after the stop command, in milliseconds.
pub const STOP_DELAY_MS: u64 = 200;

/// Wait after the start command while the fan and laser spin up, in
/// milliseconds.
pub const START_DELAY_MS: u64 = 1000;

/// Wait between the read-measured-values command and reading its response,
/// in milliseconds.
pub const READ_DELAY_MS: u64 = 1;

/// Why a response from the sensor was rejected.
#[derive(Debug, Copy, Clone, PartialEq, Eq, Structural)]
pub enum DecodeError {
    Pm1CrcMismatch,
    Pm25CrcMismatch,
    Pm4CrcMismatch,
    Pm10CrcMismatch,
    HumidityCrcMismatch,
    TemperatureCrcMismatch,
    VocCrcMismatch,
    NoxCrcMismatch,
    DataReadyCrcMismatch,
}

/// Failure of a driver operation, carrying the bus error where the bus failed.
#[derive(Debug)]
pub enum Error<E> {
    I2c(E),
    Decode(DecodeError),
}

/// SEN55 driver state: the bus it talks on.
pub struct Sen55<I2C> {
    i2c: I2C,
}

impl<I2C> Sen55<I2C> {
    /// The bus the driver talks on.
    pub closed spec fn bus(&self) -> I2C {
        self.i2c
    }

    pub fn new(i2c: I2C) -> (sensor: Self)
        ensures
            sensor.bus() == i2c,
    {
        Self { i2c }
    }

    /// Mutable access to the bus, for issuing the commands above.
    pub fn bus_mut(&mut self) -> (bus: &mut I2C)
        ensures
            *bus == old(self).bus(),
            final(self).bus() == *final(bus),
    {
        &mut self.i2c
    }
}

/// Result of a bus transfer within a driver operation: a failure of the bus
/// is `Error::I2c` carrying the bus's own error.
pub fn bus_result<T, E>(transfer: Result<T, E>) -> (result: Result<T, Error<E>>)
    ensures
        transfer matches Ok(v) ==> result == Ok::<T, Error<E>>(v),
        transfer matches Err(e) ==> result == Err::<T, Error<E>>(Error::I2c(e)),
{
    match transfer {
        Ok(v) => Ok(v),
        Err(e) => Err(Error::I2c(e)),
    }
}

/// What the 3-byte data-ready response means: a CRC error, or whether the
/// least significant bit of the status word is set.
pub open spec fn spec_is_data_ready(frame: Seq<u8>) -> Result<bool, DecodeError> {
    if !group_crc_ok(frame, 0) {
        Err(DecodeError::DataReadyCrcMismatch)
    } else {
        Ok(group_u16(frame, 0) % 2 == 1)
    }
}

/// What the 24-byte measurement response means: the error of the first word
/// whose CRC does not match, else the eight words in order.
pub open spec fn spec_decode(frame: Seq<u8>) -> Result<RawAQISensorData, DecodeError> {
    if !group_crc_ok(frame, 0) {
        Err(DecodeError::Pm1CrcMismatch)
    } else if !group_crc_ok(frame, 1) {
        Err(DecodeError::Pm25CrcMismatch)
    } else if !group_crc_ok(frame, 2) {
        Err(DecodeError::Pm4CrcMismatch)
    } else if !group_crc_ok(frame, 3) {
        Err(DecodeError::Pm10CrcMismatch)
    } else if !group_crc_ok(frame, 4) {
        Err(DecodeError::HumidityCrcMismatch)
    } else if !group_crc_ok(frame, 5) {
        Err(DecodeError::TemperatureCrcMismatch)
    } else if !group_crc_ok(frame, 6) {
        Err(DecodeError::VocCrcMismatch)
    } else if !group_crc_ok(frame, 7) {
        Err(DecodeError::NoxCrcMismatch)
    } else {
        Ok(
            RawAQISensorData {
                pm1_0_raw: group_u16(frame, 0),
                pm2_5_raw: group_u16(frame, 1),
                pm4_0_raw: group_u16(frame, 2),
                pm10_raw: group_u16(frame, 3),
                humidity_raw: group_u16(frame, 4),
                temperature_raw: group_u16(frame, 5),
                voc_raw: group_u16(frame, 6),
                nox_raw: group_u16(frame, 7),
            },
        )
    }
}

/// Parses the 3-byte "read data-ready flag" response.
/// The least significant bit of the status word is set when a fresh sample is available.
pub fn is_data_ready(buffer: &[u8; 3]) -> (ready: Result<bool, DecodeError>)
    ensures
        ready == spec_is_data_ready(buffer@),
        spec_crc8(seq![buffer[0], buffer[1]]) != buffer[2] ==> ready == Err::<bool, DecodeError>(
            DecodeError::DataReadyCrcMismatch,
        ),
        spec_crc8(seq![buffer[0], buffer[1]]) == buffer[2] ==> ready == Ok::<bool, DecodeError>(
            buffer[1] % 2 == 1,
        ),
{
    proof {
        lemma_data_ready_checks_crc_first(buffer@);
    }
    if !crc_matches(buffer[0], buffer[1], buffer[2]) {
        return Err(DecodeError::DataReadyCrcMismatch);
    }
    let status = u16_from_be(buffer[0], buffer[1]);
    assert(status & 1 != 0 <==> status % 2 == 1) by (bit_vector);
    Ok(status & 0x0001 != 0)
}

/// One word of a response: its big-endian value when `crc` matches it, else
/// `err`.
pub fn decode_word(msb: u8, lsb: u8, crc: u8, err: DecodeError) -> (word: Result<u16, DecodeError>)
    ensures
        word == if spec_crc8(seq![msb, lsb]) == crc {
            Ok::<u16, DecodeError>(be_u16(msb, lsb))
        } else {
            Err(err)
        },
{
    if !crc_matches(msb, lsb, crc) {
        return Err(err);
    }
    Ok(u16_from_be(msb, lsb))
}

/// Parses the 24-byte "read measured values" response: PM1.0, PM2.5, PM4.0,
/// PM10, humidity, temperature, VOC index, and NOx index, each as a
/// 2-byte big-endian value followed by a CRC byte.
pub fn decode(buffer: &[u8; 24]) -> (reading: Result<RawAQISensorData, DecodeError>)
    ensures
        reading == spec_decode(buffer@),
{
    let pm1 = decode_word(buffer[0], buffer[1], buffer[2], DecodeError::Pm1CrcMismatch)?;
    let pm25 = decode_word(buffer[3], buffer[4], buffer[5], DecodeError::Pm25CrcMismatch)?;
    let pm4 = decode_word(buffer[6], buffer[7], buffer[8], DecodeError::Pm4CrcMismatch)?;
    let pm10 = decode_word(buffer[9], buffer[10], buffer[11], DecodeError::Pm10CrcMismatch)?;
    let humidity = decode_word(
        buffer[12],
        buffer[13],
        buffer[14],
        DecodeError::HumidityCrcMismatch,
    )?;
    let temperature = decode_word(
        buffer[15],
        buffer[16],
        buffer[17],
        DecodeError::TemperatureCrcMismatch,
    )?;
    let voc = decode_word(buffer[18], buffer[19], buffer[20], DecodeError::VocCrcMismatch)?;
    let nox = decode_word(buffer[21], buffer[22], buffer[23], DecodeError::NoxCrcMismatch)?;
    Ok(
        RawAQISensorData {
            pm1_0_raw: pm1,
            pm2_5_raw: pm25,
            pm4_0_raw: pm4,
            pm10_raw: pm10,
            humidity_raw: humidity,
            temperature_raw: temperature,
            voc_raw: voc,
            nox_raw: nox,
        },
    )
}

/// Result of the data-ready operation once the status response has been
/// read.
pub fn data_ready_response<E>(buffer: &[u8; 3]) -> (ready: Result<bool, Error<E>>)
    ensures
        ready == match spec_is_data_ready(buffer@) {
            Ok(r) => Ok::<bool, Error<E>>(r),
            Err(e) => Err(Error::Decode(e)),
        },
{
    match is_data_ready(buffer) {
        Ok(r) => Ok(r),
        Err(e) => Err(Error::Decode(e)),
    }
}

/// Result of the read operation once the measurement response has been read.
pub fn read_response<E>(buffer: &[u8; 24]) -> (reading: Result<RawAQISensorData, Error<E>>)
    ensures
        reading == match spec_decode(buffer@) {
            Ok(r) => Ok::<RawAQISensorData, Error<E>>(r),
            Err(e) => Err(Error::Decode(e)),
        },
{
    match decode(buffer) {
        Ok(r) => Ok(r),
        Err(e) => Err(Error::Decode(e)),
    }
}

/// A status response carrying `status` with its own CRC reports a fresh
/// sample exactly when the least significant bit of `status` is set.
pub proof fn lemma_data_ready_well_formed(status: u16)
    ensures
        spec_is_data_ready(word_group(status)) == Ok::<bool, DecodeError>(status % 2 == 1),
{
    lemma_word_group(status);
}

/// The 24-byte response that carries `reading`, each word followed by its CRC.
pub open spec fn measurement_frame(reading: RawAQISensorData) -> Seq<u8> {
    word_group(reading.pm1_0_raw) + word_group(reading.pm2_5_raw) + word_group(reading.pm4_0_raw)
        + word_group(reading.pm10_raw) + word_group(reading.humidity_raw) + word_group(
        reading.temperature_raw,
    ) + word_group(reading.voc_raw) + word_group(reading.nox_raw)
}

/// A measurement response in which every word is followed by its own CRC
/// decodes to exactly those words.
pub proof fn lemma_decode_well_formed(reading: RawAQISensorData)
    ensures
        spec_decode(measurement_frame(reading)) == Ok::<RawAQISensorData, DecodeError>(reading),
{
    let frame = measurement_frame(reading);
    let words = seq![
        reading.pm1_0_raw,
        reading.pm2_5_raw,
        reading.pm4_0_raw,
        reading.pm10_raw,
        reading.humidity_raw,
        reading.temperature_raw,
        reading.voc_raw,
        reading.nox_raw,
    ];
    assert forall|k: int| 0 <= k < 8 implies group_crc_ok(frame, k) && group_u16(frame, k)
        == words[k] by {
        lemma_word_group(words[k]);
        let g = word_group(words[k]);
        assert(frame[3 * k] == g[0]);
        assert(frame[3 * k + 1] == g[1]);
        assert(frame[3 * k + 2] == g[2]);
        assert(seq![frame[3 * k], frame[3 * k + 1]] =~= seq![g[0], g[1]]);
    }
    assert(group_crc_ok(frame, 0) && group_crc_ok(frame, 1) && group_crc_ok(frame, 2));
    assert(group_crc_ok(frame, 3) && group_crc_ok(frame, 4) && group_crc_ok(frame, 5));
    assert(group_crc_ok(frame, 6) && group_crc_ok(frame, 7));
}

/// A status response is accepted exactly when its third byte is the CRC-8 of
/// its first two; whatever the status bit says, a mismatch is rejected. An
/// accepted response reports a fresh sample exactly when the least
/// significant bit of the big-endian status word, the lowest bit of the
/// second byte, is set.
pub proof fn lemma_data_ready_checks_crc_first(frame: Seq<u8>)
    requires
        frame.len() == 3,
    ensures
        spec_crc8(seq![frame[0], frame[1]]) != frame[2] ==> spec_is_data_ready(frame) == Err::<
            bool,
            DecodeError,
        >(DecodeError::DataReadyCrcMismatch),
        spec_crc8(seq![frame[0], frame[1]]) == frame[2] ==> spec_is_data_ready(frame) == Ok::<
            bool,
            DecodeError,
        >(frame[1] % 2 == 1),
{
    let hi = frame[0];
    let lo = frame[1];
    assert(((hi * 256 + lo) as u16) % 2 == lo % 2) by (bit_vector);
    assert(group_u16(frame, 0) == (hi * 256 + lo) as u16);
}

/// The error that names the `k`-th word of a measurement response, in the
/// order PM1.0, PM2.5, PM4.0, PM10, humidity, temperature, VOC, NOx.
pub open spec fn word_error(k: int) -> DecodeError {
    if k == 0 {
        DecodeError::Pm1CrcMismatch
    } else if k == 1 {
        DecodeError::Pm25CrcMismatch
    } else if k == 2 {
        DecodeError::Pm4CrcMismatch
    } else if k == 3 {
        DecodeError::Pm10CrcMismatch
    } else if k == 4 {
        DecodeError::HumidityCrcMismatch
    } else if k == 5 {
        DecodeError::TemperatureCrcMismatch
    } else if k == 6 {
        DecodeError::VocCrcMismatch
    } else {
        DecodeError::NoxCrcMismatch
    }
}

/// A measurement response is accepted exactly when each of its eight words
/// carries its own CRC-8; the words are then PM1.0, PM2.5, PM4.0, PM10,
/// humidity, temperature, VOC and NOx in that order, big-endian, and a
/// rejection names the first word whose CRC does not match.
pub proof fn lemma_decode_checks_each_word(frame: Seq<u8>)
    requires
        frame.len() == 24,
    ensures
        spec_decode(frame) is Ok <==> (forall|k: int| 0 <= k < 8 ==> #[trigger] group_crc_ok(frame, k)),
        forall|k: int|
            0 <= k < 8 && (forall|j: int| 0 <= j < k ==> #[trigger] group_crc_ok(frame, j))
                && !#[trigger] group_crc_ok(frame, k) ==> spec_decode(frame) == Err::<
                RawAQISensorData,
                DecodeError,
            >(word_error(k)),
        spec_decode(frame) matches Ok(r) ==> r.pm1_0_raw == frame[0] * 256 + frame[1] && r.pm2_5_raw == frame[3] * 256 + frame[4] && r.pm4_0_raw == frame[6] * 256 + frame[7] && r.pm10_raw == frame[9] * 256 + frame[10] && r.humidity_raw == frame[12] * 256 + frame[13] && r.temperature_raw == frame[15] * 256 + frame[16] && r.voc_raw == frame[18] * 256 + frame[19] && r.nox_raw == frame[21] * 256 + frame[22],
{
    assert forall|k: int|
        0 <= k < 8 && (forall|j: int| 0 <= j < k ==> #[trigger] group_crc_ok(frame, j))
            && !#[trigger] group_crc_ok(frame, k) implies spec_decode(frame) == Err::<
            RawAQISensorData,
            DecodeError,
        >(word_error(k)) by {
        assert(k > 0 ==> group_crc_ok(frame, 0));
        assert(k > 1 ==> group_crc_ok(frame, 1));
        assert(k > 2 ==> group_crc_ok(frame, 2));
        assert(k > 3 ==> group_crc_ok(frame, 3));
        assert(k > 4 ==> group_crc_ok(frame, 4));
        assert(k > 5 ==> group_crc_ok(frame, 5));
        assert(k > 6 ==> group_crc_ok(frame, 6));
    }
    if forall|k: int| 0 <= k < 8 ==> #[trigger] group_crc_ok(frame, k) {
        assert(group_crc_ok(frame, 0) && group_crc_ok(frame, 1) && group_crc_ok(frame, 2));
        assert(group_crc_ok(frame, 3) && group_crc_ok(frame, 4) && group_crc_ok(frame, 5));
        assert(group_crc_ok(frame, 6) && group_crc_ok(frame, 7));
    }
}

} // verus!
