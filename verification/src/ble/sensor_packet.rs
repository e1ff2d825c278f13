//! The 20-byte telemetry packet broadcast over BLE.

use vstd::prelude::*;

use crate::domain::sensor_data::EnvironmentData;
use crate::sensors::sensirion::i16_bits;

verus! {

/// One telemetry sample with a value for every quantity.
#[derive(Clone, Copy, Debug, PartialEq, Eq, Structural)]
pub struct EnvironmentPacket {
    pub co2_ppm: u16,
    pub hcho_ppb: u16,
    pub pm1_0: u16,
    pub pm2_5: u16,
    pub pm4_0: u16,
    pub pm10: u16,
    pub voc_index: u16,
    pub nox_index: u16,
    pub relative_humidity: u16,
    pub temperature: i16,
}

/// Little-endian bytes of an unsigned 16-bit value.
pub open spec fn le_bytes(value: u16) -> Seq<u8> {
    seq![(value % 256) as u8, (value / 256) as u8]
}

/// The wire layout of a packet: each field little-endian, in declaration
/// order, the temperature as its two's-complement pattern.
pub open spec fn spec_encode(packet: EnvironmentPacket) -> Seq<u8> {
    le_bytes(packet.co2_ppm) + le_bytes(packet.hcho_ppb) + le_bytes(packet.pm1_0) + le_bytes(
        packet.pm2_5,
    ) + le_bytes(packet.pm4_0) + le_bytes(packet.pm10) + le_bytes(packet.voc_index) + le_bytes(
        packet.nox_index,
    ) + le_bytes(packet.relative_humidity) + le_bytes(i16_bits(packet.temperature))
}

/// The unsigned little-endian word at byte offset `2 * k`.
pub open spec fn le_word(bytes: Seq<u8>, k: int) -> int {
    bytes[2 * k] + 256 * bytes[2 * k + 1]
}

/// Reads a packet back from its 20 bytes.
pub open spec fn spec_parse(bytes: Seq<u8>) -> EnvironmentPacket {
    EnvironmentPacket {
        co2_ppm: le_word(bytes, 0) as u16,
        hcho_ppb: le_word(bytes, 1) as u16,
        pm1_0: le_word(bytes, 2) as u16,
        pm2_5: le_word(bytes, 3) as u16,
        pm4_0: le_word(bytes, 4) as u16,
        pm10: le_word(bytes, 5) as u16,
        voc_index: le_word(bytes, 6) as u16,
        nox_index: le_word(bytes, 7) as u16,
        relative_humidity: le_word(bytes, 8) as u16,
        temperature: (if le_word(bytes, 9) < 32768 {
            le_word(bytes, 9)
        } else {
            le_word(bytes, 9) - 65536
        }) as i16,
    }
}

/// The packet for an environment record: a missing reading is sent as zero.
pub open spec fn spec_from_environment(data: EnvironmentData) -> EnvironmentPacket {
    EnvironmentPacket {
        co2_ppm: data.co2_ppm.unwrap_or(0),
        hcho_ppb: data.hcho_ppb.unwrap_or(0),
        pm1_0: data.pm1_0.unwrap_or(0),
        pm2_5: data.pm2_5.unwrap_or(0),
        pm4_0: data.pm4_0.unwrap_or(0),
        pm10: data.pm10.unwrap_or(0),
        voc_index: data.voc_index.unwrap_or(0),
        nox_index: data.nox_index.unwrap_or(0),
        relative_humidity: data.humidity_percent.unwrap_or(0),
        temperature: data.temperature_celsius.unwrap_or(0),
    }
}

impl vstd::std_specs::convert::FromSpecImpl<EnvironmentData> for EnvironmentPacket {
    open spec fn obeys_from_spec() -> bool {
        true
    }

    open spec fn from_spec(data: EnvironmentData) -> Self {
        spec_from_environment(data)
    }
}

impl From<EnvironmentData> for EnvironmentPacket {
    fn from(data: EnvironmentData) -> (packet: Self) {
        Self {
            co2_ppm: data.co2_ppm.unwrap_or(0),
            hcho_ppb: data.hcho_ppb.unwrap_or(0),
            pm1_0: data.pm1_0.unwrap_or(0),
            pm2_5: data.pm2_5.unwrap_or(0),
            pm4_0: data.pm4_0.unwrap_or(0),
            pm10: data.pm10.unwrap_or(0),
            voc_index: data.voc_index.unwrap_or(0),
            nox_index: data.nox_index.unwrap_or(0),
            relative_humidity: data.humidity_percent.unwrap_or(0),
            temperature: data.temperature_celsius.unwrap_or(0),
        }
    }
}

/// Low byte of a 16-bit value.
fn low_byte(value: u16) -> (b: u8)
    ensures
        b == (value % 256) as u8,
{
    (value % 256) as u8
}

/// High byte of a 16-bit value.
fn high_byte(value: u16) -> (b: u8)
    ensures
        b == (value / 256) as u8,
{
    (value / 256) as u8
}

/// Two's-complement pattern of a signed 16-bit value.
fn signed_bits(value: i16) -> (bits: u16)
    ensures
        bits == i16_bits(value),
{
    if value < 0 {
        ((value as i32) + 65536) as u16
    } else {
        value as u16
    }
}

impl EnvironmentPacket {
    /// The 20 bytes broadcast for this packet.
    pub fn encode(&self) -> (buffer: [u8; 20])
        ensures
            buffer@ == spec_encode(*self),
    {
        let temperature = signed_bits(self.temperature);
        let buffer = [
            low_byte(self.co2_ppm),
            high_byte(self.co2_ppm),
            low_byte(self.hcho_ppb),
            high_byte(self.hcho_ppb),
            low_byte(self.pm1_0),
            high_byte(self.pm1_0),
            low_byte(self.pm2_5),
            high_byte(self.pm2_5),
            low_byte(self.pm4_0),
            high_byte(self.pm4_0),
            low_byte(self.pm10),
            high_byte(self.pm10),
            low_byte(self.voc_index),
            high_byte(self.voc_index),
            low_byte(self.nox_index),
            high_byte(self.nox_index),
            low_byte(self.relative_humidity),
            high_byte(self.relative_humidity),
            low_byte(temperature),
            high_byte(temperature),
        ];
        assert(buffer@ =~= spec_encode(*self));
        buffer
    }
}

/// Every packet is recovered exactly from its 20 encoded bytes.
pub proof fn lemma_encode_parse(packet: EnvironmentPacket)
    ensures
        spec_encode(packet).len() == 20,
        spec_parse(spec_encode(packet)) == packet,
{
    let bytes = spec_encode(packet);
    assert(bytes.len() == 20);
    assert forall|v: u16| #[trigger] le_bytes(v).len() == 2 && le_bytes(v)[0] + 256 * le_bytes(v)[1] == v by {
    }
    assert(le_word(bytes, 0) == packet.co2_ppm);
    assert(le_word(bytes, 1) == packet.hcho_ppb);
    assert(le_word(bytes, 2) == packet.pm1_0);
    assert(le_word(bytes, 3) == packet.pm2_5);
    assert(le_word(bytes, 4) == packet.pm4_0);
    assert(le_word(bytes, 5) == packet.pm10);
    assert(le_word(bytes, 6) == packet.voc_index);
    assert(le_word(bytes, 7) == packet.nox_index);
    assert(le_word(bytes, 8) == packet.relative_humidity);
    assert(le_word(bytes, 9) == i16_bits(packet.temperature));
}

/// Each packet field carries the record's reading of the same quantity, or
/// zero when the record has none.
pub proof fn lemma_packet_fields_from_record(data: EnvironmentData)
    ensures
        spec_from_environment(data).co2_ppm == (match data.co2_ppm {
            Some(v) => v,
            None => 0,
        }),
        spec_from_environment(data).hcho_ppb == (match data.hcho_ppb {
            Some(v) => v,
            None => 0,
        }),
        spec_from_environment(data).pm1_0 == (match data.pm1_0 {
            Some(v) => v,
            None => 0,
        }),
        spec_from_environment(data).pm2_5 == (match data.pm2_5 {
            Some(v) => v,
            None => 0,
        }),
        spec_from_environment(data).pm4_0 == (match data.pm4_0 {
            Some(v) => v,
            None => 0,
        }),
        spec_from_environment(data).pm10 == (match data.pm10 {
            Some(v) => v,
            None => 0,
        }),
        spec_from_environment(data).voc_index == (match data.voc_index {
            Some(v) => v,
            None => 0,
        }),
        spec_from_environment(data).nox_index == (match data.nox_index {
            Some(v) => v,
            None => 0,
        }),
        spec_from_environment(data).relative_humidity == (match data.humidity_percent {
            Some(v) => v,
            None => 0,
        }),
        spec_from_environment(data).temperature == (match data.temperature_celsius {
            Some(v) => v,
            None => 0,
        }),
{
}

} // verus!
