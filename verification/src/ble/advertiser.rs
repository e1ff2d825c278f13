//! What the BLE advertiser broadcasts for an environment record.

use vstd::prelude::*;

use crate::ble::sensor_packet::{
    lemma_encode_parse, lemma_packet_fields_from_record, spec_encode, spec_from_environment,
    EnvironmentPacket,
};
use crate::domain::sensor_data::EnvironmentData;

verus! {

/// The little-endian word at bytes `2 * k` and `2 * k + 1` of a payload.
pub open spec fn payload_word(payload: Seq<u8>, k: int) -> int {
    payload[2 * k] + 256 * payload[2 * k + 1]
}

/// Each 2-byte slot of `payload` carries the reading of its quantity,
/// little-endian, or zero when `environment` has no such reading: CO2,
/// formaldehyde, PM1.0, PM2.5, PM4.0, PM10, VOC index, NOx index, humidity,
/// then temperature as its 16-bit two's-complement pattern.
pub open spec fn carries_readings(payload: Seq<u8>, environment: EnvironmentData) -> bool {
    ({
        &&& payload.len() == 20
        &&& payload_word(payload, 0) == (match environment.co2_ppm {
            Some(v) => v as int,
            None => 0,
        })
        &&& payload_word(payload, 1) == (match environment.hcho_ppb {
            Some(v) => v as int,
            None => 0,
        })
        &&& payload_word(payload, 2) == (match environment.pm1_0 {
            Some(v) => v as int,
            None => 0,
        })
        &&& payload_word(payload, 3) == (match environment.pm2_5 {
            Some(v) => v as int,
            None => 0,
        })
        &&& payload_word(payload, 4) == (match environment.pm4_0 {
            Some(v) => v as int,
            None => 0,
        })
        &&& payload_word(payload, 5) == (match environment.pm10 {
            Some(v) => v as int,
            None => 0,
        })
        &&& payload_word(payload, 6) == (match environment.voc_index {
            Some(v) => v as int,
            None => 0,
        })
        &&& payload_word(payload, 7) == (match environment.nox_index {
            Some(v) => v as int,
            None => 0,
        })
        &&& payload_word(payload, 8) == (match environment.humidity_percent {
            Some(v) => v as int,
            None => 0,
        })
        &&& payload_word(payload, 9) == (match environment.temperature_celsius {
            Some(t) => if t < 0 {
                t + 65536
            } else {
                t as int
            },
            None => 0,
        })
    })
}

/// The payload of every record carries each of its readings in its own slot.
pub proof fn lemma_payload_carries_each_reading(environment: EnvironmentData)
    ensures
        carries_readings(spec_encode(spec_from_environment(environment)), environment),
{
    let packet = spec_from_environment(environment);
    lemma_packet_fields_from_record(environment);
    lemma_encode_parse(packet);
}

/// The advertisement payload for an environment record: the record as a
/// telemetry packet (missing readings as zero), encoded.
pub fn advertisement_payload(environment: EnvironmentData) -> (payload: [u8; 20])
    ensures
        payload@ == spec_encode(spec_from_environment(environment)),
        carries_readings(payload@, environment),
{
    let packet = EnvironmentPacket::from(environment);
    proof {
        lemma_payload_carries_each_reading(environment);
    }
    packet.encode()
}

} // verus!
