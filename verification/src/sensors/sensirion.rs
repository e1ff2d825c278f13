//! CRC-8 shared by the Sensirion sensors (SFA30, SCD40, SEN55, ...): generator
//! polynomial 0x31 (x^8 + x^5 + x^4 + 1), initial value 0xFF, most significant
//! bit first, no final XOR.

use vstd::prelude::*;

verus! {

/// One bit step of the CRC register: shift left by one bit and, when the bit
/// shifted out was set, reduce by the generator polynomial 0x31.
pub open spec fn crc8_bit_step(crc: u8) -> u8 {
    if crc & 0x80 != 0 {
        (crc << 1u8) ^ 0x31u8
    } else {
        crc << 1u8
    }
}

/// `n` bit steps applied to the register.
pub open spec fn crc8_bit_steps(crc: u8, n: nat) -> u8
    decreases n,
{
    if n == 0 {
        crc
    } else {
        crc8_bit_steps(crc8_bit_step(crc), (n - 1) as nat)
    }
}

/// Register after absorbing one message byte.
pub open spec fn crc8_absorb(crc: u8, byte: u8) -> u8 {
    crc8_bit_steps(crc ^ byte, 8)
}

/// Register after absorbing the bytes of `data` in order, from `crc`.
pub open spec fn crc8_absorb_all(crc: u8, data: Seq<u8>) -> u8
    decreases data.len(),
{
    if data.len() == 0 {
        crc
    } else {
        crc8_absorb_all(crc8_absorb(crc, data[0]), data.drop_first())
    }
}

/// The Sensirion CRC-8 of a byte sequence.
pub open spec fn spec_crc8(data: Seq<u8>) -> u8 {
    crc8_absorb_all(0xFFu8, data)
}

/// CRC-8 of a two-byte data word, as transmitted after each word by the
/// Sensirion I2C sensors.
pub fn crc8(data: [u8; 2]) -> (crc: u8)
    ensures
        crc == spec_crc8(data@),
{
    let mut crc: u8 = 0xFF;
    let mut i: usize = 0;
    proof {
        assert(data@.subrange(0, 2) =~= data@);
    }
    while i < 2
        invariant
            0 <= i <= 2,
            crc8_absorb_all(crc, data@.subrange(i as int, 2)) == spec_crc8(data@),
        decreases 2 - i,
    {
        let byte = data[i];
        proof {
            assert(data@.subrange(i as int, 2).drop_first() =~= data@.subrange(i + 1, 2));
        }
        crc = crc ^ byte;
        let ghost start = crc;
        let mut bit: usize = 0;
        while bit < 8
            invariant
                0 <= bit <= 8,
                crc8_bit_steps(crc, (8 - bit) as nat) == crc8_bit_steps(start, 8),
            decreases 8 - bit,
        {
            crc = if crc & 0x80 != 0 {
                (crc << 1u8) ^ 0x31u8
            } else {
                crc << 1u8
            };
            bit = bit + 1;
        }
        i = i + 1;
    }
    crc
}

/// The unsigned 16-bit value of a big-endian byte pair.
pub open spec fn be_u16(msb: u8, lsb: u8) -> u16 {
    (msb * 256 + lsb) as u16
}

/// The two's-complement 16-bit value of a big-endian byte pair.
pub open spec fn be_i16(msb: u8, lsb: u8) -> i16 {
    if msb < 128 {
        (msb * 256 + lsb) as i16
    } else {
        ((msb - 256) * 256 + lsb) as i16
    }
}

/// The 16-bit two's-complement pattern of a signed word.
pub open spec fn i16_bits(word: i16) -> u16 {
    if word < 0 {
        (word + 65536) as u16
    } else {
        word as u16
    }
}

/// In a response frame made of 3-byte groups (data word, then its CRC),
/// whether the `k`-th group carries a matching CRC.
pub open spec fn group_crc_ok(frame: Seq<u8>, k: int) -> bool {
    spec_crc8(seq![frame[3 * k], frame[3 * k + 1]]) == frame[3 * k + 2]
}

/// The unsigned data word of the `k`-th group of a response frame.
pub open spec fn group_u16(frame: Seq<u8>, k: int) -> u16 {
    be_u16(frame[3 * k], frame[3 * k + 1])
}

/// The signed data word of the `k`-th group of a response frame.
pub open spec fn group_i16(frame: Seq<u8>, k: int) -> i16 {
    be_i16(frame[3 * k], frame[3 * k + 1])
}

/// The 3-byte group that carries `word` on the wire: the word big-endian,
/// then its CRC.
pub open spec fn word_group(word: u16) -> Seq<u8> {
    let msb = (word / 256) as u8;
    let lsb = (word % 256) as u8;
    seq![msb, lsb, spec_crc8(seq![msb, lsb])]
}

/// Unsigned value of a big-endian byte pair.
pub(crate) fn u16_from_be(msb: u8, lsb: u8) -> (word: u16)
    ensures
        word == be_u16(msb, lsb),
{
    (msb as u16) * 256 + (lsb as u16)
}

/// Two's-complement value of a big-endian byte pair.
pub(crate) fn i16_from_be(msb: u8, lsb: u8) -> (word: i16)
    ensures
        word == be_i16(msb, lsb),
{
    if msb < 128 {
        (msb as i16) * 256 + (lsb as i16)
    } else {
        ((msb as i16) - 256) * 256 + (lsb as i16)
    }
}

/// Whether a data word and the CRC received after it agree.
pub(crate) fn crc_matches(msb: u8, lsb: u8, crc: u8) -> (ok: bool)
    ensures
        ok == (spec_crc8(seq![msb, lsb]) == crc),
{
    let computed = crc8([msb, lsb]);
    proof {
        assert([msb, lsb]@ =~= seq![msb, lsb]);
    }
    computed == crc
}

/// A word sent as its 3-byte group reads back as the same word, with a
/// matching CRC.
pub(crate) proof fn lemma_word_group(word: u16)
    ensures
        word_group(word).len() == 3,
        group_crc_ok(word_group(word), 0),
        group_u16(word_group(word), 0) == word,
{
}

} // verus!
