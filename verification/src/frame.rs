//! Big-endian words and the frames that the sensor answers with.
//!
//! A frame is a sequence of groups of three bytes. Word `k` of a frame is
//! made of the bytes `3k` and `3k + 1`, high byte first; byte `3k + 2` is
//! the checksum of the two.
use vstd::prelude::*;
use crate::types::{
    Measurement, Reading, HUMIDITY_SCALE, INDEX_SCALE, PM_SCALE, TEMPERATURE_SCALE,
};

verus! {

/// Length of the frame that holds the serial number.
pub const SERIAL_NUMBER_FRAME: usize = 9;

/// Length of the frame that holds the data-ready status.
pub const DATA_READY_FRAME: usize = 3;

/// Length of the frame that holds one measurement.
pub const MEASUREMENT_FRAME: usize = 24;

/// The bits of the status word that tell that data is ready: the low eleven.
pub const DATA_READY_MASK: u16 = 0x7FF;

/// The two bytes of a word, high byte first.
pub open spec fn be_bytes(word: u16) -> Seq<u8> {
    seq![(word / 256) as u8, (word % 256) as u8]
}

/// The word made of two bytes, high byte first.
pub open spec fn be_word(hi: u8, lo: u8) -> u16 {
    (256 * hi + lo) as u16
}

/// Word `k` of a frame.
pub open spec fn word_at(frame: Seq<u8>, k: int) -> u16 {
    be_word(frame[3 * k], frame[3 * k + 1])
}

/// The 48-bit serial number in a frame of three words, first word highest.
pub open spec fn serial_of(frame: Seq<u8>) -> u64 {
    (0x1_0000_0000 * word_at(frame, 0) + 0x1_0000 * word_at(frame, 1) + word_at(frame, 2)) as u64
}

/// Whether a status word says that a measurement waits to be read: one of
/// its low eleven bits is set.
pub open spec fn ready_of(status: u16) -> bool {
    status & DATA_READY_MASK != 0
}

/// Whether bit `bit` of `word` is set.
pub open spec fn bit_set(word: u16, bit: u16) -> bool {
    (word >> bit) & 1 == 1
}

/// The readings in a frame of eight words: the four mass concentrations,
/// then humidity, temperature, VOC index and NOx index, each with the scale
/// of its kind.
pub open spec fn measurement_of(frame: Seq<u8>) -> Measurement {
    Measurement {
        pm1_0: Reading { word: word_at(frame, 0), scale: PM_SCALE },
        pm2_5: Reading { word: word_at(frame, 1), scale: PM_SCALE },
        pm4_0: Reading { word: word_at(frame, 2), scale: PM_SCALE },
        pm10_0: Reading { word: word_at(frame, 3), scale: PM_SCALE },
        humidity: Reading { word: word_at(frame, 4), scale: HUMIDITY_SCALE },
        temperature: Reading { word: word_at(frame, 5), scale: TEMPERATURE_SCALE },
        voc_index: Reading { word: word_at(frame, 6), scale: INDEX_SCALE },
        nox_index: Reading { word: word_at(frame, 7), scale: INDEX_SCALE },
    }
}

/// Splits a word into its two bytes, high byte first.
pub fn encode_word(word: u16) -> (bytes: [u8; 2])
    ensures
        bytes@ == be_bytes(word),
{
    let hi: u8 = (word >> 8) as u8;
    let lo: u8 = (word & 0xFF) as u8;
    proof {
        assert((word >> 8) as u8 == (word / 256) as u8) by (bit_vector);
        assert((word & 0xFF) as u8 == (word % 256) as u8) by (bit_vector);
    }
    let bytes: [u8; 2] = [hi, lo];
    assert(bytes@ =~= be_bytes(word));
    bytes
}

/// Joins two bytes, high byte first, into a word.
pub fn decode_word(hi: u8, lo: u8) -> (word: u16)
    ensures
        word == be_word(hi, lo),
{
    proof {
        assert(((hi as u16) << 8 | (lo as u16)) == (256 * hi + lo) as u16) by (bit_vector);
    }
    (hi as u16) << 8 | (lo as u16)
}

/// A word that is split into bytes and joined again is the same word.
pub proof fn lemma_word_round_trip(word: u16)
    ensures
        be_bytes(word).len() == 2,
        be_word(be_bytes(word)[0], be_bytes(word)[1]) == word,
{
}

/// The serial number that a frame of three words holds.
pub fn decode_serial_number(frame: &[u8; SERIAL_NUMBER_FRAME]) -> (serial: u64)
    ensures
        serial == serial_of(frame@),
{
    let high: u16 = decode_word(frame[0], frame[1]);
    let mid: u16 = decode_word(frame[3], frame[4]);
    let low: u16 = decode_word(frame[6], frame[7]);
    proof {
        assert(((high as u64) << 32 | (mid as u64) << 16 | (low as u64)) == (0x1_0000_0000 * high
            + 0x1_0000 * mid + low) as u64) by (bit_vector);
    }
    (high as u64) << 32 | (mid as u64) << 16 | (low as u64)
}

/// Whether the status word in a frame of one word says that data is ready.
pub fn decode_data_ready(frame: &[u8; DATA_READY_FRAME]) -> (ready: bool)
    ensures
        ready == ready_of(word_at(frame@, 0)),
{
    let status: u16 = decode_word(frame[0], frame[1]);
    (status & DATA_READY_MASK) != 0
}

/// The readings that a frame of eight words holds.
pub fn decode_measurement(frame: &[u8; MEASUREMENT_FRAME]) -> (readings: Measurement)
    ensures
        readings == measurement_of(frame@),
        readings.well_formed(),
{
    Measurement {
        pm1_0: Reading { word: decode_word(frame[0], frame[1]), scale: PM_SCALE },
        pm2_5: Reading { word: decode_word(frame[3], frame[4]), scale: PM_SCALE },
        pm4_0: Reading { word: decode_word(frame[6], frame[7]), scale: PM_SCALE },
        pm10_0: Reading { word: decode_word(frame[9], frame[10]), scale: PM_SCALE },
        humidity: Reading { word: decode_word(frame[12], frame[13]), scale: HUMIDITY_SCALE },
        temperature: Reading { word: decode_word(frame[15], frame[16]), scale: TEMPERATURE_SCALE },
        voc_index: Reading { word: decode_word(frame[18], frame[19]), scale: INDEX_SCALE },
        nox_index: Reading { word: decode_word(frame[21], frame[22]), scale: INDEX_SCALE },
    }
}

/// A status word with one of its low eleven bits set says that data is ready.
pub proof fn lemma_ready_when_low_bit_set(status: u16, bit: u16)
    requires
        bit < 11,
        bit_set(status, bit),
    ensures
        ready_of(status),
{
    assert(bit < 11 && (status >> bit) & 1 == 1 ==> status & 0x7FF != 0) by (bit_vector);
}

/// A status word whose low eleven bits are all clear, zero among them, says
/// that no data is ready.
pub proof fn lemma_not_ready_without_low_bit(status: u16)
    requires
        forall|bit: u16| bit < 11 ==> !bit_set(status, bit),
    ensures
        !ready_of(status),
{
    assert(!bit_set(status, 0) && !bit_set(status, 1) && !bit_set(status, 2) && !bit_set(status, 3)
        && !bit_set(status, 4) && !bit_set(status, 5) && !bit_set(status, 6) && !bit_set(
        status,
        7,
    ) && !bit_set(status, 8) && !bit_set(status, 9) && !bit_set(status, 10));
    assert(((status >> 0) & 1 != 1 && (status >> 1) & 1 != 1 && (status >> 2) & 1 != 1 && (status
        >> 3) & 1 != 1 && (status >> 4) & 1 != 1 && (status >> 5) & 1 != 1 && (status >> 6) & 1 != 1
        && (status >> 7) & 1 != 1 && (status >> 8) & 1 != 1 && (status >> 9) & 1 != 1 && (status
        >> 10) & 1 != 1) ==> status & 0x7FF == 0) by (bit_vector);
}

} // verus!
