use sen5x::commands::Command;
use sen5x::crc8::{calculate, validate};
use sen5x::frame::{
    decode_data_ready, decode_measurement, decode_serial_number, decode_word, encode_word,
};
use sen5x::types::{Measurement, Reading};

const ALL_COMMANDS: [Command; 7] = [
    Command::StartMeasurement,
    Command::StopMeasurement,
    Command::GetReadDataReadyStatus,
    Command::GetSerialNumber,
    Command::ReadMeasurement,
    Command::Reinit,
    Command::StartFanCleaning,
];

#[test]
fn command_table_is_as_documented() {
    assert_eq!(Command::StartMeasurement.as_tuple(), (0x0021, 50, false));
    assert_eq!(Command::StopMeasurement.as_tuple(), (0x0104, 200, true));
    assert_eq!(Command::GetReadDataReadyStatus.as_tuple(), (0x0202, 20, true));
    assert_eq!(Command::GetSerialNumber.as_tuple(), (0xD033, 20, false));
    assert_eq!(Command::ReadMeasurement.as_tuple(), (0x03C4, 20, true));
    assert_eq!(Command::Reinit.as_tuple(), (0xD304, 100, false));
    assert_eq!(Command::StartFanCleaning.as_tuple(), (0x5607, 20, true));
}

#[test]
fn opcodes_survive_the_round_trip() {
    for cmd in ALL_COMMANDS {
        let (opcode, _, _) = cmd.as_tuple();
        let bytes = encode_word(opcode);
        assert_eq!(bytes, opcode.to_be_bytes());
        assert_eq!(decode_word(bytes[0], bytes[1]), opcode);
    }
}

#[test]
fn every_word_survives_the_round_trip() {
    for word in 0..=u16::MAX {
        let bytes = encode_word(word);
        assert_eq!(decode_word(bytes[0], bytes[1]), word);
    }
}

#[test]
fn encode_word_puts_high_byte_first() {
    assert_eq!(encode_word(0xD033), [0xD0, 0x33]);
    assert_eq!(encode_word(0x0021), [0x00, 0x21]);
    assert_eq!(encode_word(0x0000), [0x00, 0x00]);
    assert_eq!(encode_word(0xFFFF), [0xFF, 0xFF]);
}

#[test]
fn decode_word_reads_high_byte_first() {
    assert_eq!(decode_word(0x15, 0x8A), 5514);
    assert_eq!(decode_word(0x00, 0xFF), 255);
    assert_eq!(decode_word(0xFF, 0x00), 0xFF00);
}

#[test]
fn checksum_of_known_words() {
    assert_eq!(calculate(&[0xBE, 0xEF]), 0x92);
    assert_eq!(calculate(&[0x00, 0x12]), 0xA0);
    assert_eq!(calculate(&[0x15, 0x8A]), 0x39);
    assert_eq!(calculate(&[]), 0xFF);
    assert_eq!(calculate(&[0x00]), 0xAC);
}

#[test]
fn validate_accepts_whole_groups_with_good_checksums() {
    assert!(validate(&[]));
    assert!(validate(&[0xBE, 0xEF, 0x92]));
    assert!(validate(&[0xBE, 0xEF, 0x92, 0x00, 0x12, 0xA0]));
}

#[test]
fn validate_rejects_a_bad_checksum_in_any_group() {
    assert!(!validate(&[0xBE, 0xEF, 0x93]));
    assert!(!validate(&[0xBE, 0xEF, 0x93, 0x00, 0x12, 0xA0]));
    assert!(!validate(&[0xBE, 0xEF, 0x92, 0x00, 0x12, 0xA1]));
    assert!(!validate(&[0xBE, 0xEE, 0x92]));
}

#[test]
fn validate_rejects_broken_groups() {
    assert!(!validate(&[0xBE]));
    assert!(!validate(&[0xBE, 0xEF]));
    assert!(!validate(&[0xBE, 0xEF, 0x92, 0xBE]));
}

#[test]
fn serial_number_skips_the_checksum_bytes() {
    let frame = [0xBE, 0xEF, 0x92, 0xBE, 0xEF, 0x92, 0xBE, 0xEF, 0x92];
    assert_eq!(decode_serial_number(&frame), 0xBEEF_BEEF_BEEF);
    let frame = [0x01, 0x02, 0xFF, 0x03, 0x04, 0xFF, 0x05, 0x06, 0xFF];
    assert_eq!(decode_serial_number(&frame), 0x0102_0304_0506);
    assert_eq!(decode_serial_number(&[0xFF; 9]), 0xFFFF_FFFF_FFFF);
}

#[test]
fn ready_status_looks_at_the_low_eleven_bits() {
    assert!(decode_data_ready(&[0x00, 0x01, 0x00]));
    assert!(decode_data_ready(&[0x04, 0x00, 0x00]));
    assert!(decode_data_ready(&[0x07, 0xFF, 0x00]));
    assert!(!decode_data_ready(&[0x00, 0x00, 0x00]));
    assert!(!decode_data_ready(&[0x08, 0x00, 0x00]));
    assert!(!decode_data_ready(&[0xF8, 0x00, 0xFF]));
}

#[test]
fn measurement_frame_is_decoded_field_by_field() {
    let frame = [
        0x00, 0x12, 0xA0, 0x00, 0x16, 0x64, 0x00, 0x18, 0x7B, 0x00, 0x1A, 0x19, 0x15, 0x8A, 0x39,
        0x11, 0x81, 0x50, 0x01, 0x68, 0x77, 0x00, 0x0A, 0x5A,
    ];
    assert!(validate(&frame));
    assert_eq!(
        decode_measurement(&frame),
        Measurement {
            pm1_0: Reading { word: 18, scale: 10 },
            pm2_5: Reading { word: 22, scale: 10 },
            pm4_0: Reading { word: 24, scale: 10 },
            pm10_0: Reading { word: 26, scale: 10 },
            temperature: Reading { word: 4481, scale: 200 },
            humidity: Reading { word: 5514, scale: 100 },
            voc_index: Reading { word: 360, scale: 10 },
            nox_index: Reading { word: 10, scale: 10 },
        }
    );
}
