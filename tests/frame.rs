use libscd::crc::crc8;
use libscd::frame::{
    assert_chunked_with_len3, crc8_verify_chunked_3, decode_enabled, decode_word,
    from_be_bytes, opcode_with_data_into_payload, to_be_bytes,
};
use libscd::transfer::read_response;
use libscd::Error;

#[test]
fn test_buf_len_is_multiple_of_three() {
    assert_chunked_with_len3(&[0; 3]);
    assert_chunked_with_len3(&[0; 6]);
    assert_chunked_with_len3(&[0; 9]);
}

#[test]
fn test_chunked_crc8() {
    assert!(crc8_verify_chunked_3(&[0xBE, 0xEF, 0x92]));
    assert!(crc8_verify_chunked_3(&[0xBE, 0xEF, 0x92, 0xBE, 0xEF, 0x92]))
}

#[test]
fn chunked_crc8_rejects_a_wrong_checksum() {
    assert!(!crc8_verify_chunked_3(&[0xBE, 0xEF, 0x90]));
}

#[test]
fn chunked_crc8_rejects_a_wrong_first_group() {
    assert!(!crc8_verify_chunked_3(&[0xBE, 0xEF, 0x91, 0xBE, 0xEF, 0x92]));
}

#[test]
fn chunked_crc8_rejects_a_wrong_last_group() {
    assert!(!crc8_verify_chunked_3(&[0xBE, 0xEF, 0x92, 0xBE, 0xEF, 0x91]));
}

#[test]
fn chunked_crc8_rejects_a_changed_data_byte() {
    assert!(!crc8_verify_chunked_3(&[0xBE, 0xEE, 0x92]));
}

#[test]
fn chunked_crc8_accepts_an_empty_buffer() {
    assert!(crc8_verify_chunked_3(&[]));
}

#[test]
fn test_opcode_with_data_into_payload() {
    let result = opcode_with_data_into_payload(0x0102, 0x0304);
    assert_eq!([0x01, 0x02, 0x03, 0x04, 0x68], result);
}

#[test]
fn payload_reads_back_as_what_was_sent() {
    for (opcode, data) in [(0x0000u16, 0x0000u16), (0x241D, 0x07E6), (0xFFFF, 0xFFFF), (0xE000, 0x03F5)] {
        let p = opcode_with_data_into_payload(opcode, data);
        assert_eq!(opcode, from_be_bytes(p[0], p[1]));
        assert_eq!(data, from_be_bytes(p[2], p[3]));
        assert_eq!(crc8(&p[2..4]), p[4]);
        assert!(crc8_verify_chunked_3(&p[2..5]));
    }
}

#[test]
fn words_split_and_join_big_endian() {
    assert_eq!([0x12, 0x34], to_be_bytes(0x1234));
    assert_eq!(0x1234, from_be_bytes(0x12, 0x34));
    assert_eq!(0xFFFF, from_be_bytes(0xFF, 0xFF));
    assert_eq!(0x07E6, decode_word([0x07, 0xE6, 0x48]));
}

#[test]
fn enabled_word_is_any_non_zero_value() {
    assert!(!decode_enabled([0x00, 0x00, 0x81]));
    assert!(decode_enabled([0x00, 0x01, 0xB0]));
    assert!(decode_enabled([0x80, 0x00, 0xA2]));
}

#[test]
fn read_response_accepts_valid_groups() {
    let buf = [0x01, 0xF4, 0x33, 0x66, 0x67, 0xA2, 0x5E, 0xB9, 0x3C];
    assert_eq!(Ok(()), read_response::<()>(&buf));
}

#[test]
fn read_response_reports_a_checksum_error() {
    let buf = [0x01, 0xF4, 0x33, 0x66, 0x67, 0xA3, 0x5E, 0xB9, 0x3C];
    assert_eq!(Err(Error::CRC), read_response::<()>(&buf));
}

#[test]
fn chunked_crc8_catches_every_single_byte_change() {
    let valid = [0x01, 0xF4, 0x33, 0x66, 0x67, 0xA2, 0x5E, 0xB9, 0x3C];
    assert!(crc8_verify_chunked_3(&valid));
    for i in 0..valid.len() {
        for flip in [0x01u8, 0x80, 0xFF] {
            let mut tampered = valid;
            tampered[i] ^= flip;
            assert!(!crc8_verify_chunked_3(&tampered), "byte {} xor {:#x}", i, flip);
        }
    }
}
