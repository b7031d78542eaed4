use libscd::crc::crc8;

#[test]
fn test_crc8() {
    let checksum = crc8(&[0xBE, 0xEF]);
    assert_eq!(0x92, checksum);
}

#[test]
fn crc8_of_nothing_is_the_initial_value() {
    assert_eq!(0xFF, crc8(&[]));
}

#[test]
fn crc8_of_single_bytes() {
    assert_eq!(0xAC, crc8(&[0x00]));
    assert_eq!(0x00, crc8(&[0xFF]));
}

#[test]
fn crc8_of_data_words_from_the_datasheets() {
    assert_eq!(0x48, crc8(&[0x07, 0xE6]));
    assert_eq!(0x33, crc8(&[0x01, 0xF4]));
    assert_eq!(0x7B, crc8(&[0x7F, 0xCE]));
    assert_eq!(0x63, crc8(&[0x09, 0x12]));
}

#[test]
fn crc8_is_the_same_on_every_call() {
    for b0 in [0x00u8, 0x12, 0xBE, 0xFF] {
        for b1 in [0x00u8, 0x34, 0xEF, 0xFF] {
            assert_eq!(crc8(&[b0, b1]), crc8(&[b0, b1]));
        }
    }
}
