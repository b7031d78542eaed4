use libscd::frame::decode_enabled;
use libscd::scd30::{
    decode_data_ready, decode_firmware_version, decode_measurement_bits, Op, Scd30,
    BOOT_DELAY_MILLIS, WRITE_DELAY_MILLIS,
};
use libscd::transfer::read_response;
use libscd::{Effect, Error, Transfer};

fn transfer(frame: &[u8], delay_ms: u32, read_len: usize) -> Transfer {
    Transfer { frame: frame.to_vec(), delay_ms, read_len, effect: Effect::Keep }
}

#[test]
fn scd30_test_prepare_command() {
    assert_eq!([0x00, 0x10], Op::StartContinuousMeasurement.command().prepare());
}

#[test]
fn scd30_test_prepare_command_with_data() {
    assert_eq!(
        [0x54, 0x03, 0x01, 0xF4, 0x33],
        Op::GetSetTemperatureOffset.command().prepare_with_data(0x01F4)
    );
}

#[test]
fn measurement_response_carries_three_floats() {
    let buf = [
        0x43, 0xDB, 0xCB, // CO2: MMSB, MLSB, CRC
        0x8C, 0x2E, 0x8F, // CO2: LMSB, LLSB, CRC
        0x41, 0xD9, 0x70, // TMP: MMSB, MLSB, CRC
        0xE7, 0xFF, 0xF5, // TMP: LMSB, LLSB, CRC
        0x42, 0x43, 0xBF, // RH%: MMSB, MLSB, CRC
        0x3A, 0x1B, 0x74, // RH%: LMSB, LLSB, CRC
    ];
    assert_eq!(Ok(()), read_response::<()>(&buf));
    let (co2, tmp, hum) = decode_measurement_bits(buf);
    assert_eq!((0x43DB_8C2E, 0x41D9_E7FF, 0x4243_3A1B), (co2, tmp, hum));
    assert_eq!(439, f32::from_bits(co2) as u16);
    assert!((27.2 - f32::from_bits(tmp)).abs() < 0.05);
    assert!((48.8 - f32::from_bits(hum)).abs() < 0.05);
}

#[test]
fn start_accepts_zero_or_a_pressure_in_range() {
    let s = Scd30::new((), ());
    assert_eq!(
        Ok(transfer(&[0x00, 0x10, 0x00, 0x00, 0x81], WRITE_DELAY_MILLIS, 0)),
        s.start_continuous_measurement::<()>(0)
    );
    assert!(s.start_continuous_measurement::<()>(700).is_ok());
    assert!(s.start_continuous_measurement::<()>(1013).is_ok());
    assert_eq!(
        Ok(transfer(&[0x00, 0x10, 0x05, 0x78, 0xB7], WRITE_DELAY_MILLIS, 0)),
        s.start_continuous_measurement::<()>(1400)
    );
    assert_eq!(Err(Error::InvalidInput), s.start_continuous_measurement::<()>(1));
    assert_eq!(Err(Error::InvalidInput), s.start_continuous_measurement::<()>(699));
    assert_eq!(Err(Error::InvalidInput), s.start_continuous_measurement::<()>(1401));
}

#[test]
fn measurement_interval_range() {
    let s = Scd30::new((), ());
    assert_eq!(Err(Error::InvalidInput), s.set_measurement_interval::<()>(0));
    assert_eq!(Err(Error::InvalidInput), s.set_measurement_interval::<()>(1));
    assert_eq!(Err(Error::InvalidInput), s.set_measurement_interval::<()>(1801));
    assert_eq!(
        Ok(transfer(&[0x46, 0x00, 0x00, 0x02, 0xE3], WRITE_DELAY_MILLIS, 0)),
        s.set_measurement_interval::<()>(2)
    );
    assert_eq!(
        Ok(transfer(&[0x46, 0x00, 0x07, 0x08, 0x96], WRITE_DELAY_MILLIS, 0)),
        s.set_measurement_interval::<()>(1800)
    );
}

#[test]
fn forced_recalibration_reference_range() {
    let s = Scd30::new((), ());
    assert_eq!(Err(Error::InvalidInput), s.set_forced_recalibration_value::<()>(399));
    assert_eq!(Err(Error::InvalidInput), s.set_forced_recalibration_value::<()>(2001));
    assert_eq!(
        Ok(transfer(&[0x52, 0x04, 0x01, 0x90, 0x4C], WRITE_DELAY_MILLIS, 0)),
        s.set_forced_recalibration_value::<()>(400)
    );
    assert_eq!(
        Ok(transfer(&[0x52, 0x04, 0x07, 0xD0, 0x2B], WRITE_DELAY_MILLIS, 0)),
        s.set_forced_recalibration_value::<()>(2000)
    );
}

#[test]
fn scd30_reads_and_writes() {
    let s = Scd30::new((), ());
    assert_eq!(transfer(&[0x01, 0x04], WRITE_DELAY_MILLIS, 0), s.stop_continuous_measurement());
    assert_eq!(transfer(&[0x02, 0x02], WRITE_DELAY_MILLIS, 3), s.data_ready());
    assert_eq!(transfer(&[0x03, 0x00], WRITE_DELAY_MILLIS, 18), s.read_measurement());
    assert_eq!(transfer(&[0x46, 0x00], WRITE_DELAY_MILLIS, 3), s.get_measurement_interval());
    assert_eq!(transfer(&[0xD1, 0x00], WRITE_DELAY_MILLIS, 3), s.read_firmware_version());
    assert_eq!(
        transfer(&[0x53, 0x06, 0x00, 0x01, 0xB0], WRITE_DELAY_MILLIS, 0),
        s.enable_automatic_self_calibration(true)
    );
    assert_eq!(
        transfer(&[0x54, 0x03, 0x01, 0xF4, 0x33], WRITE_DELAY_MILLIS, 0),
        s.set_temperature_offset(500)
    );
    assert_eq!(
        transfer(&[0x51, 0x02, 0x03, 0x42, 0xF3], WRITE_DELAY_MILLIS, 0),
        s.set_altitude_compensation(834)
    );
}

#[test]
fn soft_reset_waits_for_the_boot() {
    let s = Scd30::new((), ());
    assert_eq!(
        transfer(&[0xD3, 0x04], WRITE_DELAY_MILLIS + BOOT_DELAY_MILLIS, 0),
        s.soft_reset()
    );
    assert_eq!(2_005, s.soft_reset().delay_ms);
}

#[test]
fn scd30_decoders() {
    assert!(decode_data_ready([0x00, 0x01, 0xB0]));
    assert!(!decode_data_ready([0x00, 0x00, 0x81]));
    assert!(!decode_data_ready([0x00, 0x03, 0xD2]));
    assert!(decode_enabled([0x00, 0x01, 0xB0]));
    assert_eq!((3, 66), decode_firmware_version([0x03, 0x42, 0xF3]));
}

#[test]
fn scd30_session_gives_the_bus_back() {
    assert_eq!(5u8, Scd30::new(5u8, ()).release());
}
