use libscd::crc::crc8;
use libscd::scd4x::codec::{
    decode_co2_measurement, decode_frc_status, decode_has_data_ready, decode_self_test,
    decode_sensor_variant, decode_serial_number,
};
use libscd::scd4x::commands::{Command, Op, MAX_ALTITUDE};
use libscd::scd4x::{Scd40, Scd41, Scd4x};
use libscd::{Effect, Error, SensorVariant, Transfer};

fn transfer(frame: &[u8], delay_ms: u32, read_len: usize, effect: Effect) -> Transfer {
    Transfer { frame: frame.to_vec(), delay_ms, read_len, effect }
}

#[test]
fn test_decode_serial_number() {
    let response = [0xF8, 0x96, 0x31, 0x9F, 0x07, 0xC2, 0x3B, 0xBE, 0x89];
    let serial_number = decode_serial_number(response);
    assert_eq!(273_325_796_834_238, serial_number);
}

#[test]
fn serial_number_of_all_ones_fills_48_bits() {
    let response = [0xFF, 0xFF, 0xAC, 0xFF, 0xFF, 0xAC, 0xFF, 0xFF, 0xAC];
    assert_eq!(0xFFFF_FFFF_FFFF, decode_serial_number(response));
}

#[test]
fn scd4x_test_prepare_command() {
    assert_eq!([0x36, 0x82], Op::GetSerialNumber.command().prepare());
}

#[test]
fn scd4x_test_prepare_command_with_data() {
    assert_eq!(
        [0x24, 0x1D, 0x07, 0xE6, 0x48],
        Op::SetTemperatureOffset.command().prepare_with_data(0x07E6)
    );
}

#[test]
fn catalog_entries_carry_timing_and_gating() {
    assert_eq!(Command::new(0x21b1, 0, false), Op::StartPeriodicMeasurement.command());
    assert_eq!(Command::new(0x3f86, 500, true), Op::StopPeriodicMeasurement.command());
    assert_eq!(Command::new(0xe4b8, 1, true), Op::GetDataReadyStatus.command());
    assert_eq!(Command::new(0x362f, 400, false), Op::PerformForcedRecalibration.command());
    assert_eq!(Command::new(0x3639, 10_000, false), Op::PerformSelfTest.command());
    assert_eq!(Command::new(0x219d, 5_000, false), Op::MeasureSingleShot.command());
}

#[test]
fn test_decode_co2_measurement() {
    let decoded = decode_co2_measurement(0x01, 0xF4);
    assert_eq!(500, decoded)
}

#[test]
fn test_decode_frc_status() {
    let status = decode_frc_status([0x7F, 0xCE, 0x7B]);
    assert_eq!(Some(-50), status);
}

#[test]
fn test_decode_frc_status_failed() {
    let status = decode_frc_status([0xFF, 0xFF, crc8(&[0xFF, 0xFF])]);
    assert_eq!(None, status);
}

#[test]
fn frc_status_bounds() {
    assert_eq!(Some(0), decode_frc_status([0x80, 0x00, 0xA2]));
    assert_eq!(Some(i16::MIN), decode_frc_status([0x00, 0x00, 0x81]));
    assert_eq!(Some(32_766), decode_frc_status([0xFF, 0xFE, 0x9D]));
}

#[test]
fn data_ready_looks_at_the_low_eleven_bits() {
    assert!(!decode_has_data_ready([0x00, 0x00, 0x81]));
    assert!(!decode_has_data_ready([0x80, 0x00, 0xA2]));
    assert!(!decode_has_data_ready([0xF8, 0x00, 0x00]));
    assert!(decode_has_data_ready([0x00, 0x01, 0xB0]));
    assert!(decode_has_data_ready([0x07, 0xFF, 0x00]));
}

#[test]
fn self_test_passes_on_a_zero_word() {
    assert!(decode_self_test([0x00, 0x00, 0x81]));
    assert!(!decode_self_test([0x00, 0x01, 0xB0]));
}

#[test]
fn sensor_variant_from_the_top_four_bits() {
    assert_eq!(Some(SensorVariant::Scd40), decode_sensor_variant([0x00, 0x00, 0x81]));
    assert_eq!(Some(SensorVariant::Scd41), decode_sensor_variant([0x10, 0x00, 0xEF]));
    assert_eq!(Some(SensorVariant::Scd43), decode_sensor_variant([0x50, 0x00, 0x66]));
    assert_eq!(None, decode_sensor_variant([0x20, 0x00, 0x5D]));
}

#[test]
fn new_session_is_idle_and_gives_the_bus_back() {
    let s = Scd4x::new(7u8, ());
    assert!(!s.is_measuring());
    assert_eq!(7, s.release());
    assert_eq!(8, Scd40::new(8u8, ()).release());
    assert_eq!(9, Scd41::new(9u8, ()).release());
}

#[test]
fn bus_and_timer_lend_the_owned_values() {
    let mut s = Scd4x::new(1u8, 2u16);
    {
        let (i2c, delay) = s.bus_and_timer();
        assert_eq!((1, 2), (*i2c, *delay));
        *i2c = 3;
    }
    assert_eq!(3, s.release());
}

#[test]
fn start_and_stop_transfers() {
    let s = Scd4x::new((), ());
    assert_eq!(
        Ok(transfer(&[0x21, 0xB1], 0, 0, Effect::StartMeasuring)),
        s.start_periodic_measurement::<()>()
    );
    assert_eq!(
        Ok(transfer(&[0x3F, 0x86], 500, 0, Effect::StopMeasuring)),
        s.stop_periodic_measurement::<()>()
    );
    assert_eq!(
        Ok(transfer(&[0x21, 0xAC], 0, 0, Effect::Keep)),
        s.start_low_power_periodic_measurement::<()>()
    );
}

#[test]
fn read_transfers_ask_for_whole_groups() {
    let s = Scd4x::new((), ());
    assert_eq!(Ok(transfer(&[0xE4, 0xB8], 1, 3, Effect::Keep)), s.data_ready::<()>());
    assert_eq!(Ok(transfer(&[0xEC, 0x05], 1, 9, Effect::Keep)), s.read_measurement::<()>());
    assert_eq!(Ok(transfer(&[0x36, 0x82], 1, 9, Effect::Keep)), s.serial_number::<()>());
    assert_eq!(Ok(transfer(&[0x36, 0x39], 10_000, 3, Effect::Keep)), s.perform_self_test::<()>());
}

#[test]
fn forced_recalibration_sends_the_reference_and_reads_the_status() {
    let s = Scd4x::new((), ());
    assert_eq!(
        Ok(transfer(&[0x36, 0x2F, 0x01, 0x90, 0x4C], 400, 3, Effect::Keep)),
        s.perform_forced_recalibration::<()>(400)
    );
}

#[test]
fn self_calibration_switch_sends_one_or_zero() {
    let s = Scd4x::new((), ());
    assert_eq!(
        Ok(transfer(&[0x24, 0x16, 0x00, 0x01, 0xB0], 1, 0, Effect::Keep)),
        s.enable_automatic_self_calibration::<()>(true)
    );
    assert_eq!(
        Ok(transfer(&[0x24, 0x16, 0x00, 0x00, 0x81], 1, 0, Effect::Keep)),
        s.enable_automatic_self_calibration::<()>(false)
    );
}

#[test]
fn commands_not_marked_for_measurement_are_refused_while_measuring() {
    let mut s = Scd4x::new((), ());
    let start = s.start_periodic_measurement::<()>().unwrap();
    s.written(&start);
    assert!(s.is_measuring());
    assert_eq!(Err(Error::NotAllowed), s.set_sensor_altitude::<()>(100));
    assert_eq!(Err(Error::NotAllowed), s.serial_number::<()>());
    assert_eq!(Err(Error::NotAllowed), s.perform_forced_recalibration::<()>(400));
    assert_eq!(Err(Error::NotAllowed), s.start_periodic_measurement::<()>());
    assert_eq!(Err(Error::NotAllowed), s.write_command::<()>(Op::Reinit.command()));
    assert!(s.data_ready::<()>().is_ok());
    assert!(s.read_measurement::<()>().is_ok());
    assert!(s.set_ambient_pressure::<()>(1013).is_ok());

    let stop = s.stop_periodic_measurement::<()>().unwrap();
    s.written(&stop);
    assert!(!s.is_measuring());
    assert_eq!(
        Ok(transfer(&[0x24, 0x27, 0x00, 0x64, 0xFE], 1, 0, Effect::Keep)),
        s.set_sensor_altitude::<()>(100)
    );
    assert!(s.serial_number::<()>().is_ok());
}

#[test]
fn low_power_start_keeps_the_state() {
    let mut s = Scd4x::new((), ());
    let t = s.start_low_power_periodic_measurement::<()>().unwrap();
    s.written(&t);
    assert!(!s.is_measuring());
}

#[test]
fn altitude_above_the_maximum_is_rejected() {
    let s = Scd4x::new((), ());
    assert_eq!(Err(Error::InvalidInput), s.set_sensor_altitude::<()>(MAX_ALTITUDE + 1));
    assert_eq!(Err(Error::InvalidInput), s.set_sensor_altitude::<()>(u16::MAX));
    assert_eq!(
        Ok(transfer(&[0x24, 0x27, 0x0B, 0xB8, 0x9D], 1, 0, Effect::Keep)),
        s.set_sensor_altitude::<()>(MAX_ALTITUDE)
    );
}

#[test]
fn ambient_pressure_outside_the_range_is_rejected() {
    let s = Scd4x::new((), ());
    assert_eq!(Err(Error::InvalidInput), s.set_ambient_pressure::<()>(699));
    assert_eq!(Err(Error::InvalidInput), s.set_ambient_pressure::<()>(1201));
    assert_eq!(Err(Error::InvalidInput), s.set_ambient_pressure::<()>(0));
    assert_eq!(
        Ok(transfer(&[0xE0, 0x00, 0x02, 0xBC, 0x9A], 1, 0, Effect::Keep)),
        s.set_ambient_pressure::<()>(700)
    );
    assert_eq!(
        Ok(transfer(&[0xE0, 0x00, 0x04, 0xB0, 0xBD], 1, 0, Effect::Keep)),
        s.set_ambient_pressure::<()>(1200)
    );
}

#[test]
fn range_check_comes_before_the_state_check() {
    let mut s = Scd4x::new((), ());
    let start = s.start_periodic_measurement::<()>().unwrap();
    s.written(&start);
    assert_eq!(Err(Error::InvalidInput), s.set_sensor_altitude::<()>(5_000));
}

#[test]
fn models_share_the_driver_rules() {
    let mut s = Scd41::new((), ());
    assert_eq!(
        Ok(transfer(&[0x21, 0x9D], 5_000, 0, Effect::Keep)),
        s.measure_single_shot::<()>()
    );
    let start = s.start_periodic_measurement::<()>().unwrap();
    s.written(&start);
    assert!(s.is_measuring());
    assert_eq!(Err(Error::NotAllowed), s.power_down::<()>());

    let mut s = Scd40::new((), ());
    assert_eq!(Err(Error::InvalidInput), s.set_ambient_pressure::<()>(1500));
    let start = s.start_periodic_measurement::<()>().unwrap();
    s.written(&start);
    assert_eq!(Err(Error::NotAllowed), s.get_sensor_altitude::<()>());
}
