use crate::frame::{from_be_bytes, word_at};
use vstd::prelude::*;

verus! {

/// Members of the SCD4x family, as the sensor reports itself.
#[derive(Clone, Copy, Debug, PartialEq, Eq, Structural)]
pub enum SensorVariant {
    Scd40,
    Scd41,
    Scd43,
}

/// Status word with which the sensor reports a forced recalibration that
/// failed because it had not been operated before the command.
pub const FRC_FAILED: u16 = 0xFFFF;

/// Bits of the data-ready status word that tell a measurement is waiting.
pub const DATA_READY_MASK: u16 = 0x07FF;

/// The serial number in a 9-byte response: the data words of its three
/// groups, first group most significant.
pub open spec fn serial_number_of(buf: Seq<u8>) -> int {
    word_at(buf, 0) * 0x1_0000_0000 + word_at(buf, 3) * 0x1_0000 + word_at(buf, 6)
}

/// What a forced-recalibration status word means: `None` when the sensor
/// reports failure, else the correction it applied, in ppm.
pub open spec fn frc_correction(raw: u16) -> Option<i16> {
    if raw == FRC_FAILED {
        None
    } else {
        Some((raw - 0x8000) as i16)
    }
}

/// Whether a data-ready status word says that a measurement is waiting: any
/// of its low eleven bits is set.
pub open spec fn data_ready_of(status: u16) -> bool {
    status % 0x800 != 0
}

/// Which member of the family a sensor-variant word names: the top four bits
/// are 0 for the SCD40, 1 for the SCD41 and 5 for the SCD43.
pub open spec fn variant_of(raw: u16) -> Option<SensorVariant> {
    if raw / 0x1000 == 0 {
        Some(SensorVariant::Scd40)
    } else if raw / 0x1000 == 1 {
        Some(SensorVariant::Scd41)
    } else if raw / 0x1000 == 5 {
        Some(SensorVariant::Scd43)
    } else {
        None
    }
}

/// The CO2 concentration, in ppm, of a measurement word.
pub fn decode_co2_measurement(msb: u8, lsb: u8) -> (r: u16)
    ensures
        r == msb * 256 + lsb,
{
    from_be_bytes(msb, lsb)
}

/// The 48-bit serial number in a 9-byte response.
pub fn decode_serial_number(buf: [u8; 9]) -> (r: u64)
    ensures
        r == serial_number_of(buf@),
{
    let hi = from_be_bytes(buf[0], buf[1]) as u64;
    let mid = from_be_bytes(buf[3], buf[4]) as u64;
    let lo = from_be_bytes(buf[6], buf[7]) as u64;
    hi * 0x1_0000_0000 + mid * 0x1_0000 + lo
}

/// The outcome of a forced recalibration: `None` when it failed for want of
/// prior operation, else the correction applied.
pub fn decode_frc_status(buf: [u8; 3]) -> (r: Option<i16>)
    ensures
        r == frc_correction(word_at(buf@, 0)),
{
    let result = from_be_bytes(buf[0], buf[1]);
    if result == FRC_FAILED {
        return None;
    }
    let frc_correction = result as i32 - 0x8000;
    Some(frc_correction as i16)
}

/// Whether a data-ready response says that a measurement is waiting.
pub fn decode_has_data_ready(buf: [u8; 3]) -> (r: bool)
    ensures
        r == data_ready_of(word_at(buf@, 0)),
{
    let status = from_be_bytes(buf[0], buf[1]);
    assert(status & 0x07FF == status % 0x800) by (bit_vector);
    status & DATA_READY_MASK != 0
}

/// Whether a self-test response reports no malfunction (a zero word).
pub fn decode_self_test(buf: [u8; 3]) -> (r: bool)
    ensures
        r == (word_at(buf@, 0) == 0),
{
    from_be_bytes(buf[0], buf[1]) == 0
}

/// Which member of the family a sensor-variant response names, if any.
pub fn decode_sensor_variant(buf: [u8; 3]) -> (r: Option<SensorVariant>)
    ensures
        r == variant_of(word_at(buf@, 0)),
{
    let raw = from_be_bytes(buf[0], buf[1]);
    let top = raw / 0x1000;
    if top == 0 {
        Some(SensorVariant::Scd40)
    } else if top == 1 {
        Some(SensorVariant::Scd41)
    } else if top == 5 {
        Some(SensorVariant::Scd43)
    } else {
        None
    }
}

} // verus!
