use crate::error::Error;
use crate::frame::{
    be_bytes, from_be_bytes, opcode_with_data_into_payload, payload, to_be_bytes, word_at,
};
use crate::transfer::{transfer_is, Effect, Transfer};
use vstd::prelude::*;

verus! {

/// I2C address of the SCD30.
pub const I2C_ADDRESS: u8 = 0x61;

/// Wait after every write, in milliseconds. The sensor asks for at least 3 ms
/// before a response is read; waiting after every command is the safe reading
/// of its timing diagram.
pub const WRITE_DELAY_MILLIS: u32 = 5;

/// Longest time the sensor takes to boot, in milliseconds.
pub const BOOT_DELAY_MILLIS: u32 = 2_000;

/// Ambient pressure value that switches pressure compensation off.
pub const AMBIENT_PRESSURE_DISABLE_COMPENSATION: u16 = 0;

/// Lowest ambient pressure the sensor accepts, in hPa.
pub const AMBIENT_PRESSURE_MIN_HPA: u16 = 700;

/// Highest ambient pressure the sensor accepts, in hPa.
pub const AMBIENT_PRESSURE_MAX_HPA: u16 = 1_400;

/// Shortest measurement interval, in seconds.
pub const MEASUREMENT_INTERVAL_MIN: u16 = 2;

/// Longest measurement interval, in seconds.
pub const MEASUREMENT_INTERVAL_MAX: u16 = 1_800;

/// Lowest reference concentration for forced recalibration, in ppm.
pub const FRC_PPM_MIN: u16 = 400;

/// Highest reference concentration for forced recalibration, in ppm.
pub const FRC_PPM_MAX: u16 = 2_000;

/// Length of a measurement response: three floats, each as two checked words.
pub const MEASUREMENT_LEN: usize = 18;

/// A command of the SCD30 protocol, by its opcode.
#[derive(Clone, Copy, Debug, PartialEq, Eq, Structural)]
pub struct Command(pub u16);

impl Command {
    /// The frame that sends the command without data: its opcode, big-endian.
    pub fn prepare(self) -> (r: [u8; 2])
        ensures
            r@ == be_bytes(self.0),
    {
        to_be_bytes(self.0)
    }

    /// The frame that sends the command with the data word `data`.
    pub fn prepare_with_data(self, data: u16) -> (r: [u8; 5])
        ensures
            r@ == payload(self.0, data),
    {
        opcode_with_data_into_payload(self.0, data)
    }
}

/// The commands of the SCD30 catalog.
#[derive(Clone, Copy, Debug, PartialEq, Eq, Structural)]
pub enum Op {
    /// Start continuous measurement, with an optional ambient pressure.
    StartContinuousMeasurement,
    /// Stop continuous measurement.
    StopContinuousMeasurement,
    /// Read or write the measurement interval.
    GetSetMeasurementInterval,
    /// Read the data-ready status.
    GetDataReadyStatus,
    /// Read CO2, temperature and humidity.
    ReadMeasurement,
    /// Read or switch automatic self-calibration.
    ManageAutomaticSelfCalibration,
    /// Recalibrate against a reference CO2 concentration.
    SetForcedRecalibrationValue,
    /// Read or write the temperature offset.
    GetSetTemperatureOffset,
    /// Read or write the altitude compensation.
    GetSetAltitudeCompensation,
    /// Read the firmware version.
    ReadFirmwareVersion,
    /// Restart the sensor's controller.
    SoftReset,
}

impl Op {
    /// The opcode of each command.
    pub open spec fn spec_command(self) -> Command {
        match self {
            Op::StartContinuousMeasurement => Command(0x0010),
            Op::StopContinuousMeasurement => Command(0x0104),
            Op::GetSetMeasurementInterval => Command(0x4600),
            Op::GetDataReadyStatus => Command(0x0202),
            Op::ReadMeasurement => Command(0x0300),
            Op::ManageAutomaticSelfCalibration => Command(0x5306),
            Op::SetForcedRecalibrationValue => Command(0x5204),
            Op::GetSetTemperatureOffset => Command(0x5403),
            Op::GetSetAltitudeCompensation => Command(0x5102),
            Op::ReadFirmwareVersion => Command(0xD100),
            Op::SoftReset => Command(0xD304),
        }
    }

    /// Looks the command up in the catalog.
    #[verifier::when_used_as_spec(spec_command)]
    pub fn command(self) -> (c: Command)
        ensures
            c == self.spec_command(),
    {
        match self {
            Op::StartContinuousMeasurement => Command(0x0010),
            Op::StopContinuousMeasurement => Command(0x0104),
            Op::GetSetMeasurementInterval => Command(0x4600),
            Op::GetDataReadyStatus => Command(0x0202),
            Op::ReadMeasurement => Command(0x0300),
            Op::ManageAutomaticSelfCalibration => Command(0x5306),
            Op::SetForcedRecalibrationValue => Command(0x5204),
            Op::GetSetTemperatureOffset => Command(0x5403),
            Op::GetSetAltitudeCompensation => Command(0x5102),
            Op::ReadFirmwareVersion => Command(0xD100),
            Op::SoftReset => Command(0xD304),
        }
    }
}

/// Whether the sensor accepts `p` when continuous measurement starts: zero,
/// which switches pressure compensation off, or a pressure in hPa within its
/// range.
pub open spec fn start_pressure_valid(p: u16) -> bool {
    p == AMBIENT_PRESSURE_DISABLE_COMPENSATION || AMBIENT_PRESSURE_MIN_HPA <= p
        <= AMBIENT_PRESSURE_MAX_HPA
}

/// Whether `t` sends `op` without data and reads `read_len` bytes back.
pub open spec fn sends(t: Transfer, op: Op, read_len: int) -> bool {
    transfer_is(t, be_bytes(op.command().0), WRITE_DELAY_MILLIS as int, read_len, Effect::Keep)
}

/// Whether `t` sends `op` with the data word `data`.
pub open spec fn sends_data(t: Transfer, op: Op, data: u16) -> bool {
    transfer_is(t, payload(op.command().0, data), WRITE_DELAY_MILLIS as int, 0, Effect::Keep)
}

/// The four bytes of the float that starts at `buf[i]` in a measurement
/// response, checksums left out, as one big-endian 32-bit word.
pub open spec fn float_bits_at(buf: Seq<u8>, i: int) -> int {
    word_at(buf, i) * 0x1_0000 + word_at(buf, i + 3)
}

/// Whether a data-ready status word says that a measurement is waiting.
pub open spec fn data_ready_of(status: u16) -> bool {
    status == 1
}

/// Whether a data-ready response says that a measurement is waiting.
pub fn decode_data_ready(buf: [u8; 3]) -> (r: bool)
    ensures
        r == data_ready_of(word_at(buf@, 0)),
{
    from_be_bytes(buf[0], buf[1]) == 1
}

/// The bit patterns of the three IEEE-754 single-precision floats of a
/// measurement response, checksums left out: CO2 (ppm), temperature (°C)
/// and relative humidity (%).
pub fn decode_measurement_bits(buf: [u8; 18]) -> (r: (u32, u32, u32))
    ensures
        r.0 == float_bits_at(buf@, 0),
        r.1 == float_bits_at(buf@, 6),
        r.2 == float_bits_at(buf@, 12),
{
    let co2 = from_be_bytes(buf[0], buf[1]) as u32 * 0x1_0000 + from_be_bytes(buf[3], buf[4]) as u32;
    let tmp = from_be_bytes(buf[6], buf[7]) as u32 * 0x1_0000 + from_be_bytes(buf[9], buf[10]) as u32;
    let hum = from_be_bytes(buf[12], buf[13]) as u32 * 0x1_0000 + from_be_bytes(buf[15], buf[16])
        as u32;
    (co2, tmp, hum)
}

/// The firmware version in a response, as (major, minor).
pub fn decode_firmware_version(buf: [u8; 3]) -> (r: (u8, u8))
    ensures
        r == (buf@[0], buf@[1]),
{
    (buf[0], buf[1])
}

/// Driver session for an SCD30 sensor. It owns the bus handle and the delay
/// provider; each operation checks its input and hands out the `Transfer` to
/// perform.
pub struct Scd30<I2C, D> {
    i2c: I2C,
    delay: D,
}

impl<I2C, D> Scd30<I2C, D> {
    /// The bus handle the session owns.
    pub closed spec fn bus(self) -> I2C {
        self.i2c
    }

    /// The delay provider the session owns.
    pub closed spec fn timer(self) -> D {
        self.delay
    }

    /// Creates a session with the given bus and delay provider.
    pub fn new(i2c: I2C, delay: D) -> (s: Self)
        ensures
            s.bus() == i2c,
            s.timer() == delay,
    {
        Scd30 { i2c, delay }
    }

    /// Ends the session and gives the bus back.
    pub fn release(self) -> (r: I2C)
        ensures
            r == self.bus(),
    {
        self.i2c
    }

    /// Lends out the bus and the delay provider, to perform a transfer.
    pub fn bus_and_timer(&mut self) -> ((i2c, delay): (&mut I2C, &mut D))
        ensures
            *i2c == old(self).bus(),
            *delay == old(self).timer(),
            final(self).bus() == *final(i2c),
            final(self).timer() == *final(delay),
    {
        (&mut self.i2c, &mut self.delay)
    }

    /// Sends `cmd` without data.
    pub fn write_command(&self, cmd: Command) -> (t: Transfer)
        ensures
            transfer_is(t, be_bytes(cmd.0), WRITE_DELAY_MILLIS as int, 0, Effect::Keep),
    {
        Transfer {
            frame: vstd::slice::slice_to_vec(&cmd.prepare()),
            delay_ms: WRITE_DELAY_MILLIS,
            read_len: 0,
            effect: Effect::Keep,
        }
    }

    /// Sends `cmd` with the data word `data`.
    pub fn write_command_with_data(&self, cmd: Command, data: u16) -> (t: Transfer)
        ensures
            transfer_is(t, payload(cmd.0, data), WRITE_DELAY_MILLIS as int, 0, Effect::Keep),
    {
        Transfer {
            frame: vstd::slice::slice_to_vec(&cmd.prepare_with_data(data)),
            delay_ms: WRITE_DELAY_MILLIS,
            read_len: 0,
            effect: Effect::Keep,
        }
    }

    /// Sends `cmd` without data and reads `read_len` bytes back.
    pub fn command_with_response(&self, cmd: Command, read_len: usize) -> (t: Transfer)
        requires
            read_len % 3 == 0,
        ensures
            transfer_is(t, be_bytes(cmd.0), WRITE_DELAY_MILLIS as int, read_len as int, Effect::Keep),
    {
        Transfer {
            frame: vstd::slice::slice_to_vec(&cmd.prepare()),
            delay_ms: WRITE_DELAY_MILLIS,
            read_len,
            effect: Effect::Keep,
        }
    }

    /// Starts continuous measurement. `ambient_pressure_hpa` is the ambient
    /// pressure for compensation, 700 to 1400 hPa, or 0 to switch
    /// compensation off.
    pub fn start_continuous_measurement<E>(&self, ambient_pressure_hpa: u16) -> (r: Result<
        Transfer,
        Error<E>,
    >)
        ensures
            !start_pressure_valid(ambient_pressure_hpa) ==> r == Err::<Transfer, Error<E>>(
                Error::InvalidInput,
            ),
            start_pressure_valid(ambient_pressure_hpa) ==> (r matches Ok(t) && sends_data(
                t,
                Op::StartContinuousMeasurement,
                ambient_pressure_hpa,
            )),
    {
        if !(ambient_pressure_hpa == AMBIENT_PRESSURE_DISABLE_COMPENSATION || (AMBIENT_PRESSURE_MIN_HPA
            <= ambient_pressure_hpa && ambient_pressure_hpa <= AMBIENT_PRESSURE_MAX_HPA)) {
            return Err(Error::InvalidInput);
        }
        Ok(
            self.write_command_with_data(
                Op::StartContinuousMeasurement.command(),
                ambient_pressure_hpa,
            ),
        )
    }

    /// Stops continuous measurement.
    pub fn stop_continuous_measurement(&self) -> (t: Transfer)
        ensures
            sends(t, Op::StopContinuousMeasurement, 0),
    {
        self.write_command(Op::StopContinuousMeasurement.command())
    }

    /// Sets the interval of continuous measurement, 2 to 1800 seconds.
    pub fn set_measurement_interval<E>(&self, interval_seconds: u16) -> (r: Result<
        Transfer,
        Error<E>,
    >)
        ensures
            !(MEASUREMENT_INTERVAL_MIN <= interval_seconds <= MEASUREMENT_INTERVAL_MAX) ==> r
                == Err::<Transfer, Error<E>>(Error::InvalidInput),
            MEASUREMENT_INTERVAL_MIN <= interval_seconds <= MEASUREMENT_INTERVAL_MAX ==> (r matches Ok(
                t,
            ) && sends_data(t, Op::GetSetMeasurementInterval, interval_seconds)),
    {
        if interval_seconds < MEASUREMENT_INTERVAL_MIN || interval_seconds > MEASUREMENT_INTERVAL_MAX {
            return Err(Error::InvalidInput);
        }
        Ok(self.write_command_with_data(Op::GetSetMeasurementInterval.command(), interval_seconds))
    }

    /// Reads the measurement interval, in seconds.
    pub fn get_measurement_interval(&self) -> (t: Transfer)
        ensures
            sends(t, Op::GetSetMeasurementInterval, 3),
    {
        self.command_with_response(Op::GetSetMeasurementInterval.command(), 3)
    }

    /// Asks whether a measurement is waiting; `decode_data_ready` reads the
    /// answer.
    pub fn data_ready(&self) -> (t: Transfer)
        ensures
            sends(t, Op::GetDataReadyStatus, 3),
    {
        self.command_with_response(Op::GetDataReadyStatus.command(), 3)
    }

    /// Reads the latest measurement; `decode_measurement_bits` reads the
    /// answer.
    pub fn read_measurement(&self) -> (t: Transfer)
        ensures
            sends(t, Op::ReadMeasurement, MEASUREMENT_LEN as int),
    {
        self.command_with_response(Op::ReadMeasurement.command(), MEASUREMENT_LEN)
    }

    /// Switches continuous automatic self-calibration on or off.
    pub fn enable_automatic_self_calibration(&self, enable: bool) -> (t: Transfer)
        ensures
            sends_data(t, Op::ManageAutomaticSelfCalibration, if enable { 1 } else { 0 }),
    {
        self.write_command_with_data(
            Op::ManageAutomaticSelfCalibration.command(),
            if enable { 1 } else { 0 },
        )
    }

    /// Asks whether automatic self-calibration is on; `decode_enabled` reads
    /// the answer.
    pub fn get_automatic_self_calibration(&self) -> (t: Transfer)
        ensures
            sends(t, Op::ManageAutomaticSelfCalibration, 3),
    {
        self.command_with_response(Op::ManageAutomaticSelfCalibration.command(), 3)
    }

    /// Recalibrates against the reference concentration `ppm`, 400 to 2000 ppm.
    pub fn set_forced_recalibration_value<E>(&self, ppm: u16) -> (r: Result<Transfer, Error<E>>)
        ensures
            !(FRC_PPM_MIN <= ppm <= FRC_PPM_MAX) ==> r == Err::<Transfer, Error<E>>(
                Error::InvalidInput,
            ),
            FRC_PPM_MIN <= ppm <= FRC_PPM_MAX ==> (r matches Ok(t) && sends_data(
                t,
                Op::SetForcedRecalibrationValue,
                ppm,
            )),
    {
        if ppm < FRC_PPM_MIN || ppm > FRC_PPM_MAX {
            return Err(Error::InvalidInput);
        }
        Ok(self.write_command_with_data(Op::SetForcedRecalibrationValue.command(), ppm))
    }

    /// Writes the temperature offset, in hundredths of a degree Celsius.
    pub fn set_temperature_offset(&self, offset: u16) -> (t: Transfer)
        ensures
            sends_data(t, Op::GetSetTemperatureOffset, offset),
    {
        self.write_command_with_data(Op::GetSetTemperatureOffset.command(), offset)
    }

    /// Reads the temperature offset, in hundredths of a degree Celsius.
    pub fn get_temperature_offset(&self) -> (t: Transfer)
        ensures
            sends(t, Op::GetSetTemperatureOffset, 3),
    {
        self.command_with_response(Op::GetSetTemperatureOffset.command(), 3)
    }

    /// Writes the altitude compensation, in metres above sea level.
    pub fn set_altitude_compensation(&self, altitude: u16) -> (t: Transfer)
        ensures
            sends_data(t, Op::GetSetAltitudeCompensation, altitude),
    {
        self.write_command_with_data(Op::GetSetAltitudeCompensation.command(), altitude)
    }

    /// Reads the altitude compensation, in metres above sea level.
    pub fn get_altitude_compensation(&self) -> (t: Transfer)
        ensures
            sends(t, Op::GetSetAltitudeCompensation, 3),
    {
        self.command_with_response(Op::GetSetAltitudeCompensation.command(), 3)
    }

    /// Reads the firmware version; `decode_firmware_version` reads the answer.
    pub fn read_firmware_version(&self) -> (t: Transfer)
        ensures
            sends(t, Op::ReadFirmwareVersion, 3),
    {
        self.command_with_response(Op::ReadFirmwareVersion.command(), 3)
    }

    /// Restarts the sensor's controller; the transfer waits until it has
    /// booted again.
    pub fn soft_reset(&self) -> (t: Transfer)
        ensures
            transfer_is(
                t,
                be_bytes(Op::SoftReset.command().0),
                WRITE_DELAY_MILLIS + BOOT_DELAY_MILLIS,
                0,
                Effect::Keep,
            ),
    {
        let mut t = self.write_command(Op::SoftReset.command());
        t.delay_ms = WRITE_DELAY_MILLIS + BOOT_DELAY_MILLIS;
        t
    }
}

} // verus!
