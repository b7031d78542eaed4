use super::commands::{
    Command, Op, AMBIENT_PRESSURE_MAX_HPA, AMBIENT_PRESSURE_MIN_HPA, MAX_ALTITUDE,
};
use crate::error::Error;
use crate::frame::{be_bytes, payload};
use crate::transfer::{transfer_is, Effect, Transfer};
use vstd::prelude::*;

verus! {

/// Whether the measurement state refuses `cmd`: while periodic measurement
/// runs, only the commands marked for it may be sent.
pub open spec fn forbidden(measuring: bool, cmd: Command) -> bool {
    measuring && !cmd.allowed_while_running
}

/// Whether `r` is what the driver answers, in measurement state `measuring`,
/// when asked to send `cmd` as `frame` and to read `read_len` bytes back: the
/// not-allowed error, before anything is sent, when the state refuses the
/// command; else the transfer, which waits the command's execution time.
pub open spec fn planned<E>(
    r: Result<Transfer, Error<E>>,
    measuring: bool,
    cmd: Command,
    frame: Seq<u8>,
    read_len: int,
    effect: Effect,
) -> bool {
    if forbidden(measuring, cmd) {
        r == Err::<Transfer, Error<E>>(Error::NotAllowed)
    } else {
        match r {
            Ok(t) => transfer_is(t, frame, cmd.exec_time as int, read_len, effect),
            Err(_) => false,
        }
    }
}

/// The measurement state once a transfer with `effect` has been written.
pub open spec fn measuring_after(measuring: bool, effect: Effect) -> bool {
    match effect {
        Effect::Keep => measuring,
        Effect::StartMeasuring => true,
        Effect::StopMeasuring => false,
    }
}

/// Whether the sensor accepts `pressure` (hPa) as ambient pressure.
pub open spec fn pressure_in_range(pressure: u16) -> bool {
    AMBIENT_PRESSURE_MIN_HPA <= pressure <= AMBIENT_PRESSURE_MAX_HPA
}

/// Once a start of periodic measurement has gone out, every command that is
/// not marked for periodic measurement is refused with the not-allowed error
/// and no transfer; once a stop has gone out after it, the same command is
/// planned as usual. `start`, `stop` are the transfers the driver handed out
/// for the two commands, `running` and `stopped` its answers for `cmd` in the
/// states that follow them.
pub proof fn lemma_state_gating<E>(
    before: bool,
    start: Transfer,
    stop: Transfer,
    cmd: Command,
    frame: Seq<u8>,
    read_len: int,
    effect: Effect,
    running: Result<Transfer, Error<E>>,
    stopped: Result<Transfer, Error<E>>,
)
    requires
        !cmd.allowed_while_running,
        planned(
            Ok::<Transfer, Error<E>>(start),
            before,
            Op::StartPeriodicMeasurement.command(),
            be_bytes(Op::StartPeriodicMeasurement.command().op_code),
            0,
            Effect::StartMeasuring,
        ),
        planned(running, measuring_after(before, start.effect), cmd, frame, read_len, effect),
        planned(
            Ok::<Transfer, Error<E>>(stop),
            measuring_after(before, start.effect),
            Op::StopPeriodicMeasurement.command(),
            be_bytes(Op::StopPeriodicMeasurement.command().op_code),
            0,
            Effect::StopMeasuring,
        ),
        planned(
            stopped,
            measuring_after(measuring_after(before, start.effect), stop.effect),
            cmd,
            frame,
            read_len,
            effect,
        ),
    ensures
        running == Err::<Transfer, Error<E>>(Error::NotAllowed),
        stopped matches Ok(t) && transfer_is(t, frame, cmd.exec_time as int, read_len, effect),
{
}

/// Driver session for an SCD4x sensor. It owns the bus handle and the delay
/// provider, and knows whether periodic measurement is running. Each
/// operation checks its input and the state, and hands out the `Transfer` to
/// perform; `written` records that a transfer's frame went out.
pub struct Scd4x<I2C, D> {
    i2c: I2C,
    delay: D,
    measurement_started: bool,
}

impl<I2C, D> Scd4x<I2C, D> {
    /// Whether periodic measurement is running.
    pub closed spec fn measuring(self) -> bool {
        self.measurement_started
    }

    /// The bus handle the session owns.
    pub closed spec fn bus(self) -> I2C {
        self.i2c
    }

    /// The delay provider the session owns.
    pub closed spec fn timer(self) -> D {
        self.delay
    }

    /// Whether `r` sends `op` without data, reading `read_len` bytes back.
    pub open spec fn sends<E>(
        self,
        r: Result<Transfer, Error<E>>,
        op: Op,
        read_len: int,
        effect: Effect,
    ) -> bool {
        planned(r, self.measuring(), op.command(), be_bytes(op.command().op_code), read_len, effect)
    }

    /// Whether `r` sends `op` with the data word `data`, reading `read_len`
    /// bytes back.
    pub open spec fn sends_data<E>(
        self,
        r: Result<Transfer, Error<E>>,
        op: Op,
        data: u16,
        read_len: int,
    ) -> bool {
        planned(
            r,
            self.measuring(),
            op.command(),
            payload(op.command().op_code, data),
            read_len,
            Effect::Keep,
        )
    }

    /// Creates a session with the given bus and delay provider; periodic
    /// measurement is taken to be stopped.
    pub fn new(i2c: I2C, delay: D) -> (s: Self)
        ensures
            s.bus() == i2c,
            s.timer() == delay,
            !s.measuring(),
    {
        Scd4x { i2c, delay, measurement_started: false }
    }

    /// Ends the session and gives the bus back.
    pub fn release(self) -> (r: I2C)
        ensures
            r == self.bus(),
    {
        self.i2c
    }

    /// Whether periodic measurement is running.
    pub fn is_measuring(&self) -> (r: bool)
        ensures
            r == self.measuring(),
    {
        self.measurement_started
    }

    /// Lends out the bus and the delay provider, to perform a transfer.
    pub fn bus_and_timer(&mut self) -> ((i2c, delay): (&mut I2C, &mut D))
        ensures
            *i2c == old(self).bus(),
            *delay == old(self).timer(),
            final(self).bus() == *final(i2c),
            final(self).timer() == *final(delay),
            final(self).measuring() == old(self).measuring(),
    {
        (&mut self.i2c, &mut self.delay)
    }

    /// Records that the frame of `t` has been written: a transfer that starts
    /// or stops periodic measurement changes the state now, and not before.
    pub fn written(&mut self, t: &Transfer)
        ensures
            final(self).measuring() == measuring_after(old(self).measuring(), t.effect),
            final(self).bus() == old(self).bus(),
            final(self).timer() == old(self).timer(),
    {
        match t.effect {
            Effect::Keep => {},
            Effect::StartMeasuring => {
                self.measurement_started = true;
            },
            Effect::StopMeasuring => {
                self.measurement_started = false;
            },
        }
    }

    /// Refuses `cmd` while periodic measurement runs, unless the command is
    /// marked for it.
    pub fn check_is_command_allowed<E>(&self, cmd: Command) -> (r: Result<(), Error<E>>)
        ensures
            r is Err <==> forbidden(self.measuring(), cmd),
            r is Err ==> r == Err::<(), Error<E>>(Error::NotAllowed),
    {
        if self.measurement_started && !cmd.allowed_while_running {
            return Err(Error::NotAllowed);
        }
        Ok(())
    }

    /// The transfer that sends `cmd` as `frame`, if the state allows it.
    fn plan<E>(&self, cmd: Command, frame: &[u8], read_len: usize, effect: Effect) -> (r: Result<
        Transfer,
        Error<E>,
    >)
        ensures
            planned(r, self.measuring(), cmd, frame@, read_len as int, effect),
    {
        self.check_is_command_allowed(cmd)?;
        Ok(
            Transfer {
                frame: vstd::slice::slice_to_vec(frame),
                delay_ms: cmd.exec_time as u32,
                read_len,
                effect,
            },
        )
    }

    /// Sends `cmd` without data.
    pub fn write_command<E>(&self, cmd: Command) -> (r: Result<Transfer, Error<E>>)
        ensures
            planned(r, self.measuring(), cmd, be_bytes(cmd.op_code), 0, Effect::Keep),
    {
        self.plan(cmd, &cmd.prepare(), 0, Effect::Keep)
    }

    /// Sends `cmd` with the data word `data`.
    pub fn write_command_with_data<E>(&self, cmd: Command, data: u16) -> (r: Result<
        Transfer,
        Error<E>,
    >)
        ensures
            planned(r, self.measuring(), cmd, payload(cmd.op_code, data), 0, Effect::Keep),
    {
        self.plan(cmd, &cmd.prepare_with_data(data), 0, Effect::Keep)
    }

    /// Sends `cmd` without data and reads `read_len` bytes back.
    pub fn command_with_response<E>(&self, cmd: Command, read_len: usize) -> (r: Result<
        Transfer,
        Error<E>,
    >)
        requires
            read_len % 3 == 0,
        ensures
            planned(r, self.measuring(), cmd, be_bytes(cmd.op_code), read_len as int, Effect::Keep),
    {
        self.plan(cmd, &cmd.prepare(), read_len, Effect::Keep)
    }

    /// Sends `cmd` with the data word `data` and reads `read_len` bytes back.
    pub fn command_with_data_and_response<E>(
        &self,
        cmd: Command,
        data: u16,
        read_len: usize,
    ) -> (r: Result<Transfer, Error<E>>)
        requires
            read_len % 3 == 0,
        ensures
            planned(
                r,
                self.measuring(),
                cmd,
                payload(cmd.op_code, data),
                read_len as int,
                Effect::Keep,
            ),
    {
        self.plan(cmd, &cmd.prepare_with_data(data), read_len, Effect::Keep)
    }

    /// Writes the sensor altitude, in metres above sea level; the sensor takes
    /// 0 to `MAX_ALTITUDE`.
    pub fn set_sensor_altitude<E>(&self, altitude: u16) -> (r: Result<Transfer, Error<E>>)
        ensures
            altitude > MAX_ALTITUDE ==> r == Err::<Transfer, Error<E>>(Error::InvalidInput),
            altitude <= MAX_ALTITUDE ==> self.sends_data(r, Op::SetSensorAltitude, altitude, 0),
    {
        if altitude > MAX_ALTITUDE {
            return Err(Error::InvalidInput);
        }
        self.write_command_with_data(Op::SetSensorAltitude.command(), altitude)
    }

    /// Writes the ambient pressure, in hPa, for continuous pressure
    /// compensation; the sensor takes `AMBIENT_PRESSURE_MIN_HPA` to
    /// `AMBIENT_PRESSURE_MAX_HPA`.
    pub fn set_ambient_pressure<E>(&self, pressure: u16) -> (r: Result<Transfer, Error<E>>)
        ensures
            !pressure_in_range(pressure) ==> r == Err::<Transfer, Error<E>>(Error::InvalidInput),
            pressure_in_range(pressure) ==> self.sends_data(r, Op::SetAmbientPressure, pressure, 0),
    {
        if pressure < AMBIENT_PRESSURE_MIN_HPA || pressure > AMBIENT_PRESSURE_MAX_HPA {
            return Err(Error::InvalidInput);
        }
        self.write_command_with_data(Op::SetAmbientPressure.command(), pressure)
    }

    /// Starts periodic measurement; the signal update interval is 5 seconds.
    /// Once the frame has been written, the driver counts as measuring.
    pub fn start_periodic_measurement<E>(&self) -> (r: Result<Transfer, Error<E>>)
        ensures
            self.sends(r, Op::StartPeriodicMeasurement, 0, Effect::StartMeasuring),
    {
        let cmd = Op::StartPeriodicMeasurement.command();
        self.plan(cmd, &cmd.prepare(), 0, Effect::StartMeasuring)
    }

    /// Stops periodic measurement. The sensor answers other commands only 500 ms
    /// later, which the transfer's delay covers. Once the frame has been written,
    /// the driver no longer counts as measuring.
    pub fn stop_periodic_measurement<E>(&self) -> (r: Result<Transfer, Error<E>>)
        ensures
            self.sends(r, Op::StopPeriodicMeasurement, 0, Effect::StopMeasuring),
    {
        let cmd = Op::StopPeriodicMeasurement.command();
        self.plan(cmd, &cmd.prepare(), 0, Effect::StopMeasuring)
    }

    /// Starts low power periodic measurement, one reading about every 30 seconds.
    pub fn start_low_power_periodic_measurement<E>(&self) -> (r: Result<Transfer, Error<E>>)
        ensures
            self.sends(r, Op::StartLowPowerPeriodicMeasurement, 0, Effect::Keep),
    {
        self.write_command(Op::StartLowPowerPeriodicMeasurement.command())
    }

    /// Asks whether a measurement is waiting; `decode_has_data_ready` reads the answer.
    pub fn data_ready<E>(&self) -> (r: Result<Transfer, Error<E>>)
        ensures
            self.sends(r, Op::GetDataReadyStatus, 3, Effect::Keep),
    {
        self.command_with_response(Op::GetDataReadyStatus.command(), 3)
    }

    /// Reads the latest measurement: three checked words, CO2, temperature and humidity.
    pub fn read_measurement<E>(&self) -> (r: Result<Transfer, Error<E>>)
        ensures
            self.sends(r, Op::ReadMeasurement, 9, Effect::Keep),
    {
        self.command_with_response(Op::ReadMeasurement.command(), 9)
    }

    /// Writes the temperature offset as the sensor's raw word.
    pub fn set_temperature_offset_raw<E>(&self, raw: u16) -> (r: Result<Transfer, Error<E>>)
        ensures
            self.sends_data(r, Op::SetTemperatureOffset, raw, 0),
    {
        self.write_command_with_data(Op::SetTemperatureOffset.command(), raw)
    }

    /// Reads the temperature offset as the sensor's raw word.
    pub fn get_temperature_offset<E>(&self) -> (r: Result<Transfer, Error<E>>)
        ensures
            self.sends(r, Op::GetTemperatureOffset, 3, Effect::Keep),
    {
        self.command_with_response(Op::GetTemperatureOffset.command(), 3)
    }

    /// Reads the sensor altitude, in metres.
    pub fn get_sensor_altitude<E>(&self) -> (r: Result<Transfer, Error<E>>)
        ensures
            self.sends(r, Op::GetSensorAltitude, 3, Effect::Keep),
    {
        self.command_with_response(Op::GetSensorAltitude.command(), 3)
    }

    /// Reads the ambient pressure, in hPa.
    pub fn get_ambient_pressure<E>(&self) -> (r: Result<Transfer, Error<E>>)
        ensures
            self.sends(r, Op::GetAmbientPressure, 3, Effect::Keep),
    {
        self.command_with_response(Op::GetAmbientPressure.command(), 3)
    }

    /// Switches automatic self-calibration on or off.
    pub fn enable_automatic_self_calibration<E>(&self, enabled: bool) -> (r: Result<Transfer, Error<E>>)
        ensures
            self.sends_data(r, Op::SetAutomaticSelfCalibrationEnabled, if enabled { 1 } else { 0 }, 0),
    {
        self.write_command_with_data(Op::SetAutomaticSelfCalibrationEnabled.command(), if enabled { 1 } else { 0 })
    }

    /// Asks whether automatic self-calibration is on; `decode_enabled` reads the answer.
    pub fn get_automatic_self_calibration<E>(&self) -> (r: Result<Transfer, Error<E>>)
        ensures
            self.sends(r, Op::GetAutomaticSelfCalibrationEnabled, 3, Effect::Keep),
    {
        self.command_with_response(Op::GetAutomaticSelfCalibrationEnabled.command(), 3)
    }

    /// Writes the baseline CO2 concentration, in ppm, that self-calibration aims at.
    pub fn set_automatic_self_calibration_target<E>(&self, ppm_co2: u16) -> (r: Result<Transfer, Error<E>>)
        ensures
            self.sends_data(r, Op::SetAutomaticSelfCalibrationTarget, ppm_co2, 0),
    {
        self.write_command_with_data(Op::SetAutomaticSelfCalibrationTarget.command(), ppm_co2)
    }

    /// Reads the self-calibration baseline target, in ppm.
    pub fn get_automatic_self_calibration_target<E>(&self) -> (r: Result<Transfer, Error<E>>)
        ensures
            self.sends(r, Op::GetAutomaticSelfCalibrationTarget, 3, Effect::Keep),
    {
        self.command_with_response(Op::GetAutomaticSelfCalibrationTarget.command(), 3)
    }

    /// Recalibrates against the CO2 concentration `ppm_co2` that the sensor is
    /// exposed to; `decode_frc_status` reads the outcome.
    pub fn perform_forced_recalibration<E>(&self, ppm_co2: u16) -> (r: Result<Transfer, Error<E>>)
        ensures
            self.sends_data(r, Op::PerformForcedRecalibration, ppm_co2, 3),
    {
        self.command_with_data_and_response(Op::PerformForcedRecalibration.command(), ppm_co2, 3)
    }

    /// Stores the current configuration in the sensor's EEPROM.
    pub fn persists_settings<E>(&self) -> (r: Result<Transfer, Error<E>>)
        ensures
            self.sends(r, Op::PersistSettings, 0, Effect::Keep),
    {
        self.write_command(Op::PersistSettings.command())
    }

    /// Reads the serial number; `decode_serial_number` reads the answer.
    pub fn serial_number<E>(&self) -> (r: Result<Transfer, Error<E>>)
        ensures
            self.sends(r, Op::GetSerialNumber, 9, Effect::Keep),
    {
        self.command_with_response(Op::GetSerialNumber.command(), 9)
    }

    /// Asks which member of the family the sensor is; `decode_sensor_variant` reads the answer.
    pub fn sensor_variant<E>(&self) -> (r: Result<Transfer, Error<E>>)
        ensures
            self.sends(r, Op::GetSensorVariant, 3, Effect::Keep),
    {
        self.command_with_response(Op::GetSensorVariant.command(), 3)
    }

    /// Runs the end-of-line self test; `decode_self_test` reads the answer.
    pub fn perform_self_test<E>(&self) -> (r: Result<Transfer, Error<E>>)
        ensures
            self.sends(r, Op::PerformSelfTest, 3, Effect::Keep),
    {
        self.command_with_response(Op::PerformSelfTest.command(), 3)
    }

    /// Resets the configuration stored in EEPROM and the calibration history.
    pub fn perform_factory_reset<E>(&self) -> (r: Result<Transfer, Error<E>>)
        ensures
            self.sends(r, Op::PerformFactoryReset, 0, Effect::Keep),
    {
        self.write_command(Op::PerformFactoryReset.command())
    }

    /// Reloads the user settings from EEPROM.
    pub fn reinit<E>(&self) -> (r: Result<Transfer, Error<E>>)
        ensures
            self.sends(r, Op::Reinit, 0, Effect::Keep),
    {
        self.write_command(Op::Reinit.command())
    }

    /// Takes one measurement of CO2, humidity and temperature on demand.
    pub fn measure_single_shot<E>(&self) -> (r: Result<Transfer, Error<E>>)
        ensures
            self.sends(r, Op::MeasureSingleShot, 0, Effect::Keep),
    {
        self.write_command(Op::MeasureSingleShot.command())
    }

    /// Takes one measurement of humidity and temperature on demand; CO2 reads as 0.
    pub fn measure_single_shot_rht_only<E>(&self) -> (r: Result<Transfer, Error<E>>)
        ensures
            self.sends(r, Op::MeasureSingleShotRhtOnly, 0, Effect::Keep),
    {
        self.write_command(Op::MeasureSingleShotRhtOnly.command())
    }

    /// Puts the sensor from idle to sleep.
    pub fn power_down<E>(&self) -> (r: Result<Transfer, Error<E>>)
        ensures
            self.sends(r, Op::PowerDown, 0, Effect::Keep),
    {
        self.write_command(Op::PowerDown.command())
    }

    /// Wakes the sensor from sleep into idle.
    pub fn wake_up<E>(&self) -> (r: Result<Transfer, Error<E>>)
        ensures
            self.sends(r, Op::WakeUp, 0, Effect::Keep),
    {
        self.write_command(Op::WakeUp.command())
    }

    /// Writes the initial self-calibration period, in hours.
    pub fn set_automatic_self_calibration_initial_period<E>(&self, hours: u16) -> (r: Result<Transfer, Error<E>>)
        ensures
            self.sends_data(r, Op::SetAutomaticSelfCalibrationInitialPeriod, hours, 0),
    {
        self.write_command_with_data(Op::SetAutomaticSelfCalibrationInitialPeriod.command(), hours)
    }

    /// Reads the initial self-calibration period, in hours.
    pub fn get_automatic_self_calibration_initial_period<E>(&self) -> (r: Result<Transfer, Error<E>>)
        ensures
            self.sends(r, Op::GetAutomaticSelfCalibrationInitialPeriod, 3, Effect::Keep),
    {
        self.command_with_response(Op::GetAutomaticSelfCalibrationInitialPeriod.command(), 3)
    }

    /// Writes the standard self-calibration period, in hours.
    pub fn set_automatic_self_calibration_standard_period<E>(&self, hours: u16) -> (r: Result<Transfer, Error<E>>)
        ensures
            self.sends_data(r, Op::SetAutomaticSelfCalibrationStandardPeriod, hours, 0),
    {
        self.write_command_with_data(Op::SetAutomaticSelfCalibrationStandardPeriod.command(), hours)
    }

    /// Reads the standard self-calibration period, in hours.
    pub fn get_automatic_self_calibration_standard_period<E>(&self) -> (r: Result<Transfer, Error<E>>)
        ensures
            self.sends(r, Op::GetAutomaticSelfCalibrationStandardPeriod, 3, Effect::Keep),
    {
        self.command_with_response(Op::GetAutomaticSelfCalibrationStandardPeriod.command(), 3)
    }
}

} // verus!
