use super::commands::{Op, MAX_ALTITUDE};
use super::driver::{measuring_after, pressure_in_range, Scd4x};
use crate::error::Error;
use crate::transfer::{Effect, Transfer};
use vstd::prelude::*;

verus! {

/// An SCD40: the SCD4x driver without the single-shot, sleep and
/// self-calibration period commands, which this part lacks.
pub struct Scd40<I2C, D> {
    inner: Scd4x<I2C, D>,
}

impl<I2C, D> Scd40<I2C, D> {
    /// The driver session behind the model.
    pub closed spec fn driver(self) -> Scd4x<I2C, D> {
        self.inner
    }

    /// Creates a session with the given bus and delay provider; periodic
    /// measurement is taken to be stopped.
    pub fn new(i2c: I2C, delay: D) -> (s: Self)
        ensures
            s.driver().bus() == i2c,
            s.driver().timer() == delay,
            !s.driver().measuring(),
    {
        Scd40 { inner: Scd4x::new(i2c, delay) }
    }

    /// Ends the session and gives the bus back.
    pub fn release(self) -> (r: I2C)
        ensures
            r == self.driver().bus(),
    {
        self.inner.release()
    }

    /// Whether periodic measurement is running.
    pub fn is_measuring(&self) -> (r: bool)
        ensures
            r == self.driver().measuring(),
    {
        self.inner.is_measuring()
    }

    /// Lends out the bus and the delay provider, to perform a transfer.
    pub fn bus_and_timer(&mut self) -> ((i2c, delay): (&mut I2C, &mut D))
        ensures
            *i2c == old(self).driver().bus(),
            *delay == old(self).driver().timer(),
            final(self).driver().bus() == *final(i2c),
            final(self).driver().timer() == *final(delay),
            final(self).driver().measuring() == old(self).driver().measuring(),
    {
        self.inner.bus_and_timer()
    }

    /// Records that the frame of `t` has been written.
    pub fn written(&mut self, t: &Transfer)
        ensures
            final(self).driver().measuring() == measuring_after(
                old(self).driver().measuring(),
                t.effect,
            ),
            final(self).driver().bus() == old(self).driver().bus(),
            final(self).driver().timer() == old(self).driver().timer(),
    {
        self.inner.written(t)
    }

    /// Starts periodic measurement; the signal update interval is 5 seconds.
    /// Once the frame has been written, the driver counts as measuring.
    pub fn start_periodic_measurement<E>(&self) -> (r: Result<Transfer, Error<E>>)
        ensures
            self.driver().sends(r, Op::StartPeriodicMeasurement, 0, Effect::StartMeasuring),
    {
        self.inner.start_periodic_measurement()
    }

    /// Stops periodic measurement. The sensor answers other commands only 500 ms
    /// later, which the transfer's delay covers. Once the frame has been written,
    /// the driver no longer counts as measuring.
    pub fn stop_periodic_measurement<E>(&self) -> (r: Result<Transfer, Error<E>>)
        ensures
            self.driver().sends(r, Op::StopPeriodicMeasurement, 0, Effect::StopMeasuring),
    {
        self.inner.stop_periodic_measurement()
    }

    /// Starts low power periodic measurement, one reading about every 30 seconds.
    pub fn start_low_power_periodic_measurement<E>(&self) -> (r: Result<Transfer, Error<E>>)
        ensures
            self.driver().sends(r, Op::StartLowPowerPeriodicMeasurement, 0, Effect::Keep),
    {
        self.inner.start_low_power_periodic_measurement()
    }

    /// Asks whether a measurement is waiting; `decode_has_data_ready` reads the answer.
    pub fn data_ready<E>(&self) -> (r: Result<Transfer, Error<E>>)
        ensures
            self.driver().sends(r, Op::GetDataReadyStatus, 3, Effect::Keep),
    {
        self.inner.data_ready()
    }

    /// Reads the latest measurement: three checked words, CO2, temperature and humidity.
    pub fn read_measurement<E>(&self) -> (r: Result<Transfer, Error<E>>)
        ensures
            self.driver().sends(r, Op::ReadMeasurement, 9, Effect::Keep),
    {
        self.inner.read_measurement()
    }

    /// Writes the temperature offset as the sensor's raw word.
    pub fn set_temperature_offset_raw<E>(&self, raw: u16) -> (r: Result<Transfer, Error<E>>)
        ensures
            self.driver().sends_data(r, Op::SetTemperatureOffset, raw, 0),
    {
        self.inner.set_temperature_offset_raw(raw)
    }

    /// Reads the temperature offset as the sensor's raw word.
    pub fn get_temperature_offset<E>(&self) -> (r: Result<Transfer, Error<E>>)
        ensures
            self.driver().sends(r, Op::GetTemperatureOffset, 3, Effect::Keep),
    {
        self.inner.get_temperature_offset()
    }

    /// Writes the sensor altitude, in metres above sea level.
    pub fn set_sensor_altitude<E>(&self, altitude: u16) -> (r: Result<Transfer, Error<E>>)
        ensures
            altitude > MAX_ALTITUDE ==> r == Err::<Transfer, Error<E>>(Error::InvalidInput),
            altitude <= MAX_ALTITUDE ==> self.driver().sends_data(r, Op::SetSensorAltitude, altitude, 0),
    {
        self.inner.set_sensor_altitude(altitude)
    }

    /// Writes the ambient pressure, in hPa.
    pub fn set_ambient_pressure<E>(&self, pressure: u16) -> (r: Result<Transfer, Error<E>>)
        ensures
            !pressure_in_range(pressure) ==> r == Err::<Transfer, Error<E>>(Error::InvalidInput),
            pressure_in_range(pressure) ==> self.driver().sends_data(r, Op::SetAmbientPressure, pressure, 0),
    {
        self.inner.set_ambient_pressure(pressure)
    }

    /// Reads the sensor altitude, in metres.
    pub fn get_sensor_altitude<E>(&self) -> (r: Result<Transfer, Error<E>>)
        ensures
            self.driver().sends(r, Op::GetSensorAltitude, 3, Effect::Keep),
    {
        self.inner.get_sensor_altitude()
    }

    /// Reads the ambient pressure, in hPa.
    pub fn get_ambient_pressure<E>(&self) -> (r: Result<Transfer, Error<E>>)
        ensures
            self.driver().sends(r, Op::GetAmbientPressure, 3, Effect::Keep),
    {
        self.inner.get_ambient_pressure()
    }

    /// Switches automatic self-calibration on or off.
    pub fn enable_automatic_self_calibration<E>(&self, enabled: bool) -> (r: Result<Transfer, Error<E>>)
        ensures
            self.driver().sends_data(r, Op::SetAutomaticSelfCalibrationEnabled, if enabled { 1 } else { 0 }, 0),
    {
        self.inner.enable_automatic_self_calibration(enabled)
    }

    /// Asks whether automatic self-calibration is on; `decode_enabled` reads the answer.
    pub fn get_automatic_self_calibration<E>(&self) -> (r: Result<Transfer, Error<E>>)
        ensures
            self.driver().sends(r, Op::GetAutomaticSelfCalibrationEnabled, 3, Effect::Keep),
    {
        self.inner.get_automatic_self_calibration()
    }

    /// Writes the baseline CO2 concentration, in ppm, that self-calibration aims at.
    pub fn set_automatic_self_calibration_target<E>(&self, ppm_co2: u16) -> (r: Result<Transfer, Error<E>>)
        ensures
            self.driver().sends_data(r, Op::SetAutomaticSelfCalibrationTarget, ppm_co2, 0),
    {
        self.inner.set_automatic_self_calibration_target(ppm_co2)
    }

    /// Reads the self-calibration baseline target, in ppm.
    pub fn get_automatic_self_calibration_target<E>(&self) -> (r: Result<Transfer, Error<E>>)
        ensures
            self.driver().sends(r, Op::GetAutomaticSelfCalibrationTarget, 3, Effect::Keep),
    {
        self.inner.get_automatic_self_calibration_target()
    }

    /// Recalibrates against the CO2 concentration `ppm_co2` that the sensor is
    /// exposed to; `decode_frc_status` reads the outcome.
    pub fn perform_forced_recalibration<E>(&self, ppm_co2: u16) -> (r: Result<Transfer, Error<E>>)
        ensures
            self.driver().sends_data(r, Op::PerformForcedRecalibration, ppm_co2, 3),
    {
        self.inner.perform_forced_recalibration(ppm_co2)
    }

    /// Stores the current configuration in the sensor's EEPROM.
    pub fn persists_settings<E>(&self) -> (r: Result<Transfer, Error<E>>)
        ensures
            self.driver().sends(r, Op::PersistSettings, 0, Effect::Keep),
    {
        self.inner.persists_settings()
    }

    /// Reads the serial number; `decode_serial_number` reads the answer.
    pub fn serial_number<E>(&self) -> (r: Result<Transfer, Error<E>>)
        ensures
            self.driver().sends(r, Op::GetSerialNumber, 9, Effect::Keep),
    {
        self.inner.serial_number()
    }

    /// Asks which member of the family the sensor is; `decode_sensor_variant` reads the answer.
    pub fn sensor_variant<E>(&self) -> (r: Result<Transfer, Error<E>>)
        ensures
            self.driver().sends(r, Op::GetSensorVariant, 3, Effect::Keep),
    {
        self.inner.sensor_variant()
    }

    /// Runs the end-of-line self test; `decode_self_test` reads the answer.
    pub fn perform_self_test<E>(&self) -> (r: Result<Transfer, Error<E>>)
        ensures
            self.driver().sends(r, Op::PerformSelfTest, 3, Effect::Keep),
    {
        self.inner.perform_self_test()
    }

    /// Resets the configuration stored in EEPROM and the calibration history.
    pub fn perform_factory_reset<E>(&self) -> (r: Result<Transfer, Error<E>>)
        ensures
            self.driver().sends(r, Op::PerformFactoryReset, 0, Effect::Keep),
    {
        self.inner.perform_factory_reset()
    }

    /// Reloads the user settings from EEPROM.
    pub fn reinit<E>(&self) -> (r: Result<Transfer, Error<E>>)
        ensures
            self.driver().sends(r, Op::Reinit, 0, Effect::Keep),
    {
        self.inner.reinit()
    }
}

/// An SCD41 or SCD43: the SCD4x driver with every command of the family.
pub struct Scd41<I2C, D> {
    inner: Scd4x<I2C, D>,
}

impl<I2C, D> Scd41<I2C, D> {
    /// The driver session behind the model.
    pub closed spec fn driver(self) -> Scd4x<I2C, D> {
        self.inner
    }

    /// Creates a session with the given bus and delay provider; periodic
    /// measurement is taken to be stopped.
    pub fn new(i2c: I2C, delay: D) -> (s: Self)
        ensures
            s.driver().bus() == i2c,
            s.driver().timer() == delay,
            !s.driver().measuring(),
    {
        Scd41 { inner: Scd4x::new(i2c, delay) }
    }

    /// Ends the session and gives the bus back.
    pub fn release(self) -> (r: I2C)
        ensures
            r == self.driver().bus(),
    {
        self.inner.release()
    }

    /// Whether periodic measurement is running.
    pub fn is_measuring(&self) -> (r: bool)
        ensures
            r == self.driver().measuring(),
    {
        self.inner.is_measuring()
    }

    /// Lends out the bus and the delay provider, to perform a transfer.
    pub fn bus_and_timer(&mut self) -> ((i2c, delay): (&mut I2C, &mut D))
        ensures
            *i2c == old(self).driver().bus(),
            *delay == old(self).driver().timer(),
            final(self).driver().bus() == *final(i2c),
            final(self).driver().timer() == *final(delay),
            final(self).driver().measuring() == old(self).driver().measuring(),
    {
        self.inner.bus_and_timer()
    }

    /// Records that the frame of `t` has been written.
    pub fn written(&mut self, t: &Transfer)
        ensures
            final(self).driver().measuring() == measuring_after(
                old(self).driver().measuring(),
                t.effect,
            ),
            final(self).driver().bus() == old(self).driver().bus(),
            final(self).driver().timer() == old(self).driver().timer(),
    {
        self.inner.written(t)
    }

    /// Starts periodic measurement; the signal update interval is 5 seconds.
    /// Once the frame has been written, the driver counts as measuring.
    pub fn start_periodic_measurement<E>(&self) -> (r: Result<Transfer, Error<E>>)
        ensures
            self.driver().sends(r, Op::StartPeriodicMeasurement, 0, Effect::StartMeasuring),
    {
        self.inner.start_periodic_measurement()
    }

    /// Stops periodic measurement. The sensor answers other commands only 500 ms
    /// later, which the transfer's delay covers. Once the frame has been written,
    /// the driver no longer counts as measuring.
    pub fn stop_periodic_measurement<E>(&self) -> (r: Result<Transfer, Error<E>>)
        ensures
            self.driver().sends(r, Op::StopPeriodicMeasurement, 0, Effect::StopMeasuring),
    {
        self.inner.stop_periodic_measurement()
    }

    /// Starts low power periodic measurement, one reading about every 30 seconds.
    pub fn start_low_power_periodic_measurement<E>(&self) -> (r: Result<Transfer, Error<E>>)
        ensures
            self.driver().sends(r, Op::StartLowPowerPeriodicMeasurement, 0, Effect::Keep),
    {
        self.inner.start_low_power_periodic_measurement()
    }

    /// Asks whether a measurement is waiting; `decode_has_data_ready` reads the answer.
    pub fn data_ready<E>(&self) -> (r: Result<Transfer, Error<E>>)
        ensures
            self.driver().sends(r, Op::GetDataReadyStatus, 3, Effect::Keep),
    {
        self.inner.data_ready()
    }

    /// Reads the latest measurement: three checked words, CO2, temperature and humidity.
    pub fn read_measurement<E>(&self) -> (r: Result<Transfer, Error<E>>)
        ensures
            self.driver().sends(r, Op::ReadMeasurement, 9, Effect::Keep),
    {
        self.inner.read_measurement()
    }

    /// Writes the temperature offset as the sensor's raw word.
    pub fn set_temperature_offset_raw<E>(&self, raw: u16) -> (r: Result<Transfer, Error<E>>)
        ensures
            self.driver().sends_data(r, Op::SetTemperatureOffset, raw, 0),
    {
        self.inner.set_temperature_offset_raw(raw)
    }

    /// Reads the temperature offset as the sensor's raw word.
    pub fn get_temperature_offset<E>(&self) -> (r: Result<Transfer, Error<E>>)
        ensures
            self.driver().sends(r, Op::GetTemperatureOffset, 3, Effect::Keep),
    {
        self.inner.get_temperature_offset()
    }

    /// Writes the sensor altitude, in metres above sea level.
    pub fn set_sensor_altitude<E>(&self, altitude: u16) -> (r: Result<Transfer, Error<E>>)
        ensures
            altitude > MAX_ALTITUDE ==> r == Err::<Transfer, Error<E>>(Error::InvalidInput),
            altitude <= MAX_ALTITUDE ==> self.driver().sends_data(r, Op::SetSensorAltitude, altitude, 0),
    {
        self.inner.set_sensor_altitude(altitude)
    }

    /// Writes the ambient pressure, in hPa.
    pub fn set_ambient_pressure<E>(&self, pressure: u16) -> (r: Result<Transfer, Error<E>>)
        ensures
            !pressure_in_range(pressure) ==> r == Err::<Transfer, Error<E>>(Error::InvalidInput),
            pressure_in_range(pressure) ==> self.driver().sends_data(r, Op::SetAmbientPressure, pressure, 0),
    {
        self.inner.set_ambient_pressure(pressure)
    }

    /// Reads the sensor altitude, in metres.
    pub fn get_sensor_altitude<E>(&self) -> (r: Result<Transfer, Error<E>>)
        ensures
            self.driver().sends(r, Op::GetSensorAltitude, 3, Effect::Keep),
    {
        self.inner.get_sensor_altitude()
    }

    /// Reads the ambient pressure, in hPa.
    pub fn get_ambient_pressure<E>(&self) -> (r: Result<Transfer, Error<E>>)
        ensures
            self.driver().sends(r, Op::GetAmbientPressure, 3, Effect::Keep),
    {
        self.inner.get_ambient_pressure()
    }

    /// Switches automatic self-calibration on or off.
    pub fn enable_automatic_self_calibration<E>(&self, enabled: bool) -> (r: Result<Transfer, Error<E>>)
        ensures
            self.driver().sends_data(r, Op::SetAutomaticSelfCalibrationEnabled, if enabled { 1 } else { 0 }, 0),
    {
        self.inner.enable_automatic_self_calibration(enabled)
    }

    /// Asks whether automatic self-calibration is on; `decode_enabled` reads the answer.
    pub fn get_automatic_self_calibration<E>(&self) -> (r: Result<Transfer, Error<E>>)
        ensures
            self.driver().sends(r, Op::GetAutomaticSelfCalibrationEnabled, 3, Effect::Keep),
    {
        self.inner.get_automatic_self_calibration()
    }

    /// Writes the baseline CO2 concentration, in ppm, that self-calibration aims at.
    pub fn set_automatic_self_calibration_target<E>(&self, ppm_co2: u16) -> (r: Result<Transfer, Error<E>>)
        ensures
            self.driver().sends_data(r, Op::SetAutomaticSelfCalibrationTarget, ppm_co2, 0),
    {
        self.inner.set_automatic_self_calibration_target(ppm_co2)
    }

    /// Reads the self-calibration baseline target, in ppm.
    pub fn get_automatic_self_calibration_target<E>(&self) -> (r: Result<Transfer, Error<E>>)
        ensures
            self.driver().sends(r, Op::GetAutomaticSelfCalibrationTarget, 3, Effect::Keep),
    {
        self.inner.get_automatic_self_calibration_target()
    }

    /// Recalibrates against the CO2 concentration `ppm_co2` that the sensor is
    /// exposed to; `decode_frc_status` reads the outcome.
    pub fn perform_forced_recalibration<E>(&self, ppm_co2: u16) -> (r: Result<Transfer, Error<E>>)
        ensures
            self.driver().sends_data(r, Op::PerformForcedRecalibration, ppm_co2, 3),
    {
        self.inner.perform_forced_recalibration(ppm_co2)
    }

    /// Stores the current configuration in the sensor's EEPROM.
    pub fn persists_settings<E>(&self) -> (r: Result<Transfer, Error<E>>)
        ensures
            self.driver().sends(r, Op::PersistSettings, 0, Effect::Keep),
    {
        self.inner.persists_settings()
    }

    /// Reads the serial number; `decode_serial_number` reads the answer.
    pub fn serial_number<E>(&self) -> (r: Result<Transfer, Error<E>>)
        ensures
            self.driver().sends(r, Op::GetSerialNumber, 9, Effect::Keep),
    {
        self.inner.serial_number()
    }

    /// Asks which member of the family the sensor is; `decode_sensor_variant` reads the answer.
    pub fn sensor_variant<E>(&self) -> (r: Result<Transfer, Error<E>>)
        ensures
            self.driver().sends(r, Op::GetSensorVariant, 3, Effect::Keep),
    {
        self.inner.sensor_variant()
    }

    /// Runs the end-of-line self test; `decode_self_test` reads the answer.
    pub fn perform_self_test<E>(&self) -> (r: Result<Transfer, Error<E>>)
        ensures
            self.driver().sends(r, Op::PerformSelfTest, 3, Effect::Keep),
    {
        self.inner.perform_self_test()
    }

    /// Resets the configuration stored in EEPROM and the calibration history.
    pub fn perform_factory_reset<E>(&self) -> (r: Result<Transfer, Error<E>>)
        ensures
            self.driver().sends(r, Op::PerformFactoryReset, 0, Effect::Keep),
    {
        self.inner.perform_factory_reset()
    }

    /// Reloads the user settings from EEPROM.
    pub fn reinit<E>(&self) -> (r: Result<Transfer, Error<E>>)
        ensures
            self.driver().sends(r, Op::Reinit, 0, Effect::Keep),
    {
        self.inner.reinit()
    }

    /// Takes one measurement of CO2, humidity and temperature on demand.
    pub fn measure_single_shot<E>(&self) -> (r: Result<Transfer, Error<E>>)
        ensures
            self.driver().sends(r, Op::MeasureSingleShot, 0, Effect::Keep),
    {
        self.inner.measure_single_shot()
    }

    /// Takes one measurement of humidity and temperature on demand; CO2 reads as 0.
    pub fn measure_single_shot_rht_only<E>(&self) -> (r: Result<Transfer, Error<E>>)
        ensures
            self.driver().sends(r, Op::MeasureSingleShotRhtOnly, 0, Effect::Keep),
    {
        self.inner.measure_single_shot_rht_only()
    }

    /// Puts the sensor from idle to sleep.
    pub fn power_down<E>(&self) -> (r: Result<Transfer, Error<E>>)
        ensures
            self.driver().sends(r, Op::PowerDown, 0, Effect::Keep),
    {
        self.inner.power_down()
    }

    /// Wakes the sensor from sleep into idle.
    pub fn wake_up<E>(&self) -> (r: Result<Transfer, Error<E>>)
        ensures
            self.driver().sends(r, Op::WakeUp, 0, Effect::Keep),
    {
        self.inner.wake_up()
    }

    /// Writes the initial self-calibration period, in hours.
    pub fn set_automatic_self_calibration_initial_period<E>(&self, hours: u16) -> (r: Result<Transfer, Error<E>>)
        ensures
            self.driver().sends_data(r, Op::SetAutomaticSelfCalibrationInitialPeriod, hours, 0),
    {
        self.inner.set_automatic_self_calibration_initial_period(hours)
    }

    /// Reads the initial self-calibration period, in hours.
    pub fn get_automatic_self_calibration_initial_period<E>(&self) -> (r: Result<Transfer, Error<E>>)
        ensures
            self.driver().sends(r, Op::GetAutomaticSelfCalibrationInitialPeriod, 3, Effect::Keep),
    {
        self.inner.get_automatic_self_calibration_initial_period()
    }

    /// Writes the standard self-calibration period, in hours.
    pub fn set_automatic_self_calibration_standard_period<E>(&self, hours: u16) -> (r: Result<Transfer, Error<E>>)
        ensures
            self.driver().sends_data(r, Op::SetAutomaticSelfCalibrationStandardPeriod, hours, 0),
    {
        self.inner.set_automatic_self_calibration_standard_period(hours)
    }

    /// Reads the standard self-calibration period, in hours.
    pub fn get_automatic_self_calibration_standard_period<E>(&self) -> (r: Result<Transfer, Error<E>>)
        ensures
            self.driver().sends(r, Op::GetAutomaticSelfCalibrationStandardPeriod, 3, Effect::Keep),
    {
        self.inner.get_automatic_self_calibration_standard_period()
    }
}

} // verus!
