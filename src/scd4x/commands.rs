use crate::frame::{be_bytes, opcode_with_data_into_payload, payload, to_be_bytes};
use vstd::prelude::*;

verus! {

/// I2C address of every sensor of the family.
pub const I2C_ADDRESS: u8 = 0x62;

/// Highest sensor altitude the sensor accepts, in metres above sea level.
pub const MAX_ALTITUDE: u16 = 3_000;

/// Lowest ambient pressure the sensor accepts, in hPa.
pub const AMBIENT_PRESSURE_MIN_HPA: u16 = 700;

/// Highest ambient pressure the sensor accepts, in hPa.
pub const AMBIENT_PRESSURE_MAX_HPA: u16 = 1_200;

/// A command of the SCD4x protocol: its opcode, how long the sensor needs
/// to carry it out, and whether it may be sent while periodic measurement
/// is running.
#[derive(Clone, Copy, Debug, PartialEq, Eq, Structural)]
pub struct Command {
    pub op_code: u16,
    pub exec_time: u16,
    pub allowed_while_running: bool,
}

impl Command {
    pub fn new(op_code: u16, exec_time: u16, allowed_while_running: bool) -> (c: Command)
        ensures
            c == (Command { op_code, exec_time, allowed_while_running }),
    {
        Command { op_code, exec_time, allowed_while_running }
    }

    /// The frame that sends the command without data: its opcode, big-endian.
    pub fn prepare(self) -> (r: [u8; 2])
        ensures
            r@ == be_bytes(self.op_code),
    {
        to_be_bytes(self.op_code)
    }

    /// The frame that sends the command with the data word `data`.
    pub fn prepare_with_data(self, data: u16) -> (r: [u8; 5])
        ensures
            r@ == payload(self.op_code, data),
    {
        opcode_with_data_into_payload(self.op_code, data)
    }
}

/// The commands of the SCD4x catalog.
#[derive(Clone, Copy, Debug, PartialEq, Eq, Structural)]
pub enum Op {
    /// Start periodic measurement, one reading every 5 s.
    StartPeriodicMeasurement,
    /// Start low power periodic measurement, one reading about every 30 s.
    StartLowPowerPeriodicMeasurement,
    /// Stop periodic measurement.
    StopPeriodicMeasurement,
    /// Read the data-ready status word.
    GetDataReadyStatus,
    /// Read CO2, temperature and humidity.
    ReadMeasurement,
    /// Write the temperature offset.
    SetTemperatureOffset,
    /// Read the temperature offset.
    GetTemperatureOffset,
    /// Write the sensor altitude.
    SetSensorAltitude,
    /// Read the sensor altitude.
    GetSensorAltitude,
    /// Write the ambient pressure.
    SetAmbientPressure,
    /// Read the ambient pressure.
    GetAmbientPressure,
    /// Switch automatic self-calibration on or off.
    SetAutomaticSelfCalibrationEnabled,
    /// Read whether automatic self-calibration is on.
    GetAutomaticSelfCalibrationEnabled,
    /// Write the self-calibration baseline target.
    SetAutomaticSelfCalibrationTarget,
    /// Read the self-calibration baseline target.
    GetAutomaticSelfCalibrationTarget,
    /// Recalibrate against a known CO2 concentration.
    PerformForcedRecalibration,
    /// Store the configuration in EEPROM.
    PersistSettings,
    /// Read the 48-bit serial number.
    GetSerialNumber,
    /// Read which member of the family the sensor is.
    GetSensorVariant,
    /// Run the built-in self test.
    PerformSelfTest,
    /// Reset the configuration and the calibration history.
    PerformFactoryReset,
    /// Reload the settings from EEPROM.
    Reinit,
    /// Take one measurement on demand (SCD41, SCD43).
    MeasureSingleShot,
    /// Take one humidity and temperature measurement on demand (SCD41, SCD43).
    MeasureSingleShotRhtOnly,
    /// Put the sensor to sleep (SCD41, SCD43).
    PowerDown,
    /// Wake the sensor from sleep (SCD41, SCD43).
    WakeUp,
    /// Write the initial self-calibration period (SCD41, SCD43).
    SetAutomaticSelfCalibrationInitialPeriod,
    /// Read the initial self-calibration period (SCD41, SCD43).
    GetAutomaticSelfCalibrationInitialPeriod,
    /// Write the standard self-calibration period (SCD41, SCD43).
    SetAutomaticSelfCalibrationStandardPeriod,
    /// Read the standard self-calibration period (SCD41, SCD43).
    GetAutomaticSelfCalibrationStandardPeriod,
}

impl Op {
    /// The catalog entry of each command.
    pub open spec fn spec_command(self) -> Command {
        match self {
            Op::StartPeriodicMeasurement => Command { op_code: 0x21b1, exec_time: 0, allowed_while_running: false },
            Op::StartLowPowerPeriodicMeasurement => Command { op_code: 0x21ac, exec_time: 0, allowed_while_running: false },
            Op::StopPeriodicMeasurement => Command { op_code: 0x3f86, exec_time: 500, allowed_while_running: true },
            Op::GetDataReadyStatus => Command { op_code: 0xe4b8, exec_time: 1, allowed_while_running: true },
            Op::ReadMeasurement => Command { op_code: 0xec05, exec_time: 1, allowed_while_running: true },
            Op::SetTemperatureOffset => Command { op_code: 0x241d, exec_time: 1, allowed_while_running: false },
            Op::GetTemperatureOffset => Command { op_code: 0x2318, exec_time: 1, allowed_while_running: false },
            Op::SetSensorAltitude => Command { op_code: 0x2427, exec_time: 1, allowed_while_running: false },
            Op::GetSensorAltitude => Command { op_code: 0x2322, exec_time: 1, allowed_while_running: false },
            Op::SetAmbientPressure => Command { op_code: 0xe000, exec_time: 1, allowed_while_running: true },
            Op::GetAmbientPressure => Command { op_code: 0xe000, exec_time: 1, allowed_while_running: true },
            Op::SetAutomaticSelfCalibrationEnabled => Command { op_code: 0x2416, exec_time: 1, allowed_while_running: false },
            Op::GetAutomaticSelfCalibrationEnabled => Command { op_code: 0x2313, exec_time: 1, allowed_while_running: false },
            Op::SetAutomaticSelfCalibrationTarget => Command { op_code: 0x243a, exec_time: 1, allowed_while_running: false },
            Op::GetAutomaticSelfCalibrationTarget => Command { op_code: 0x233f, exec_time: 1, allowed_while_running: false },
            Op::PerformForcedRecalibration => Command { op_code: 0x362f, exec_time: 400, allowed_while_running: false },
            Op::PersistSettings => Command { op_code: 0x3615, exec_time: 800, allowed_while_running: false },
            Op::GetSerialNumber => Command { op_code: 0x3682, exec_time: 1, allowed_while_running: false },
            Op::GetSensorVariant => Command { op_code: 0x202f, exec_time: 1, allowed_while_running: false },
            Op::PerformSelfTest => Command { op_code: 0x3639, exec_time: 10000, allowed_while_running: false },
            Op::PerformFactoryReset => Command { op_code: 0x3632, exec_time: 1200, allowed_while_running: false },
            Op::Reinit => Command { op_code: 0x3646, exec_time: 30, allowed_while_running: false },
            Op::MeasureSingleShot => Command { op_code: 0x219d, exec_time: 5000, allowed_while_running: false },
            Op::MeasureSingleShotRhtOnly => Command { op_code: 0x2196, exec_time: 50, allowed_while_running: false },
            Op::PowerDown => Command { op_code: 0x36e0, exec_time: 1, allowed_while_running: false },
            Op::WakeUp => Command { op_code: 0x36f6, exec_time: 30, allowed_while_running: false },
            Op::SetAutomaticSelfCalibrationInitialPeriod => Command { op_code: 0x2445, exec_time: 1, allowed_while_running: false },
            Op::GetAutomaticSelfCalibrationInitialPeriod => Command { op_code: 0x2340, exec_time: 1, allowed_while_running: false },
            Op::SetAutomaticSelfCalibrationStandardPeriod => Command { op_code: 0x244e, exec_time: 1, allowed_while_running: false },
            Op::GetAutomaticSelfCalibrationStandardPeriod => Command { op_code: 0x234b, exec_time: 1, allowed_while_running: false },
        }
    }

    /// Looks the command up in the catalog.
    #[verifier::when_used_as_spec(spec_command)]
    pub fn command(self) -> (c: Command)
        ensures
            c == self.spec_command(),
    {
        match self {
            Op::StartPeriodicMeasurement => Command::new(0x21b1, 0, false),
            Op::StartLowPowerPeriodicMeasurement => Command::new(0x21ac, 0, false),
            Op::StopPeriodicMeasurement => Command::new(0x3f86, 500, true),
            Op::GetDataReadyStatus => Command::new(0xe4b8, 1, true),
            Op::ReadMeasurement => Command::new(0xec05, 1, true),
            Op::SetTemperatureOffset => Command::new(0x241d, 1, false),
            Op::GetTemperatureOffset => Command::new(0x2318, 1, false),
            Op::SetSensorAltitude => Command::new(0x2427, 1, false),
            Op::GetSensorAltitude => Command::new(0x2322, 1, false),
            Op::SetAmbientPressure => Command::new(0xe000, 1, true),
            Op::GetAmbientPressure => Command::new(0xe000, 1, true),
            Op::SetAutomaticSelfCalibrationEnabled => Command::new(0x2416, 1, false),
            Op::GetAutomaticSelfCalibrationEnabled => Command::new(0x2313, 1, false),
            Op::SetAutomaticSelfCalibrationTarget => Command::new(0x243a, 1, false),
            Op::GetAutomaticSelfCalibrationTarget => Command::new(0x233f, 1, false),
            Op::PerformForcedRecalibration => Command::new(0x362f, 400, false),
            Op::PersistSettings => Command::new(0x3615, 800, false),
            Op::GetSerialNumber => Command::new(0x3682, 1, false),
            Op::GetSensorVariant => Command::new(0x202f, 1, false),
            Op::PerformSelfTest => Command::new(0x3639, 10000, false),
            Op::PerformFactoryReset => Command::new(0x3632, 1200, false),
            Op::Reinit => Command::new(0x3646, 30, false),
            Op::MeasureSingleShot => Command::new(0x219d, 5000, false),
            Op::MeasureSingleShotRhtOnly => Command::new(0x2196, 50, false),
            Op::PowerDown => Command::new(0x36e0, 1, false),
            Op::WakeUp => Command::new(0x36f6, 30, false),
            Op::SetAutomaticSelfCalibrationInitialPeriod => Command::new(0x2445, 1, false),
            Op::GetAutomaticSelfCalibrationInitialPeriod => Command::new(0x2340, 1, false),
            Op::SetAutomaticSelfCalibrationStandardPeriod => Command::new(0x244e, 1, false),
            Op::GetAutomaticSelfCalibrationStandardPeriod => Command::new(0x234b, 1, false),
        }
    }
}

} // verus!
