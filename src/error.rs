use vstd::prelude::*;

verus! {

/// The ways a sensor operation can fail. `E` is the bus's own error type,
/// carried through unchanged.
#[derive(Debug, PartialEq, Eq)]
pub enum Error<E> {
    /// The bus reported a failure.
    I2C(E),
    /// A response word did not match its checksum.
    CRC,
    /// The command cannot be sent in the sensor's current state.
    NotAllowed,
    /// A parameter lies outside the range the sensor accepts.
    InvalidInput,
    /// Forced recalibration failed because the sensor had not been operated
    /// before the command.
    FrcFailed,
}

} // verus!
