use crate::error::Error;
use crate::frame::{assert_chunked_with_len3, chunks_valid, crc8_verify_chunked_3};
use vstd::prelude::*;

verus! {

/// What a transfer does to the driver's measurement state once its frame has
/// been written.
#[derive(Clone, Copy, Debug, PartialEq, Eq, Structural)]
pub enum Effect {
    /// The state stays as it is.
    Keep,
    /// Periodic measurement is running from now on.
    StartMeasuring,
    /// Periodic measurement has stopped.
    StopMeasuring,
}

/// One exchange with the sensor, as the driver asks for it: write `frame`,
/// wait `delay_ms` milliseconds, then read `read_len` bytes (nothing when it
/// is zero) and hand them to `read_response`.
#[derive(Clone, Debug, PartialEq, Eq)]
pub struct Transfer {
    pub frame: Vec<u8>,
    pub delay_ms: u32,
    pub read_len: usize,
    pub effect: Effect,
}

/// Whether `t` writes `frame`, waits `delay_ms`, reads `read_len` bytes and
/// has `effect`.
pub open spec fn transfer_is(
    t: Transfer,
    frame: Seq<u8>,
    delay_ms: int,
    read_len: int,
    effect: Effect,
) -> bool {
    &&& t.frame@ == frame
    &&& t.delay_ms == delay_ms
    &&& t.read_len == read_len
    &&& t.effect == effect
}

/// Checks a response read from the sensor: every 3-byte group must carry the
/// CRC of its two data bytes. A response that fails is discarded whole.
pub fn read_response<E>(buf: &[u8]) -> (r: Result<(), Error<E>>)
    requires
        buf@.len() % 3 == 0,
    ensures
        r is Ok <==> chunks_valid(buf@),
        r is Err ==> r == Err::<(), Error<E>>(Error::CRC),
{
    assert_chunked_with_len3(buf);
    if crc8_verify_chunked_3(buf) {
        Ok(())
    } else {
        Err(Error::CRC)
    }
}

} // verus!
