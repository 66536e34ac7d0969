//! What can go wrong when talking to the sensor.
use vstd::prelude::*;

verus! {

/// The errors of this driver. `E` is what tells the errors of the bus
/// apart; the sensor handle uses `embedded_hal::i2c::ErrorKind` for it.
#[derive(Debug, Copy, Clone, PartialEq, Eq)]
pub enum Error<E> {
    /// The bus failed to write or to read; its own error is inside.
    Transport(E),
    /// A word arrived with a checksum that does not fit its two bytes.
    ChecksumMismatch,
}

/// The error that the bus gave back, as far as a result of the driver
/// tells: the one behind a transport error, and none behind any other result.
pub open spec fn bus_error<T, E>(result: Result<T, Error<E>>) -> Option<E> {
    match result {
        Err(Error::Transport(e)) => Some(e),
        _ => None,
    }
}

} // verus!
