//! The bus and the delay provider, and the record of what was asked of them.
use vstd::prelude::*;
use embedded_hal::delay::DelayNs;
use embedded_hal::i2c::{ErrorKind, I2c};
use crate::commands::Command;
use crate::frame::be_bytes;

verus! {

/// One thing that the driver asked of the bus or of the delay provider.
pub ghost enum BusEvent {
    /// `bytes` were handed to the bus for the device at `address`. `error`
    /// is what the bus gave back: nothing where the write went well.
    Write { address: u8, bytes: Seq<u8>, error: Option<ErrorKind> },
    /// The driver waited for `ms` milliseconds.
    Delay { ms: u32 },
    /// The bus was asked to fill a buffer from the device at `address`.
    /// `data` is what the buffer held afterwards, `error` what the bus
    /// gave back: nothing where the read went well.
    Read { address: u8, data: Seq<u8>, error: Option<ErrorKind> },
}

/// What sending one command adds to the record: the write of the opcode,
/// high byte first, and, where the write went well, the settle time.
pub open spec fn command_events(address: u8, cmd: Command, error: Option<ErrorKind>) -> Seq<
    BusEvent,
> {
    let write = BusEvent::Write { address, bytes: be_bytes(cmd.opcode()), error };
    if error is None {
        seq![write, BusEvent::Delay { ms: cmd.delay_ms() }]
    } else {
        seq![write]
    }
}

/// What a command that was written and then answered adds to the record.
pub open spec fn query_events(
    address: u8,
    cmd: Command,
    data: Seq<u8>,
    error: Option<ErrorKind>,
) -> Seq<BusEvent> {
    command_events(address, cmd, None).push(BusEvent::Read { address, data, error })
}

/// The bytes that the latest event read, if it was a read.
pub open spec fn last_read(history: Seq<BusEvent>) -> Seq<u8> {
    if history.len() > 0 && history.last() is Read {
        history.last()->Read_data
    } else {
        Seq::empty()
    }
}

/// `embedded_hal::i2c::ErrorKind`, the classes into which every bus sorts
/// its errors. The driver hands a value of it on and never looks inside.
#[verifier::external_type_specification]
#[verifier::external_body]
pub struct ExErrorKind(embedded_hal::i2c::ErrorKind);

/// Calls `embedded_hal::i2c::I2c::write`, and on an error
/// `embedded_hal::i2c::Error::kind`. Whether the write goes well is up to
/// the bus and the device, so nothing is claimed of the result.
#[verifier::external_body]
pub(crate) fn bus_write<I2C: I2c>(i2c: &mut I2C, address: u8, bytes: &[u8]) -> (result: Result<
    (),
    ErrorKind,
>) {
    match i2c.write(address, bytes) {
        Ok(()) => Ok(()),
        Err(e) => Err(embedded_hal::i2c::Error::kind(&e)),
    }
}

/// Calls `embedded_hal::i2c::I2c::read`, and on an error
/// `embedded_hal::i2c::Error::kind`. The buffer keeps its length, as every
/// mutable slice does; what it holds afterwards and whether the read goes
/// well is up to the bus and the device.
#[verifier::external_body]
pub(crate) fn bus_read<I2C: I2c>(i2c: &mut I2C, address: u8, buffer: &mut [u8]) -> (result: Result<
    (),
    ErrorKind,
>)
    ensures
        final(buffer)@.len() == old(buffer)@.len(),
{
    match i2c.read(address, buffer) {
        Ok(()) => Ok(()),
        Err(e) => Err(embedded_hal::i2c::Error::kind(&e)),
    }
}

/// Calls `embedded_hal::delay::DelayNs::delay_ms`, which returns nothing.
#[verifier::external_body]
pub(crate) fn wait_ms<D: DelayNs>(delay: &mut D, ms: u32) {
    delay.delay_ms(ms)
}

} // verus!
