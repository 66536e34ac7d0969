//! The sensor handle and its operations.
use vstd::prelude::*;
use embedded_hal::delay::DelayNs;
use embedded_hal::i2c::{ErrorKind, I2c};
use crate::bus::{bus_read, bus_write, command_events, last_read, query_events, wait_ms, BusEvent};
use crate::commands::Command;
use crate::crc8::{validate, words_valid};
use crate::errors::{bus_error, Error};
use crate::frame::{
    be_bytes, decode_data_ready, decode_measurement, decode_serial_number, encode_word,
    measurement_of, ready_of, serial_of, word_at, DATA_READY_FRAME, MEASUREMENT_FRAME,
    SERIAL_NUMBER_FRAME,
};
use crate::types::Measurement;

verus! {

/// The I²C address that the sensor has when it leaves the factory.
pub const DEFAULT_I2C_ADDRESS: u8 = 0x69;

/// What a handle is, as far as the driver's rules go.
pub ghost struct Sen5xView {
    /// The address of the sensor on the bus.
    pub address: u8,
    /// Whether periodic measurement was started through this handle.
    pub is_running: bool,
    /// Everything that was asked of the bus and the delay provider through
    /// this handle, oldest first.
    pub history: Seq<BusEvent>,
}

/// One SEN5x sensor on an I²C bus.
pub struct Sen5x<I2C, D> {
    i2c: I2C,
    delay: D,
    is_running: bool,
    address: u8,
    history: Ghost<Seq<BusEvent>>,
}

impl<I2C, D> View for Sen5x<I2C, D> {
    type V = Sen5xView;

    closed spec fn view(&self) -> Sen5xView {
        Sen5xView { address: self.address, is_running: self.is_running, history: self.history@ }
    }
}

/// How a handle and a buffer stand after a command was sent and its answer
/// read into the buffer, for each result.
///
/// Address and running flag are as before. A failed write of the command
/// ends the exchange: nothing is read, the buffer is untouched, and the
/// result holds the error of the write. After a good write the settle time
/// is waited and the buffer is read once. A failed read gives its error;
/// after a good read the result is `Ok` exactly when every word of the
/// buffer carries its checksum.
pub open spec fn exchanged(
    before: Sen5xView,
    after: Sen5xView,
    cmd: Command,
    data_before: Seq<u8>,
    data_after: Seq<u8>,
    result: Result<(), Error<ErrorKind>>,
) -> bool {
    &&& after.address == before.address
    &&& after.is_running == before.is_running
    &&& data_after.len() == data_before.len()
    &&& match result {
        Ok(_) => {
            &&& words_valid(data_after)
            &&& after.history == before.history + query_events(
                before.address,
                cmd,
                data_after,
                None,
            )
        },
        Err(Error::ChecksumMismatch) => {
            &&& !words_valid(data_after)
            &&& after.history == before.history + query_events(
                before.address,
                cmd,
                data_after,
                None,
            )
        },
        Err(Error::Transport(e)) => {
            ||| {
                &&& data_after == data_before
                &&& after.history == before.history + command_events(before.address, cmd, Some(e))
            }
            ||| after.history == before.history + query_events(
                before.address,
                cmd,
                data_after,
                Some(e),
            )
        },
    }
}

/// How a handle stands after a command was sent and its answer of `len`
/// bytes read, for each result. The answer is `last_read` of the new record.
///
/// This is `exchanged` for an operation that keeps the buffer to itself.
pub open spec fn answered<T>(
    before: Sen5xView,
    after: Sen5xView,
    cmd: Command,
    len: nat,
    result: Result<T, Error<ErrorKind>>,
) -> bool {
    let frame = last_read(after.history);
    &&& after.address == before.address
    &&& after.is_running == before.is_running
    &&& match result {
        Ok(_) => {
            &&& frame.len() == len
            &&& words_valid(frame)
            &&& after.history == before.history + query_events(before.address, cmd, frame, None)
        },
        Err(Error::ChecksumMismatch) => {
            &&& frame.len() == len
            &&& !words_valid(frame)
            &&& after.history == before.history + query_events(before.address, cmd, frame, None)
        },
        Err(Error::Transport(e)) => {
            ||| after.history == before.history + command_events(before.address, cmd, Some(e))
            ||| {
                &&& frame.len() == len
                &&& after.history == before.history + query_events(
                    before.address,
                    cmd,
                    frame,
                    Some(e),
                )
            }
        },
    }
}

/// A write that fails ends the exchange: the record grows by the failed
/// write alone, so no read was tried, the result is the error of the
/// write, and the running flag is as before.
pub proof fn lemma_failed_write_reads_nothing<T>(
    before: Sen5xView,
    after: Sen5xView,
    cmd: Command,
    len: nat,
    result: Result<T, Error<ErrorKind>>,
)
    requires
        answered(before, after, cmd, len, result),
        after.history.len() > before.history.len(),
        after.history[before.history.len() as int] is Write,
        after.history[before.history.len() as int]->Write_error is Some,
    ensures
        after.history.len() == before.history.len() + 1,
        forall|i: int|
            before.history.len() <= i < after.history.len() ==> !(after.history[i] is Read),
        bus_error(result) == after.history.last()->Write_error,
        after.is_running == before.is_running,
{
    let frame = last_read(after.history);
    let first = before.history.len() as int;
    assert forall|error: Option<ErrorKind>|
        (before.history + #[trigger] query_events(before.address, cmd, frame, error))[first]
            ->Write_error is None by {}
}

/// A read that fails after a good write gives the error of the read, and
/// the running flag is as before.
pub proof fn lemma_failed_read_is_transport_error<T>(
    before: Sen5xView,
    after: Sen5xView,
    cmd: Command,
    len: nat,
    result: Result<T, Error<ErrorKind>>,
)
    requires
        answered(before, after, cmd, len, result),
        after.history.len() > 0,
        after.history.last() is Read,
        after.history.last()->Read_error is Some,
    ensures
        after.history.len() == before.history.len() + 3,
        bus_error(result) == after.history.last()->Read_error,
        after.is_running == before.is_running,
{
    let frame = last_read(after.history);
    assert forall|error: Option<ErrorKind>|
        (before.history + #[trigger] query_events(before.address, cmd, frame, error)).last()
            ->Read_error == error by {}
    assert forall|error: Option<ErrorKind>|
        !((before.history + #[trigger] command_events(before.address, cmd, error)).last()
            is Read) by {}
}

impl<I2C: I2c, D: DelayNs> Sen5x<I2C, D> {
    /// A handle for the sensor at the default address.
    pub fn new(i2c: I2C, delay: D) -> (sensor: Self)
        ensures
            sensor@ == (Sen5xView {
                address: DEFAULT_I2C_ADDRESS,
                is_running: false,
                history: Seq::empty(),
            }),
    {
        Sen5x {
            i2c,
            delay,
            is_running: false,
            address: DEFAULT_I2C_ADDRESS,
            history: Ghost(Seq::empty()),
        }
    }

    /// A handle for the sensor at `address`.
    pub fn with_i2c_address(i2c: I2C, delay: D, address: u8) -> (sensor: Self)
        ensures
            sensor@ == (Sen5xView { address, is_running: false, history: Seq::empty() }),
    {
        Sen5x { i2c, delay, is_running: false, address, history: Ghost(Seq::empty()) }
    }

    /// The address of the sensor on the bus.
    pub fn address(&self) -> (address: u8)
        ensures
            address == self@.address,
    {
        self.address
    }

    /// Whether periodic measurement was started through this handle.
    pub fn is_running(&self) -> (running: bool)
        ensures
            running == self@.is_running,
    {
        self.is_running
    }

    /// Writes the two bytes of `cmd`, high byte first, to the device at
    /// `address`.
    pub fn write_command_u16(&mut self, address: u8, cmd: u16) -> (result: Result<(), Error<ErrorKind>>)
        ensures
            final(self)@ == (Sen5xView {
                history: old(self)@.history.push(
                    BusEvent::Write { address, bytes: be_bytes(cmd), error: bus_error(result) },
                ),
                ..old(self)@
            }),
            !(result matches Err(Error::ChecksumMismatch)),
    {
        let bytes: [u8; 2] = encode_word(cmd);
        let written = bus_write(&mut self.i2c, address, bytes.as_slice());
        proof {
            self.history@ = self.history@.push(
                BusEvent::Write { address, bytes: be_bytes(cmd), error: written.err() },
            );
        }
        match written {
            Ok(()) => Ok(()),
            Err(e) => Err(Error::Transport(e)),
        }
    }

    /// Asks the bus once to fill `data` from the device at `addr`, then
    /// checks the checksum of every word in it.
    ///
    /// `data` must hold whole groups of three bytes.
    pub fn read_words_with_crc(&mut self, addr: u8, data: &mut [u8]) -> (result: Result<
        (),
        Error<ErrorKind>,
    >)
        requires
            old(data)@.len() % 3 == 0,
        ensures
            final(data)@.len() == old(data)@.len(),
            final(self)@ == (Sen5xView {
                history: old(self)@.history.push(
                    BusEvent::Read {
                        address: addr,
                        data: final(data)@,
                        error: bus_error(result),
                    },
                ),
                ..old(self)@
            }),
            bus_error(result) is None ==> (result is Ok <==> words_valid(final(data)@)),
    {
        let read = bus_read(&mut self.i2c, addr, data);
        proof {
            self.history@ = self.history@.push(
                BusEvent::Read { address: addr, data: data@, error: read.err() },
            );
        }
        match read {
            Ok(()) => {
                if validate(data) {
                    Ok(())
                } else {
                    Err(Error::ChecksumMismatch)
                }
            },
            Err(e) => Err(Error::Transport(e)),
        }
    }

    /// Sends `cmd` to the sensor and waits the time that the command needs.
    /// Nothing is waited for after a write that failed.
    fn write_command(&mut self, cmd: Command) -> (result: Result<(), Error<ErrorKind>>)
        ensures
            final(self)@ == (Sen5xView {
                history: old(self)@.history + command_events(
                    old(self)@.address,
                    cmd,
                    bus_error(result),
                ),
                ..old(self)@
            }),
            !(result matches Err(Error::ChecksumMismatch)),
    {
        let (opcode, delay_ms, _allowed_while_running) = cmd.as_tuple();
        let address: u8 = self.address;
        match self.write_command_u16(address, opcode) {
            Ok(()) => {},
            Err(e) => {
                proof {
                    assert(self@.history =~= old(self)@.history + command_events(
                        address,
                        cmd,
                        bus_error(Err::<(), Error<ErrorKind>>(e)),
                    ));
                }
                return Err(e);
            },
        }
        wait_ms(&mut self.delay, delay_ms);
        proof {
            self.history@ = self.history@.push(BusEvent::Delay { ms: delay_ms });
            assert(self@.history =~= old(self)@.history + command_events(address, cmd, None));
        }
        Ok(())
    }

    /// Sends `cmd` and reads the answer into `data`, which must hold whole
    /// groups of three bytes.
    fn delayed_read_cmd(&mut self, cmd: Command, data: &mut [u8]) -> (result: Result<
        (),
        Error<ErrorKind>,
    >)
        requires
            old(data)@.len() % 3 == 0,
        ensures
            exchanged(old(self)@, final(self)@, cmd, old(data)@, final(data)@, result),
    {
        let address: u8 = self.address;
        match self.write_command(cmd) {
            Ok(()) => {},
            Err(e) => {
                return Err(e);
            },
        }
        let result = self.read_words_with_crc(address, data);
        proof {
            assert(self@.history =~= old(self)@.history + query_events(
                address,
                cmd,
                data@,
                bus_error(result),
            ));
        }
        result
    }

    /// Starts periodic measurement. The handle counts as running once the
    /// command was written.
    pub fn start_measurement(&mut self) -> (result: Result<(), Error<ErrorKind>>)
        ensures
            final(self)@ == (Sen5xView {
                history: old(self)@.history + command_events(
                    old(self)@.address,
                    Command::StartMeasurement,
                    bus_error(result),
                ),
                is_running: old(self)@.is_running || result is Ok,
                ..old(self)@
            }),
            !(result matches Err(Error::ChecksumMismatch)),
    {
        match self.write_command(Command::StartMeasurement) {
            Ok(()) => {
                self.is_running = true;
                Ok(())
            },
            Err(e) => Err(e),
        }
    }

    /// Stops periodic measurement. The handle no longer counts as running
    /// once the command was written.
    pub fn stop_measurement(&mut self) -> (result: Result<(), Error<ErrorKind>>)
        ensures
            final(self)@ == (Sen5xView {
                history: old(self)@.history + command_events(
                    old(self)@.address,
                    Command::StopMeasurement,
                    bus_error(result),
                ),
                is_running: old(self)@.is_running && result is Err,
                ..old(self)@
            }),
            !(result matches Err(Error::ChecksumMismatch)),
    {
        match self.write_command(Command::StopMeasurement) {
            Ok(()) => {
                self.is_running = false;
                Ok(())
            },
            Err(e) => Err(e),
        }
    }

    /// Makes the sensor reload its settings from EEPROM.
    pub fn reinit(&mut self) -> (result: Result<(), Error<ErrorKind>>)
        ensures
            final(self)@ == (Sen5xView {
                history: old(self)@.history + command_events(
                    old(self)@.address,
                    Command::Reinit,
                    bus_error(result),
                ),
                ..old(self)@
            }),
            !(result matches Err(Error::ChecksumMismatch)),
    {
        self.write_command(Command::Reinit)
    }

    /// Starts the cleaning of the fan.
    pub fn start_fan_cleaning(&mut self) -> (result: Result<(), Error<ErrorKind>>)
        ensures
            final(self)@ == (Sen5xView {
                history: old(self)@.history + command_events(
                    old(self)@.address,
                    Command::StartFanCleaning,
                    bus_error(result),
                ),
                ..old(self)@
            }),
            !(result matches Err(Error::ChecksumMismatch)),
    {
        self.write_command(Command::StartFanCleaning)
    }

    /// Reads the 48-bit serial number of the sensor.
    pub fn serial_number(&mut self) -> (result: Result<u64, Error<ErrorKind>>)
        ensures
            answered(
                old(self)@,
                final(self)@,
                Command::GetSerialNumber,
                SERIAL_NUMBER_FRAME as nat,
                result,
            ),
            result is Ok ==> result->Ok_0 == serial_of(last_read(final(self)@.history)),
    {
        let mut buf: [u8; SERIAL_NUMBER_FRAME] = [0; SERIAL_NUMBER_FRAME];
        match self.delayed_read_cmd(Command::GetSerialNumber, &mut buf) {
            Ok(()) => Ok(decode_serial_number(&buf)),
            Err(e) => Err(e),
        }
    }

    /// Reads one set of readings, each as the word that the sensor sent
    /// and the scale that makes it a physical value.
    pub fn measurement(&mut self) -> (result: Result<Measurement, Error<ErrorKind>>)
        ensures
            answered(
                old(self)@,
                final(self)@,
                Command::ReadMeasurement,
                MEASUREMENT_FRAME as nat,
                result,
            ),
            result is Ok ==> result->Ok_0 == measurement_of(last_read(final(self)@.history)),
            result is Ok ==> result->Ok_0.well_formed(),
    {
        let mut buf: [u8; MEASUREMENT_FRAME] = [0; MEASUREMENT_FRAME];
        match self.delayed_read_cmd(Command::ReadMeasurement, &mut buf) {
            Ok(()) => Ok(decode_measurement(&buf)),
            Err(e) => Err(e),
        }
    }

    /// Asks the sensor whether a measurement waits to be read.
    pub fn data_ready_status(&mut self) -> (result: Result<bool, Error<ErrorKind>>)
        ensures
            answered(
                old(self)@,
                final(self)@,
                Command::GetReadDataReadyStatus,
                DATA_READY_FRAME as nat,
                result,
            ),
            result is Ok ==> result->Ok_0 == ready_of(
                word_at(last_read(final(self)@.history), 0),
            ),
    {
        let mut buf: [u8; DATA_READY_FRAME] = [0; DATA_READY_FRAME];
        match self.delayed_read_cmd(Command::GetReadDataReadyStatus, &mut buf) {
            Ok(()) => Ok(decode_data_ready(&buf)),
            Err(e) => Err(e),
        }
    }
}

} // verus!
