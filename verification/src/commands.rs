//! The command table of the sensor.
use vstd::prelude::*;
use crate::frame::{be_bytes, be_word};

verus! {

/// The commands of the SEN5x that this driver knows (datasheet, chapter 6.1).
#[derive(Debug, Copy, Clone, PartialEq, Eq, Structural)]
pub enum Command {
    /// Start periodic measurement.
    StartMeasurement,
    /// Stop periodic measurement and return to idle mode.
    StopMeasurement,
    /// Is data ready for read-out?
    GetReadDataReadyStatus,
    /// Read the serial number, which identifies the chip.
    GetSerialNumber,
    /// Read the sensor output. The buffer is emptied upon read-out.
    ReadMeasurement,
    /// Reload the user settings from EEPROM.
    Reinit,
    /// Start the fan cleaning by hand.
    StartFanCleaning,
}

impl Command {
    /// The 16-bit code that is written to the bus for this command.
    pub open spec fn opcode(self) -> u16 {
        match self {
            Command::StartMeasurement => 0x0021,
            Command::StopMeasurement => 0x0104,
            Command::GetReadDataReadyStatus => 0x0202,
            Command::GetSerialNumber => 0xD033,
            Command::ReadMeasurement => 0x03C4,
            Command::Reinit => 0xD304,
            Command::StartFanCleaning => 0x5607,
        }
    }

    /// The time in milliseconds that the sensor needs after this command.
    pub open spec fn delay_ms(self) -> u32 {
        match self {
            Command::StartMeasurement => 50,
            Command::StopMeasurement => 200,
            Command::GetReadDataReadyStatus => 20,
            Command::GetSerialNumber => 20,
            Command::ReadMeasurement => 20,
            Command::Reinit => 100,
            Command::StartFanCleaning => 20,
        }
    }

    /// Whether the sensor accepts this command while it measures.
    pub open spec fn allowed_while_running(self) -> bool {
        match self {
            Command::StartMeasurement => false,
            Command::StopMeasurement => true,
            Command::GetReadDataReadyStatus => true,
            Command::GetSerialNumber => false,
            Command::ReadMeasurement => true,
            Command::Reinit => false,
            Command::StartFanCleaning => true,
        }
    }

    /// Opcode, settle time in milliseconds, and whether the command may be
    /// sent while the sensor measures.
    pub fn as_tuple(self) -> (entry: (u16, u32, bool))
        ensures
            entry == (self.opcode(), self.delay_ms(), self.allowed_while_running()),
    {
        match self {
            Command::StartMeasurement => (0x0021, 50, false),
            Command::StopMeasurement => (0x0104, 200, true),
            Command::GetReadDataReadyStatus => (0x0202, 20, true),
            Command::GetSerialNumber => (0xD033, 20, false),
            Command::ReadMeasurement => (0x03C4, 20, true),
            Command::Reinit => (0xD304, 100, false),
            Command::StartFanCleaning => (0x5607, 20, true),
        }
    }
}

/// The opcode of every command, split into the two bytes that go over the
/// bus and joined again, is the same opcode.
pub proof fn lemma_opcode_round_trip(cmd: Command)
    ensures
        be_bytes(cmd.opcode()).len() == 2,
        be_word(be_bytes(cmd.opcode())[0], be_bytes(cmd.opcode())[1]) == cmd.opcode(),
{
}

} // verus!
