//! Command set, wire layouts and validated decoding of responses.
use vstd::prelude::*;

verus! {

/// Symbol rate at which the serial link is opened.
pub const BAUD_RATE: u32 = 115_200;

/// Bound on each single read or write on the serial link, in milliseconds.
pub const TIMEOUT_MS: u64 = 1000;

/// Errors surfaced by the driver.
#[derive(Clone, Copy, Debug, PartialEq, Eq, Structural)]
pub enum BugsyError {
    /// The device path is invalid or the device is unavailable.
    Connection,
    /// A read or write failed for a reason other than a timeout.
    Io,
    /// A read did not complete within the configured bound.
    Timeout,
    /// A received byte pattern is not a valid value of the expected type.
    Decode,
}

/// Classifies a failed read or write: a timeout stays distinguishable from
/// any other I/O failure, so that a poller can retry on it.
pub fn link_failure(timed_out: bool) -> (e: BugsyError)
    ensures
        e == (if timed_out { BugsyError::Timeout } else { BugsyError::Io }),
{
    if timed_out {
        BugsyError::Timeout
    } else {
        BugsyError::Io
    }
}

/// A request opcode understood by the robot.
#[derive(Clone, Copy, Debug, PartialEq, Eq, Structural)]
pub enum Command {
    Test,
    GetState,
    Move,
    IsTraderReady,
    IsRPiReady,
    RemoteMode,
}

impl Command {
    /// The byte that selects this command on the wire.
    pub open spec fn code(self) -> u8 {
        match self {
            Command::Test => 0x00,
            Command::GetState => 0x01,
            Command::Move => 0x10,
            Command::IsTraderReady => 0x21,
            Command::IsRPiReady => 0x23,
            Command::RemoteMode => 0x40,
        }
    }

    /// Number of payload bytes that follow the opcode in a request.
    pub open spec fn payload_size(self) -> nat {
        match self {
            Command::Move => 4,
            _ => 0,
        }
    }

    /// Number of bytes the robot sends back for this command.
    pub open spec fn response_size(self) -> nat {
        match self {
            Command::GetState | Command::IsTraderReady | Command::IsRPiReady
            | Command::RemoteMode => 1,
            _ => 0,
        }
    }

    pub fn opcode(&self) -> (r: u8)
        ensures
            r == self.code(),
    {
        match self {
            Command::Test => 0x00,
            Command::GetState => 0x01,
            Command::Move => 0x10,
            Command::IsTraderReady => 0x21,
            Command::IsRPiReady => 0x23,
            Command::RemoteMode => 0x40,
        }
    }

    pub fn payload_len(&self) -> (r: usize)
        ensures
            r == self.payload_size(),
    {
        match self {
            Command::Move => 4,
            _ => 0,
        }
    }

    pub fn response_len(&self) -> (r: usize)
        ensures
            r == self.response_size(),
    {
        match self {
            Command::GetState | Command::IsTraderReady | Command::IsRPiReady
            | Command::RemoteMode => 1,
            _ => 0,
        }
    }
}

/// The request frame of a command sent without payload: its opcode alone.
pub fn command_frame(cmd: Command) -> (r: Vec<u8>)
    ensures
        r@ == seq![cmd.code()],
{
    let mut r: Vec<u8> = Vec::new();
    r.push(cmd.opcode());
    r
}

} // verus!
