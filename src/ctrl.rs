//! The reduced command set of the controller board: status, readiness of the
//! companion boards and remote mode, without movement.
use vstd::prelude::*;
use crate::protocol::BugsyError;

verus! {

/// A request opcode understood by the controller board.
#[derive(Clone, Copy, Debug, PartialEq, Eq, Structural)]
pub enum Command {
    Test,
    GetStatus,
    IsTraderReady,
    IsRPiReady,
    RemoteMode,
}

impl Command {
    /// The byte that selects this command on the wire.
    pub open spec fn code(self) -> u8 {
        match self {
            Command::Test => 0x00,
            Command::GetStatus => 0x01,
            Command::IsTraderReady => 0x21,
            Command::IsRPiReady => 0x23,
            Command::RemoteMode => 0x40,
        }
    }

    /// Number of bytes the board sends back for this command.
    pub open spec fn response_size(self) -> nat {
        match self {
            Command::Test => 0,
            _ => 1,
        }
    }

    pub fn opcode(&self) -> (r: u8)
        ensures
            r == self.code(),
    {
        match self {
            Command::Test => 0x00,
            Command::GetStatus => 0x01,
            Command::IsTraderReady => 0x21,
            Command::IsRPiReady => 0x23,
            Command::RemoteMode => 0x40,
        }
    }

    pub fn response_len(&self) -> (r: usize)
        ensures
            r == self.response_size(),
    {
        match self {
            Command::Test => 0,
            _ => 1,
        }
    }

    /// The request frame of this command: its opcode alone.
    pub fn frame(&self) -> (r: Vec<u8>)
        ensures
            r@ == seq![self.code()],
    {
        let mut r: Vec<u8> = Vec::new();
        r.push(self.opcode());
        r
    }
}

/// The run status of the controller board.
#[derive(Clone, Copy, Debug, PartialEq, Eq, Structural)]
pub enum Status {
    SETUP,
    RUNNING,
}

impl Status {
    /// The byte that encodes this status in a response.
    pub open spec fn byte(self) -> u8 {
        match self {
            Status::SETUP => 0x00,
            Status::RUNNING => 0x01,
        }
    }

    /// The status that a byte encodes, if any.
    pub open spec fn decode(b: u8) -> Option<Status> {
        if b == 0x00 {
            Some(Status::SETUP)
        } else if b == 0x01 {
            Some(Status::RUNNING)
        } else {
            None
        }
    }

    /// The label shown to a user for this status.
    pub open spec fn label(self) -> Seq<char> {
        match self {
            Status::SETUP => "SETUP"@,
            Status::RUNNING => "RUNNING"@,
        }
    }

    /// Decodes a status byte; a byte that encodes no status is a decode error.
    pub fn from_byte(b: u8) -> (r: Result<Status, BugsyError>)
        ensures
            r == (match Status::decode(b) {
                Some(s) => Ok(s),
                None => Err(BugsyError::Decode),
            }),
    {
        match b {
            0x00 => Ok(Status::SETUP),
            0x01 => Ok(Status::RUNNING),
            _ => Err(BugsyError::Decode),
        }
    }

    pub fn name(&self) -> (r: &'static str)
        ensures
            r@ == self.label(),
    {
        match self {
            Status::SETUP => "SETUP",
            Status::RUNNING => "RUNNING",
        }
    }
}

/// Which remote-control channels of the board are active, as a bitmask.
#[allow(non_camel_case_types)]
#[derive(Clone, Copy, Debug, PartialEq, Eq, Structural)]
pub enum RemoteMode {
    NONE,
    BLUETOOTH,
    USB,
    TRADER,
    RPI,
    WIFI_UDP,
    WIFI_TCP,
    WIFI_MQTT,
    WIFI_CAM,
    ANY_WIFI,
    ALL,
}

impl RemoteMode {
    /// The bitmask byte of this value.
    pub open spec fn byte(self) -> u8 {
        match self {
            RemoteMode::NONE => 0x00,
            RemoteMode::BLUETOOTH => 0x01,
            RemoteMode::USB => 0x02,
            RemoteMode::TRADER => 0x04,
            RemoteMode::RPI => 0x08,
            RemoteMode::WIFI_UDP => 0x10,
            RemoteMode::WIFI_TCP => 0x20,
            RemoteMode::WIFI_MQTT => 0x40,
            RemoteMode::WIFI_CAM => 0x80,
            RemoteMode::ANY_WIFI => 0xF0,
            RemoteMode::ALL => 0xFF,
        }
    }

    /// The named bitmask value that a byte is, if any.
    pub open spec fn decode(b: u8) -> Option<RemoteMode> {
        if b == 0x00 {
            Some(RemoteMode::NONE)
        } else if b == 0x01 {
            Some(RemoteMode::BLUETOOTH)
        } else if b == 0x02 {
            Some(RemoteMode::USB)
        } else if b == 0x04 {
            Some(RemoteMode::TRADER)
        } else if b == 0x08 {
            Some(RemoteMode::RPI)
        } else if b == 0x10 {
            Some(RemoteMode::WIFI_UDP)
        } else if b == 0x20 {
            Some(RemoteMode::WIFI_TCP)
        } else if b == 0x40 {
            Some(RemoteMode::WIFI_MQTT)
        } else if b == 0x80 {
            Some(RemoteMode::WIFI_CAM)
        } else if b == 0xF0 {
            Some(RemoteMode::ANY_WIFI)
        } else if b == 0xFF {
            Some(RemoteMode::ALL)
        } else {
            None
        }
    }

    /// Whether every bit of `flag` is set in `self`.
    pub open spec fn has(self, flag: RemoteMode) -> bool {
        self.byte() & flag.byte() == flag.byte()
    }

    pub fn bits(&self) -> (r: u8)
        ensures
            r == self.byte(),
    {
        match self {
            RemoteMode::NONE => 0x00,
            RemoteMode::BLUETOOTH => 0x01,
            RemoteMode::USB => 0x02,
            RemoteMode::TRADER => 0x04,
            RemoteMode::RPI => 0x08,
            RemoteMode::WIFI_UDP => 0x10,
            RemoteMode::WIFI_TCP => 0x20,
            RemoteMode::WIFI_MQTT => 0x40,
            RemoteMode::WIFI_CAM => 0x80,
            RemoteMode::ANY_WIFI => 0xF0,
            RemoteMode::ALL => 0xFF,
        }
    }

    /// Decodes a bitmask byte; a byte that is none of the named values is a
    /// decode error.
    pub fn from_byte(b: u8) -> (r: Result<RemoteMode, BugsyError>)
        ensures
            r == (match RemoteMode::decode(b) {
                Some(m) => Ok(m),
                None => Err(BugsyError::Decode),
            }),
    {
        match b {
            0x00 => Ok(RemoteMode::NONE),
            0x01 => Ok(RemoteMode::BLUETOOTH),
            0x02 => Ok(RemoteMode::USB),
            0x04 => Ok(RemoteMode::TRADER),
            0x08 => Ok(RemoteMode::RPI),
            0x10 => Ok(RemoteMode::WIFI_UDP),
            0x20 => Ok(RemoteMode::WIFI_TCP),
            0x40 => Ok(RemoteMode::WIFI_MQTT),
            0x80 => Ok(RemoteMode::WIFI_CAM),
            0xF0 => Ok(RemoteMode::ANY_WIFI),
            0xFF => Ok(RemoteMode::ALL),
            _ => Err(BugsyError::Decode),
        }
    }

    /// Tests whether every channel of `flag` is active in `self`.
    pub fn contains(&self, flag: RemoteMode) -> (r: bool)
        ensures
            r == self.has(flag),
    {
        self.bits() & flag.bits() == flag.bits()
    }
}

} // verus!
