//! Typed responses and their validated decoding from response bytes.
use vstd::prelude::*;
use crate::protocol::BugsyError;

verus! {

/// The current state of the robot's controller.
#[derive(Clone, Copy, Debug, PartialEq, Eq, Structural)]
pub enum State {
    /// No state has been set yet.
    NONE,
    /// The controller is setting up.
    SETUP,
    /// The robot is in standby.
    STANDBY,
    /// The controller is at full activity and running.
    DRIVING,
    /// The controller stopped on a critical error.
    ERROR,
}

impl State {
    /// The byte that encodes this state in a response.
    pub open spec fn byte(self) -> u8 {
        match self {
            State::NONE => 0x00,
            State::SETUP => 0x10,
            State::STANDBY => 0x20,
            State::DRIVING => 0x21,
            State::ERROR => 0xF0,
        }
    }

    /// The state that a byte encodes, if any.
    pub open spec fn decode(b: u8) -> Option<State> {
        if b == 0x00 {
            Some(State::NONE)
        } else if b == 0x10 {
            Some(State::SETUP)
        } else if b == 0x20 {
            Some(State::STANDBY)
        } else if b == 0x21 {
            Some(State::DRIVING)
        } else if b == 0xF0 {
            Some(State::ERROR)
        } else {
            None
        }
    }

    /// The label shown to a user for this state.
    pub open spec fn label(self) -> Seq<char> {
        match self {
            State::NONE => "NONE"@,
            State::SETUP => "SETUP"@,
            State::STANDBY => "STANDBY"@,
            State::DRIVING => "RUNNING"@,
            State::ERROR => "ERROR"@,
        }
    }

    pub fn to_byte(&self) -> (r: u8)
        ensures
            r == self.byte(),
    {
        match self {
            State::NONE => 0x00,
            State::SETUP => 0x10,
            State::STANDBY => 0x20,
            State::DRIVING => 0x21,
            State::ERROR => 0xF0,
        }
    }

    /// Decodes a state byte; a byte that encodes no state is a decode error.
    pub fn from_byte(b: u8) -> (r: Result<State, BugsyError>)
        ensures
            r == (match State::decode(b) {
                Some(s) => Ok(s),
                None => Err(BugsyError::Decode),
            }),
    {
        match b {
            0x00 => Ok(State::NONE),
            0x10 => Ok(State::SETUP),
            0x20 => Ok(State::STANDBY),
            0x21 => Ok(State::DRIVING),
            0xF0 => Ok(State::ERROR),
            _ => Err(BugsyError::Decode),
        }
    }

    pub fn name(&self) -> (r: &'static str)
        ensures
            r@ == self.label(),
    {
        match self {
            State::NONE => "NONE",
            State::SETUP => "SETUP",
            State::STANDBY => "STANDBY",
            State::DRIVING => "RUNNING",
            State::ERROR => "ERROR",
        }
    }
}

/// Which remote-control channels of the robot are active, as a bitmask.
#[allow(non_camel_case_types)]
#[derive(Clone, Copy, Debug, PartialEq, Eq, Structural)]
pub enum Remote {
    NONE,
    BLUETOOTH,
    USB,
    TRADER,
    RPI,
    WIFI_UDP,
    WIFI_TCP,
    WIFI_MQTT,
    WIFI_CAM,
    ANY_WIFI,
    ALL,
}

impl Remote {
    /// The bitmask byte of this value.
    pub open spec fn byte(self) -> u8 {
        match self {
            Remote::NONE => 0x00,
            Remote::BLUETOOTH => 0x01,
            Remote::USB => 0x02,
            Remote::TRADER => 0x04,
            Remote::RPI => 0x08,
            Remote::WIFI_UDP => 0x10,
            Remote::WIFI_TCP => 0x20,
            Remote::WIFI_MQTT => 0x40,
            Remote::WIFI_CAM => 0x80,
            Remote::ANY_WIFI => 0xF0,
            Remote::ALL => 0xFF,
        }
    }

    /// The named bitmask value that a byte is, if any.
    pub open spec fn decode(b: u8) -> Option<Remote> {
        if b == 0x00 {
            Some(Remote::NONE)
        } else if b == 0x01 {
            Some(Remote::BLUETOOTH)
        } else if b == 0x02 {
            Some(Remote::USB)
        } else if b == 0x04 {
            Some(Remote::TRADER)
        } else if b == 0x08 {
            Some(Remote::RPI)
        } else if b == 0x10 {
            Some(Remote::WIFI_UDP)
        } else if b == 0x20 {
            Some(Remote::WIFI_TCP)
        } else if b == 0x40 {
            Some(Remote::WIFI_MQTT)
        } else if b == 0x80 {
            Some(Remote::WIFI_CAM)
        } else if b == 0xF0 {
            Some(Remote::ANY_WIFI)
        } else if b == 0xFF {
            Some(Remote::ALL)
        } else {
            None
        }
    }

    /// Whether every bit of `flag` is set in `self`.
    pub open spec fn has(self, flag: Remote) -> bool {
        self.byte() & flag.byte() == flag.byte()
    }

    pub fn bits(&self) -> (r: u8)
        ensures
            r == self.byte(),
    {
        match self {
            Remote::NONE => 0x00,
            Remote::BLUETOOTH => 0x01,
            Remote::USB => 0x02,
            Remote::TRADER => 0x04,
            Remote::RPI => 0x08,
            Remote::WIFI_UDP => 0x10,
            Remote::WIFI_TCP => 0x20,
            Remote::WIFI_MQTT => 0x40,
            Remote::WIFI_CAM => 0x80,
            Remote::ANY_WIFI => 0xF0,
            Remote::ALL => 0xFF,
        }
    }

    /// Decodes a bitmask byte; a byte that is none of the named values is a
    /// decode error.
    pub fn from_byte(b: u8) -> (r: Result<Remote, BugsyError>)
        ensures
            r == (match Remote::decode(b) {
                Some(m) => Ok(m),
                None => Err(BugsyError::Decode),
            }),
    {
        match b {
            0x00 => Ok(Remote::NONE),
            0x01 => Ok(Remote::BLUETOOTH),
            0x02 => Ok(Remote::USB),
            0x04 => Ok(Remote::TRADER),
            0x08 => Ok(Remote::RPI),
            0x10 => Ok(Remote::WIFI_UDP),
            0x20 => Ok(Remote::WIFI_TCP),
            0x40 => Ok(Remote::WIFI_MQTT),
            0x80 => Ok(Remote::WIFI_CAM),
            0xF0 => Ok(Remote::ANY_WIFI),
            0xFF => Ok(Remote::ALL),
            _ => Err(BugsyError::Decode),
        }
    }

    /// Tests whether every channel of `flag` is active in `self`.
    pub fn contains(&self, flag: Remote) -> (r: bool)
        ensures
            r == self.has(flag),
    {
        self.bits() & flag.bits() == flag.bits()
    }
}

/// A byte decodes to a state exactly when it is the byte of that state.
pub proof fn lemma_state_decode_inverts_byte(s: State, b: u8)
    ensures
        State::decode(s.byte()) == Some(s),
        State::decode(b) == Some(s) <==> s.byte() == b,
{
}

/// A byte decodes to a bitmask value exactly when it is the byte of that value.
pub proof fn lemma_remote_decode_inverts_byte(m: Remote, b: u8)
    ensures
        Remote::decode(m.byte()) == Some(m),
        Remote::decode(b) == Some(m) <==> m.byte() == b,
{
}

/// The byte that encodes a boolean on the wire: 1 for true, 0 for false.
pub open spec fn bool_byte(b: bool) -> u8 {
    if b { 1 } else { 0 }
}

pub fn encode_bool(b: bool) -> (r: u8)
    ensures
        r == bool_byte(b),
{
    if b { 1 } else { 0 }
}

/// Decodes a boolean byte; anything but 0 or 1 is a decode error.
pub fn decode_bool(b: u8) -> (r: Result<bool, BugsyError>)
    ensures
        r == (if b == 0 { Ok(false) } else if b == 1 { Ok(true) } else { Err(BugsyError::Decode) }),
{
    if b == 0 {
        Ok(false)
    } else if b == 1 {
        Ok(true)
    } else {
        Err(BugsyError::Decode)
    }
}

} // verus!
