//! One request / one response at a time: the request frame in flight, the
//! command whose response is awaited, and validated decoding of that response.
//!
//! The caller moves the bytes: it writes `frame()` to the link, reads the
//! `expected_len()` response bytes, and hands them to `receive`, or reports a
//! failed read or write to `fail`.
use vstd::prelude::*;
use crate::movement::Movement;
use crate::protocol::{link_failure, BugsyError, Command};
use crate::response::{decode_bool, Remote, State};

verus! {

/// A decoded response.
#[derive(Clone, Copy, Debug, PartialEq, Eq, Structural)]
pub enum Response {
    /// The command has no response bytes.
    Nothing,
    State(State),
    Ready(bool),
    Remote(Remote),
}

/// What the response bytes `b` to `cmd` decode to: a response when they are
/// exactly the expected number of bytes and hold a valid value of the
/// expected type, else a decode error.
pub open spec fn response_of(cmd: Command, b: Seq<u8>) -> Result<Response, BugsyError> {
    if b.len() != cmd.response_size() {
        Err(BugsyError::Decode)
    } else {
        match cmd {
            Command::GetState => match State::decode(b[0]) {
                Some(s) => Ok(Response::State(s)),
                None => Err(BugsyError::Decode),
            },
            Command::IsTraderReady | Command::IsRPiReady => if b[0] == 0 {
                Ok(Response::Ready(false))
            } else if b[0] == 1 {
                Ok(Response::Ready(true))
            } else {
                Err(BugsyError::Decode)
            },
            Command::RemoteMode => match Remote::decode(b[0]) {
                Some(m) => Ok(Response::Remote(m)),
                None => Err(BugsyError::Decode),
            },
            _ => Ok(Response::Nothing),
        }
    }
}

/// Decodes the response bytes `b` to `cmd`; bytes of the wrong number, or
/// that hold no valid value of the expected type, are a decode error.
pub fn decode_response(cmd: Command, b: &[u8]) -> (r: Result<Response, BugsyError>)
    ensures
        r == response_of(cmd, b@),
{
    if b.len() != cmd.response_len() {
        return Err(BugsyError::Decode);
    }
    match cmd {
        Command::GetState => match State::from_byte(b[0]) {
            Ok(s) => Ok(Response::State(s)),
            Err(e) => Err(e),
        },
        Command::IsTraderReady | Command::IsRPiReady => match decode_bool(b[0]) {
            Ok(x) => Ok(Response::Ready(x)),
            Err(e) => Err(e),
        },
        Command::RemoteMode => match Remote::from_byte(b[0]) {
            Ok(m) => Ok(Response::Remote(m)),
            Err(e) => Err(e),
        },
        _ => Ok(Response::Nothing),
    }
}

/// The request side of a link to the robot: at most one request in flight.
pub struct Session {
    tx_buffer: Vec<u8>,
    pending: Option<Command>,
}

impl Session {
    /// The request frame last prepared.
    pub closed spec fn sent(&self) -> Seq<u8> {
        self.tx_buffer@
    }

    /// The command whose response is awaited, if any.
    pub closed spec fn awaiting(&self) -> Option<Command> {
        self.pending
    }

    pub fn new() -> (r: Session)
        ensures
            r.sent().len() == 0,
            r.awaiting() == None::<Command>,
    {
        Session { tx_buffer: Vec::new(), pending: None }
    }

    /// The frame to write to the link.
    pub fn frame(&self) -> (r: &[u8])
        ensures
            r@ == self.sent(),
    {
        self.tx_buffer.as_slice()
    }

    /// The command whose response is awaited, if any.
    pub fn pending(&self) -> (r: Option<Command>)
        ensures
            r == self.awaiting(),
    {
        self.pending
    }

    /// Number of response bytes to read before `receive`.
    pub fn expected_len(&self) -> (r: usize)
        ensures
            r == match self.awaiting() {
                Some(c) => c.response_size(),
                None => 0,
            },
    {
        match self.pending {
            Some(c) => c.response_len(),
            None => 0,
        }
    }

    /// Prepares a command without payload: the frame is its opcode alone.
    pub fn send_command(&mut self, cmd: Command)
        ensures
            final(self).sent() == seq![cmd.code()],
            final(self).awaiting() == Some(cmd),
    {
        self.tx_buffer.clear();
        self.tx_buffer.push(cmd.opcode());
        self.pending = Some(cmd);
    }

    /// Prepares a Move command: opcode 0x10, then the four payload bytes.
    pub fn send_command_with_payload(&mut self, m: &Movement)
        ensures
            final(self).sent() == seq![Command::Move.code()] + m.bytes(),
            final(self).sent().len() == 5,
            final(self).awaiting() == Some(Command::Move),
    {
        self.tx_buffer.clear();
        self.tx_buffer.push(Command::Move.opcode());
        let mut payload = m.to_bytes();
        self.tx_buffer.append(&mut payload);
        assert(self.tx_buffer@ =~= seq![Command::Move.code()] + m.bytes());
        self.pending = Some(Command::Move);
    }

    /// Decodes the response bytes read for the awaited command. The request
    /// is complete either way, and the session ready for the next one.
    pub fn receive(&mut self, b: &[u8]) -> (r: Result<Response, BugsyError>)
        requires
            old(self).awaiting() is Some,
        ensures
            final(self).awaiting() == None::<Command>,
            final(self).sent() == old(self).sent(),
            r == response_of(old(self).awaiting()->0, b@),
    {
        let cmd = self.pending.unwrap();
        self.pending = None;
        decode_response(cmd, b)
    }

    /// Reports a failed read or write of the request in flight. The request
    /// is abandoned, and the session ready for the next one.
    pub fn fail(&mut self, timed_out: bool) -> (e: BugsyError)
        ensures
            e == (if timed_out { BugsyError::Timeout } else { BugsyError::Io }),
            final(self).awaiting() == None::<Command>,
            final(self).sent() == old(self).sent(),
    {
        self.pending = None;
        link_failure(timed_out)
    }
}

} // verus!
