//! Movement requests: the four-byte payload of the Move command, its presets,
//! and the schedule on which a movement is refreshed for a given time.
use vstd::prelude::*;
use crate::protocol::{BugsyError, Command};
use crate::response::{bool_byte, encode_bool};

verus! {

/// Drive request for both tracks. A direction of `true` drives forward.
#[derive(Clone, Copy, Debug, PartialEq, Eq, Structural)]
pub struct Movement {
    pub chain_left_dir: bool,
    pub chain_right_dir: bool,
    pub chain_left_duty: u8,
    pub chain_right_duty: u8,
}

impl Movement {
    /// Both tracks stopped.
    pub open spec fn stopped() -> Movement {
        Movement { chain_left_dir: true, chain_right_dir: true, chain_left_duty: 0, chain_right_duty: 0 }
    }

    /// Full duty on both tracks, with the given directions.
    pub open spec fn full(left_dir: bool, right_dir: bool) -> Movement {
        Movement { chain_left_dir: left_dir, chain_right_dir: right_dir, chain_left_duty: 255, chain_right_duty: 255 }
    }

    /// The payload bytes, in the order of the fields.
    pub open spec fn bytes(self) -> Seq<u8> {
        seq![
            bool_byte(self.chain_left_dir),
            bool_byte(self.chain_right_dir),
            self.chain_left_duty,
            self.chain_right_duty,
        ]
    }

    /// The movement that a payload encodes, if it encodes one: four bytes
    /// whose two direction bytes are 0 or 1.
    pub open spec fn of_bytes(b: Seq<u8>) -> Option<Movement> {
        if b.len() == 4 && b[0] <= 1 && b[1] <= 1 {
            Some(Movement {
                chain_left_dir: b[0] == 1,
                chain_right_dir: b[1] == 1,
                chain_left_duty: b[2],
                chain_right_duty: b[3],
            })
        } else {
            None
        }
    }

    pub fn none() -> (r: Movement)
        ensures
            r == Movement::stopped(),
    {
        Movement { chain_left_dir: true, chain_right_dir: true, chain_left_duty: 0, chain_right_duty: 0 }
    }

    pub fn forward() -> (r: Movement)
        ensures
            r == Movement::full(true, true),
    {
        Movement { chain_left_dir: true, chain_right_dir: true, chain_left_duty: 255, chain_right_duty: 255 }
    }

    pub fn backward() -> (r: Movement)
        ensures
            r == Movement::full(false, false),
    {
        Movement { chain_left_dir: false, chain_right_dir: false, chain_left_duty: 255, chain_right_duty: 255 }
    }

    pub fn spin_cw() -> (r: Movement)
        ensures
            r == Movement::full(true, false),
    {
        Movement { chain_left_dir: true, chain_right_dir: false, chain_left_duty: 255, chain_right_duty: 255 }
    }

    pub fn spin_ccw() -> (r: Movement)
        ensures
            r == Movement::full(false, true),
    {
        Movement { chain_left_dir: false, chain_right_dir: true, chain_left_duty: 255, chain_right_duty: 255 }
    }

    /// The four payload bytes of this movement.
    pub fn to_bytes(&self) -> (r: Vec<u8>)
        ensures
            r@ == self.bytes(),
    {
        let mut r: Vec<u8> = Vec::new();
        r.push(encode_bool(self.chain_left_dir));
        r.push(encode_bool(self.chain_right_dir));
        r.push(self.chain_left_duty);
        r.push(self.chain_right_duty);
        assert(r@ =~= self.bytes());
        r
    }

    /// Decodes a payload; a wrong length or a direction byte other than 0 or
    /// 1 is a decode error.
    pub fn from_bytes(b: &[u8]) -> (r: Result<Movement, BugsyError>)
        ensures
            r == (match Movement::of_bytes(b@) {
                Some(m) => Ok(m),
                None => Err(BugsyError::Decode),
            }),
    {
        if b.len() != 4 || b[0] > 1 || b[1] > 1 {
            return Err(BugsyError::Decode);
        }
        Ok(Movement {
            chain_left_dir: b[0] == 1,
            chain_right_dir: b[1] == 1,
            chain_left_duty: b[2],
            chain_right_duty: b[3],
        })
    }
}

/// Decoding the payload of a movement gives that movement back.
pub proof fn lemma_movement_round_trip(m: Movement)
    ensures
        Movement::of_bytes(m.bytes()) == Some(m),
{
}

/// The request frame of a Move command: opcode 0x10, then the four payload
/// bytes of `m` in the order of its fields.
pub fn move_frame(m: &Movement) -> (r: Vec<u8>)
    ensures
        r@.len() == 5,
        r@ == seq![Command::Move.code()] + m.bytes(),
{
    let mut r: Vec<u8> = Vec::new();
    r.push(Command::Move.opcode());
    let mut payload = m.to_bytes();
    r.append(&mut payload);
    assert(r@ =~= seq![Command::Move.code()] + m.bytes());
    r
}

/// The four bytes after the opcode of a Move frame decode to the movement
/// that the frame was built from.
pub proof fn lemma_move_frame_payload(m: Movement)
    ensures
        Movement::of_bytes((seq![Command::Move.code()] + m.bytes()).subrange(1, 5)) == Some(m),
{
    assert((seq![Command::Move.code()] + m.bytes()).subrange(1, 5) =~= m.bytes());
}

/// Cadence, in milliseconds, at which a timed movement is sent again.
pub const MOVE_INTERVAL_MS: u64 = 50;

/// One step of a timed movement: send `movement`, then wait `pause_ms`.
#[derive(Clone, Copy, Debug, PartialEq, Eq, Structural)]
pub struct MoveStep {
    pub movement: Movement,
    pub pause_ms: u64,
}

/// How many times a movement held for `duration_ms` is sent: once per
/// started interval, and at least once.
pub open spec fn drive_count(duration_ms: nat) -> nat {
    if duration_ms == 0 {
        1
    } else {
        ((duration_ms + 49) / 50) as nat
    }
}

/// The time that a sequence of steps waits in all.
pub open spec fn total_pause(s: Seq<MoveStep>) -> int
    decreases s.len(),
{
    if s.len() == 0 {
        0
    } else {
        total_pause(s.drop_last()) + s.last().pause_ms
    }
}

/// The schedule that holds `m` for `duration_ms`: the movement is sent
/// `drive_count(duration_ms)` times, a full interval apart but for the last
/// wait, which takes what is left; one stop command follows. The waits add
/// up to the duration.
pub fn movement_plan(m: &Movement, duration_ms: u64) -> (r: Vec<MoveStep>)
    ensures
        r@.len() == drive_count(duration_ms as nat) + 1,
        forall|i: int| 0 <= i < drive_count(duration_ms as nat) ==> (#[trigger] r@[i]).movement == *m,
        forall|i: int| 0 <= i < drive_count(duration_ms as nat) - 1 ==> (#[trigger] r@[i]).pause_ms == MOVE_INTERVAL_MS,
        r@[drive_count(duration_ms as nat) - 1].pause_ms <= MOVE_INTERVAL_MS,
        r@.last() == (MoveStep { movement: Movement::stopped(), pause_ms: 0 }),
        total_pause(r@) == duration_ms,
{
    let mut steps: Vec<MoveStep> = Vec::new();
    let mut remaining: u64 = duration_ms;
    while remaining > MOVE_INTERVAL_MS
        invariant
            remaining as int == duration_ms as int - 50 * steps@.len(),
            steps@.len() == 0 || remaining > 0,
            forall|i: int| 0 <= i < steps@.len() ==> #[trigger] steps@[i] == (MoveStep { movement: *m, pause_ms: 50 }),
            total_pause(steps@) == 50 * steps@.len(),
        decreases remaining,
    {
        let ghost before = steps@;
        steps.push(MoveStep { movement: *m, pause_ms: MOVE_INTERVAL_MS });
        assert(steps@.drop_last() =~= before);
        remaining = remaining - MOVE_INTERVAL_MS;
    }
    let k: Ghost<int> = Ghost(steps@.len() as int);
    assert(drive_count(duration_ms as nat) == k@ + 1) by (nonlinear_arith)
        requires
            remaining as int == duration_ms as int - 50 * k@,
            k@ == 0 || remaining > 0,
            remaining <= 50,
            k@ >= 0,
    ;
    let ghost before = steps@;
    steps.push(MoveStep { movement: *m, pause_ms: remaining });
    assert(steps@.drop_last() =~= before);
    assert(total_pause(steps@) == total_pause(before) + remaining);
    let ghost driving = steps@;
    steps.push(MoveStep { movement: Movement::none(), pause_ms: 0 });
    assert(steps@.drop_last() =~= driving);
    assert(total_pause(steps@) == total_pause(driving));
    steps
}

} // verus!
