use rustbug::ctrl;
use rustbug::keys::KeyState;
use rustbug::movement::{move_frame, movement_plan, MoveStep, Movement, MOVE_INTERVAL_MS};
use rustbug::protocol::{command_frame, link_failure, BugsyError, Command, BAUD_RATE, TIMEOUT_MS};
use rustbug::response::{decode_bool, encode_bool, Remote, State};
use rustbug::session::{decode_response, Response, Session};

#[test]
fn command_frames_are_single_opcode_bytes() {
    assert_eq!(command_frame(Command::Test), vec![0x00]);
    assert_eq!(command_frame(Command::GetState), vec![0x01]);
    assert_eq!(command_frame(Command::IsTraderReady), vec![0x21]);
    assert_eq!(command_frame(Command::IsRPiReady), vec![0x23]);
    assert_eq!(command_frame(Command::RemoteMode), vec![0x40]);
}

#[test]
fn command_sizes() {
    assert_eq!(Command::Move.opcode(), 0x10);
    assert_eq!(Command::Move.payload_len(), 4);
    assert_eq!(Command::GetState.payload_len(), 0);
    assert_eq!(Command::GetState.response_len(), 1);
    assert_eq!(Command::IsTraderReady.response_len(), 1);
    assert_eq!(Command::IsRPiReady.response_len(), 1);
    assert_eq!(Command::RemoteMode.response_len(), 1);
    assert_eq!(Command::Test.response_len(), 0);
    assert_eq!(Command::Move.response_len(), 0);
}

#[test]
fn link_settings() {
    assert_eq!(BAUD_RATE, 115_200);
    assert_eq!(TIMEOUT_MS, 1000);
}

#[test]
fn move_frame_forward() {
    assert_eq!(move_frame(&Movement::forward()), vec![0x10, 1, 1, 255, 255]);
}

#[test]
fn move_frame_keeps_field_order() {
    let m = Movement { chain_left_dir: false, chain_right_dir: true, chain_left_duty: 7, chain_right_duty: 200 };
    assert_eq!(move_frame(&m), vec![0x10, 0, 1, 7, 200]);
    assert_eq!(move_frame(&Movement::none()), vec![0x10, 1, 1, 0, 0]);
}

#[test]
fn movement_round_trip_forward_and_spin() {
    let fwd = Movement::forward().to_bytes();
    let back = Movement::from_bytes(&fwd).unwrap();
    assert_eq!(back, Movement { chain_left_dir: true, chain_right_dir: true, chain_left_duty: 255, chain_right_duty: 255 });
    let cw = Movement::spin_cw().to_bytes();
    let back = Movement::from_bytes(&cw).unwrap();
    assert_eq!(back, Movement { chain_left_dir: true, chain_right_dir: false, chain_left_duty: 255, chain_right_duty: 255 });
}

#[test]
fn movement_decode_rejects_bad_payloads() {
    assert_eq!(Movement::from_bytes(&[1, 1, 255]), Err(BugsyError::Decode));
    assert_eq!(Movement::from_bytes(&[2, 1, 255, 255]), Err(BugsyError::Decode));
    assert_eq!(Movement::from_bytes(&[1, 7, 255, 255]), Err(BugsyError::Decode));
    assert_eq!(Movement::from_bytes(&[0, 0, 3, 4, 5]), Err(BugsyError::Decode));
}

#[test]
fn presets() {
    assert_eq!(Movement::backward().to_bytes(), vec![0, 0, 255, 255]);
    assert_eq!(Movement::spin_ccw().to_bytes(), vec![0, 1, 255, 255]);
    assert_eq!(Movement::none().to_bytes(), vec![1, 1, 0, 0]);
}

fn drives(plan: &[MoveStep]) -> usize {
    plan.len() - 1
}

fn waited(plan: &[MoveStep]) -> u64 {
    plan.iter().map(|s| s.pause_ms).sum()
}

#[test]
fn plan_counts_started_intervals() {
    let m = Movement::forward();
    for (duration, count) in [(0u64, 1usize), (1, 1), (50, 1), (51, 2), (100, 2), (101, 3), (1000, 20)] {
        let plan = movement_plan(&m, duration);
        assert_eq!(drives(&plan), count, "duration {}", duration);
        assert_eq!(waited(&plan), duration);
        assert!(plan[..count].iter().all(|s| s.movement == m));
        assert_eq!(*plan.last().unwrap(), MoveStep { movement: Movement::none(), pause_ms: 0 });
    }
}

#[test]
fn plan_waits_full_intervals_then_the_rest() {
    let plan = movement_plan(&Movement::spin_cw(), 120);
    assert_eq!(plan.len(), 4);
    assert_eq!(plan[0].pause_ms, MOVE_INTERVAL_MS);
    assert_eq!(plan[1].pause_ms, MOVE_INTERVAL_MS);
    assert_eq!(plan[2].pause_ms, 20);
    assert_eq!(plan[3].movement, Movement::none());
}

#[test]
fn state_decoding_scenario() {
    assert_eq!(State::from_byte(0x21), Ok(State::DRIVING));
    assert_eq!(State::from_byte(0xF0), Ok(State::ERROR));
    assert_eq!(State::from_byte(0x99), Err(BugsyError::Decode));
}

#[test]
fn state_bytes_and_names() {
    for s in [State::NONE, State::SETUP, State::STANDBY, State::DRIVING, State::ERROR] {
        assert_eq!(State::from_byte(s.to_byte()), Ok(s));
    }
    assert_eq!(State::from_byte(0x10), Ok(State::SETUP));
    assert_eq!(State::from_byte(0x01), Err(BugsyError::Decode));
    assert_eq!(State::DRIVING.name(), "RUNNING");
    assert_eq!(State::STANDBY.name(), "STANDBY");
}

#[test]
fn remote_mode_scenario() {
    let mode = Remote::from_byte(0xF0).unwrap();
    assert_eq!(mode, Remote::ANY_WIFI);
    assert!(!mode.contains(Remote::BLUETOOTH));
    assert!(mode.contains(Remote::WIFI_TCP));
}

#[test]
fn remote_decoding() {
    assert_eq!(Remote::from_byte(0x03), Err(BugsyError::Decode));
    assert_eq!(Remote::from_byte(0xFF), Ok(Remote::ALL));
    assert_eq!(Remote::from_byte(0x08), Ok(Remote::RPI));
    assert!(Remote::ALL.contains(Remote::USB));
    assert!(!Remote::USB.contains(Remote::ALL));
    assert_eq!(Remote::WIFI_CAM.bits(), 0x80);
}

#[test]
fn bool_bytes() {
    assert_eq!(decode_bool(0), Ok(false));
    assert_eq!(decode_bool(1), Ok(true));
    assert_eq!(decode_bool(2), Err(BugsyError::Decode));
    assert_eq!(encode_bool(true), 1);
    assert_eq!(encode_bool(false), 0);
}

#[test]
fn timeout_is_distinct_from_io() {
    assert_eq!(link_failure(true), BugsyError::Timeout);
    assert_eq!(link_failure(false), BugsyError::Io);
}

#[test]
fn keys_select_movement() {
    let mut keys = KeyState::default();
    assert!(keys.has_none());
    assert_eq!(keys.movement(), Movement::none());
    keys.apply('s', true);
    assert!(!keys.has_none());
    assert_eq!(keys.movement(), Movement::backward());
    keys.apply('w', true);
    assert_eq!(keys.movement(), Movement::forward());
    keys.apply('w', false);
    keys.apply('s', false);
    keys.apply('d', true);
    assert_eq!(keys.movement(), Movement::spin_cw());
    keys.apply('a', true);
    assert_eq!(keys.movement(), Movement::spin_ccw());
    keys.apply('x', true);
    assert!(keys.a && keys.d && !keys.w && !keys.s);
}

#[test]
fn controller_board_codec() {
    assert_eq!(ctrl::Command::GetStatus.frame(), vec![0x01]);
    assert_eq!(ctrl::Command::RemoteMode.opcode(), 0x40);
    assert_eq!(ctrl::Command::Test.response_len(), 0);
    assert_eq!(ctrl::Command::IsRPiReady.response_len(), 1);
    assert_eq!(ctrl::Status::from_byte(0x01), Ok(ctrl::Status::RUNNING));
    assert_eq!(ctrl::Status::from_byte(0x00), Ok(ctrl::Status::SETUP));
    assert_eq!(ctrl::Status::from_byte(0x02), Err(BugsyError::Decode));
    assert_eq!(ctrl::Status::RUNNING.name(), "RUNNING");
    let mode = ctrl::RemoteMode::from_byte(0xF0).unwrap();
    assert_eq!(mode, ctrl::RemoteMode::ANY_WIFI);
    assert!(mode.contains(ctrl::RemoteMode::WIFI_MQTT));
    assert!(!mode.contains(ctrl::RemoteMode::RPI));
    assert_eq!(ctrl::RemoteMode::from_byte(0x11), Err(BugsyError::Decode));
}

#[test]
fn session_prepares_single_byte_requests() {
    let mut session = Session::new();
    assert_eq!(session.pending(), None);
    assert_eq!(session.expected_len(), 0);
    for cmd in [Command::Test, Command::GetState, Command::IsTraderReady, Command::IsRPiReady, Command::RemoteMode] {
        session.send_command(cmd);
        assert_eq!(session.frame(), &[cmd.opcode()][..]);
        assert_eq!(session.pending(), Some(cmd));
    }
    assert_eq!(session.expected_len(), 1);
}

#[test]
fn session_prepares_move_request() {
    let mut session = Session::new();
    session.send_command(Command::GetState);
    session.send_command_with_payload(&Movement::spin_cw());
    assert_eq!(session.frame(), &[0x10, 1, 0, 255, 255][..]);
    assert_eq!(session.expected_len(), 0);
    assert_eq!(session.receive(&[]), Ok(Response::Nothing));
}

#[test]
fn session_get_state_scenario() {
    let mut session = Session::new();
    for (byte, expected) in [(0x21u8, Ok(Response::State(State::DRIVING))), (0xF0, Ok(Response::State(State::ERROR))), (0x99, Err(BugsyError::Decode))] {
        session.send_command(Command::GetState);
        assert_eq!(session.receive(&[byte]), expected);
        assert_eq!(session.pending(), None);
    }
}

#[test]
fn session_remote_mode_scenario() {
    let mut session = Session::new();
    session.send_command(Command::RemoteMode);
    assert_eq!(session.receive(&[0xF0]), Ok(Response::Remote(Remote::ANY_WIFI)));
    session.send_command(Command::RemoteMode);
    assert_eq!(session.receive(&[0x05]), Err(BugsyError::Decode));
}

#[test]
fn session_ready_flags() {
    let mut session = Session::new();
    session.send_command(Command::IsTraderReady);
    assert_eq!(session.receive(&[1]), Ok(Response::Ready(true)));
    session.send_command(Command::IsRPiReady);
    assert_eq!(session.receive(&[0]), Ok(Response::Ready(false)));
    session.send_command(Command::IsRPiReady);
    assert_eq!(session.receive(&[3]), Err(BugsyError::Decode));
}

#[test]
fn session_rejects_wrong_response_length() {
    let mut session = Session::new();
    session.send_command(Command::GetState);
    assert_eq!(session.receive(&[]), Err(BugsyError::Decode));
    assert_eq!(decode_response(Command::GetState, &[0x21, 0x21]), Err(BugsyError::Decode));
    assert_eq!(decode_response(Command::Test, &[]), Ok(Response::Nothing));
}

#[test]
fn session_timeout_leaves_it_usable() {
    let mut session = Session::new();
    session.send_command(Command::GetState);
    assert_eq!(session.fail(true), BugsyError::Timeout);
    assert_eq!(session.pending(), None);
    session.send_command(Command::GetState);
    assert_eq!(session.frame(), &[0x01][..]);
    assert_eq!(session.receive(&[0x20]), Ok(Response::State(State::STANDBY)));
    session.send_command(Command::IsTraderReady);
    assert_eq!(session.fail(false), BugsyError::Io);
    assert_eq!(session.pending(), None);
}
