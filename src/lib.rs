//! Host-side driver core for the Bugsy tracked robot.
//!
//! The robot speaks a one-request / one-response byte protocol over a serial
//! link. This crate holds the verified part of that driver: the command set,
//! the wire layout of every request, validated decoding of every response,
//! and the schedule of a timed movement. Moving the bytes themselves is left
//! to the caller.
pub mod protocol;
pub mod response;
pub mod movement;
pub mod keys;
pub mod ctrl;
pub mod session;
