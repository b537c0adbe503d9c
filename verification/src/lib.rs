//! The session broker of a single-instance desktop launcher: the messages
//! that clients send to the running server, the framing of those messages on
//! the local channel, the accept loop that waits for each acknowledgment, and the
//! controller that owns the window and the process lifetime.
//!
//! Everything here is a decision from plain values to plain values. The
//! caller owns the socket, the window system and the scheduler: it performs
//! the actions that these functions return and reports back what happened.

pub mod app;
pub mod components;
pub mod ipc;
pub mod laws;
