//! A boat on a terminal. Arrow keys move it one cell at a time between the
//! banks of a channel, the edges of the terminal wrap around, and `q` ends
//! the session.
//!
//! The library decides and never touches the terminal. A caller drives a
//! [`session::Session`]: it carries out the action that the session asks for,
//! reports what came of it, and is told the next one, until the session
//! exits.
//!
//! - [`boat`]: the boat, its plain moves and the report of its position;
//! - [`motion`]: what a key does to the boat, and how the edges wrap;
//! - [`world`]: the terminal's size and the banks of the channel;
//! - [`draw`]: a frame of the picture as a list of terminal commands;
//! - [`session`]: the session as a state machine;
//! - [`session_laws`]: what holds of every session.

pub mod boat;
pub mod draw;
pub mod motion;
pub mod session;
pub mod session_laws;
pub mod world;
