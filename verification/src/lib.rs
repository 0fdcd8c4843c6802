//! Controller side of the joybus protocol used by the gamecube to poll
//! controllers.
//!
//! The crate is split along the protocol's own layers: `command`
//! classifies received command bytes, `report` builds the 8-byte poll
//! report from a button/stick snapshot, `session` decides how each
//! command is answered during the handshake and the steady-state poll
//! loop, `transport` models the byte-level queue discipline between the
//! host and the autonomously clocked signal engine, and `engine` models
//! that engine's bit-level read and write loops.

pub mod command;
pub mod engine;
pub mod report;
pub mod session;
pub mod transport;
