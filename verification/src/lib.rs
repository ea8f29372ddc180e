//! Codec, client helpers and emulator logic for a single addressable LED
//! device driven over a byte-oriented serial transport.
//!
//! The wire protocol exchanges fixed two-byte commands and one-byte
//! acknowledgements; `codec` holds the bijective mapping between device
//! states and commands, `server` the emulator's state machine, and `text`
//! the textual form of a state used on the command line.

pub mod codec;
pub mod server;
pub mod text;

pub use codec::{Color, Command, ProtocolError, State};
pub use server::{Reply, Server};
