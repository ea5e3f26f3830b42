//! Verified core of an RCON (remote console) client that speaks two wire
//! protocols behind one abstraction: the legacy line-oriented HYRCON protocol
//! and the binary Source RCON protocol.
//!
//! This crate holds the protocol logic only: greeting and response parsing,
//! input validation, the binary packet codec, and the per-protocol session
//! state machines. Every socket interaction is driven from outside by feeding
//! received lines or packets into the state machines and writing out the
//! bytes they produce.

pub mod cli;
pub mod codec;
pub mod error;
pub mod protocol;
pub mod runtime;
pub mod source;
pub mod text;
pub mod transport;
pub mod util;

pub use cli::Cli;
pub use protocol::{ParseProtocolError, Protocol};
pub use runtime::Runtime;
pub use transport::{
    AuthMode, AuthOutcome, CommandOutcome, Greeting, RconResponse, ResponseStatus,
};
