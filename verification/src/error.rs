//! The error values the protocol core produces. Connection and timeout
//! failures belong to the I/O layer around the core and are not represented
//! here.

use vstd::prelude::*;

verus! {

/// Everything that can go wrong inside the protocol core: inputs rejected
/// before any I/O would happen, and server data that violates the wire
/// grammar.
#[derive(Debug, Clone, PartialEq, Eq)]
pub enum RconError {
    /// The greeting block held fewer than two lines.
    GreetingMissingAuthMode,
    /// The greeting banner was not the expected literal; carries the banner.
    UnexpectedBanner(String),
    /// The greeting advertised an unknown authentication mode; carries the line.
    UnknownAuthMode(String),
    /// The authentication response block was empty.
    EmptyAuthBlock,
    /// The authentication response was neither `AUTH OK` nor `AUTH FAIL`.
    UnexpectedAuthReply(String),
    /// A command response block was empty.
    EmptyBlock,
    /// A command response status line was not `OK`, `ERR` or `BYE`.
    UnexpectedStatus(String),
    /// A QUIT command was answered with a payload instead of `BYE`.
    UnexpectedQuitResponse,
    /// The session was already closed when the operation was attempted.
    SessionClosed,
    /// A command was sent before the mandatory authentication.
    NotAuthenticated,
    /// The command was empty after trimming whitespace.
    EmptyCommand,
    /// The command contained a carriage return or line feed.
    NewlineInCommand,
    /// The password contained a carriage return or line feed.
    NewlineInPassword,
    /// The command contained a NUL character.
    NulInCommand,
    /// The password contained a NUL character.
    NulInPassword,
    /// A packet payload contained a NUL character.
    NulInPayload,
    /// A packet payload was too long for the 32-bit length prefix.
    PayloadTooLong,
    /// A binary frame declared a length below the 10-byte minimum.
    InvalidLength(i32),
    /// A binary frame body was shorter than the 10-byte minimum.
    ShortPacket,
    /// A binary frame did not end in the two NUL terminator bytes.
    MissingTerminator,
    /// A binary frame payload was not valid UTF-8 text.
    InvalidUtf8,
    /// The sentinel request was answered with the wrong packet kind; carries it.
    SentinelKindMismatch(i32),
    /// The sentinel request was answered with a non-empty payload.
    SentinelPayloadNotEmpty,
    /// The server revoked authentication in the middle of the session.
    AuthInvalidated,
}

/// The coarse classes of failure, mirroring how callers are expected to
/// react: protocol violations are fatal to the session, validation failures
/// leave it usable, and a revoked authentication calls for a reconnect.
#[derive(Debug, Clone, Copy, PartialEq, Eq, Structural)]
pub enum ErrorKind {
    ProtocolViolation,
    ValidationFailure,
    SessionClosed,
    DeauthInvalidated,
}

/// The class an error value falls in.
pub open spec fn spec_error_kind(e: RconError) -> ErrorKind {
    match e {
        RconError::SessionClosed => ErrorKind::SessionClosed,
        RconError::AuthInvalidated => ErrorKind::DeauthInvalidated,
        RconError::NotAuthenticated => ErrorKind::ValidationFailure,
        RconError::EmptyCommand => ErrorKind::ValidationFailure,
        RconError::NewlineInCommand => ErrorKind::ValidationFailure,
        RconError::NewlineInPassword => ErrorKind::ValidationFailure,
        RconError::NulInCommand => ErrorKind::ValidationFailure,
        RconError::NulInPassword => ErrorKind::ValidationFailure,
        RconError::NulInPayload => ErrorKind::ValidationFailure,
        RconError::PayloadTooLong => ErrorKind::ValidationFailure,
        _ => ErrorKind::ProtocolViolation,
    }
}

impl RconError {
    /// The class this error falls in.
    pub fn kind(&self) -> (r: ErrorKind)
        ensures
            r == spec_error_kind(*self),
    {
        match self {
            RconError::SessionClosed => ErrorKind::SessionClosed,
            RconError::AuthInvalidated => ErrorKind::DeauthInvalidated,
            RconError::NotAuthenticated => ErrorKind::ValidationFailure,
            RconError::EmptyCommand => ErrorKind::ValidationFailure,
            RconError::NewlineInCommand => ErrorKind::ValidationFailure,
            RconError::NewlineInPassword => ErrorKind::ValidationFailure,
            RconError::NulInCommand => ErrorKind::ValidationFailure,
            RconError::NulInPassword => ErrorKind::ValidationFailure,
            RconError::NulInPayload => ErrorKind::ValidationFailure,
            RconError::PayloadTooLong => ErrorKind::ValidationFailure,
            _ => ErrorKind::ProtocolViolation,
        }
    }
}

} // verus!
