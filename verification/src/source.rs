//! The Source RCON session state machine: request-id allocation, the
//! authentication loop and the sentinel-delimited response collection. It
//! validates what is about to be written and interprets decoded packets; the
//! socket itself lives with the caller, who feeds packets in.

use vstd::prelude::*;
use vstd::string::*;
use crate::codec::{
    encode_packet, spec_frame, MAX_PAYLOAD_BYTES, SERVERDATA_AUTH, SERVERDATA_AUTH_RESPONSE,
    SERVERDATA_EXECCOMMAND, SERVERDATA_RESPONSE_VALUE, SourcePacket,
};
use crate::error::RconError;
use crate::text::{check_blank, contains_crlf, contains_nul, has_crlf, has_nul, is_blank};
use crate::transport::{
    split_lines, spec_split_lines, AuthOutcome, CommandOutcome, RconResponse, ResponseStatus,
};

verus! {

/// How the authentication loop reacts to one received packet.
#[derive(Debug, Clone, Copy, PartialEq, Eq, Structural)]
pub enum AuthStep {
    /// The packet was not the answer; keep reading.
    Continue,
    /// The server decided; the outcome is final.
    Decided(AuthOutcome),
}

/// How the response-collection loop reacts to one received packet.
#[derive(Debug, Clone, Copy, PartialEq, Eq, Structural)]
pub enum CommandStep {
    /// Not the end of the response yet; keep reading.
    Continue,
    /// The sentinel answer arrived; the response is complete.
    Done,
}

/// What beginning a command hands back: the two request ids and the two
/// frames to write, command frame first.
#[derive(Debug)]
pub struct CommandRequest {
    pub command_id: i32,
    pub sentinel_id: i32,
    pub command_frame: Vec<u8>,
    pub sentinel_frame: Vec<u8>,
}

/// The request id that follows another; ids wrap around at the signed
/// 32-bit maximum.
pub open spec fn wrap_succ(x: i32) -> i32 {
    if x == i32::MAX {
        i32::MIN
    } else {
        (x + 1) as i32
    }
}

/// The binary-protocol session state: whether AUTH succeeded, the next
/// request id to hand out, and whether the session was closed.
#[derive(Debug)]
pub struct SourceSession {
    authed: bool,
    next_id: i32,
    closed: bool,
}

impl SourceSession {
    /// Whether the server accepted authentication for this session.
    pub closed spec fn spec_authed(&self) -> bool {
        self.authed
    }

    /// The request id the next allocation will hand out.
    pub closed spec fn spec_next_id(&self) -> i32 {
        self.next_id
    }

    /// Whether the session was closed.
    pub closed spec fn spec_closed(&self) -> bool {
        self.closed
    }

    /// A fresh session, as a successful connect leaves it: unauthenticated,
    /// open, with request ids starting at one.
    pub fn new() -> (r: Self)
        ensures
            !r.spec_authed(),
            r.spec_next_id() == 1,
            !r.spec_closed(),
    {
        SourceSession { authed: false, next_id: 1, closed: false }
    }

    /// Whether the session was closed.
    pub fn is_closed(&self) -> (r: bool)
        ensures
            r == self.spec_closed(),
    {
        self.closed
    }

    /// Whether the server accepted authentication for this session.
    pub fn is_authenticated(&self) -> (r: bool)
        ensures
            r == self.spec_authed(),
    {
        self.authed
    }

    /// Hands out the next request id; ids are unique until the counter wraps
    /// all the way around.
    fn next_request_id(&mut self) -> (id: i32)
        ensures
            id == old(self).spec_next_id(),
            final(self).spec_next_id() == wrap_succ(old(self).spec_next_id()),
            final(self).spec_authed() == old(self).spec_authed(),
            final(self).spec_closed() == old(self).spec_closed(),
    {
        let id = self.next_id;
        if self.next_id == i32::MAX {
            self.next_id = i32::MIN;
        } else {
            self.next_id = self.next_id + 1;
        }
        id
    }

    /// Marks the session closed; the caller does so when the peer hangs up
    /// mid-read or when it shuts the connection down itself.
    pub fn mark_closed(&mut self)
        ensures
            final(self).spec_closed(),
            final(self).spec_authed() == old(self).spec_authed(),
            final(self).spec_next_id() == old(self).spec_next_id(),
    {
        self.closed = true;
    }

    /// Validates the password, allocates the request id and builds the AUTH
    /// frame to write. A closed session and a rejected password leave the
    /// session untouched, and nothing may be written in those cases.
    pub fn begin_auth(&mut self, password: &str) -> (r: Result<(i32, Vec<u8>), RconError>)
        ensures
            final(self).spec_authed() == old(self).spec_authed(),
            final(self).spec_closed() == old(self).spec_closed(),
            old(self).spec_closed() ==> r == Err::<(i32, Vec<u8>), RconError>(
                RconError::SessionClosed,
            ) && *final(self) == *old(self),
            !old(self).spec_closed() && has_crlf(password@) ==> r == Err::<
                (i32, Vec<u8>),
                RconError,
            >(RconError::NewlineInPassword) && *final(self) == *old(self),
            !old(self).spec_closed() && !has_crlf(password@) && has_nul(password@) ==> r == Err::<
                (i32, Vec<u8>),
                RconError,
            >(RconError::NulInPassword) && *final(self) == *old(self),
            !old(self).spec_closed() && !has_crlf(password@) && !has_nul(password@)
                && password.spec_bytes().len() > MAX_PAYLOAD_BYTES ==> r == Err::<
                (i32, Vec<u8>),
                RconError,
            >(RconError::PayloadTooLong) && *final(self) == *old(self),
            !old(self).spec_closed() && !has_crlf(password@) && !has_nul(password@)
                && password.spec_bytes().len() <= MAX_PAYLOAD_BYTES ==> (r matches Ok(t) && t.0
                == old(self).spec_next_id() && t.1@ == spec_frame(
                t.0,
                SERVERDATA_AUTH,
                password.spec_bytes(),
            ) && final(self).spec_next_id() == wrap_succ(old(self).spec_next_id())),
    {
        if self.closed {
            return Err(RconError::SessionClosed);
        }
        if contains_crlf(password) {
            return Err(RconError::NewlineInPassword);
        }
        if contains_nul(password) {
            return Err(RconError::NulInPassword);
        }
        if password.as_bytes().len() > MAX_PAYLOAD_BYTES {
            return Err(RconError::PayloadTooLong);
        }
        let auth_id = self.next_request_id();
        let frame = match encode_packet(auth_id, SERVERDATA_AUTH, password) {
            Ok(f) => f,
            Err(e) => {
                return Err(e);
            },
        };
        Ok((auth_id, frame))
    }

    /// Feeds one received packet to the authentication loop. A stray
    /// response value, an unknown id and an unknown kind are all ignored; an
    /// AUTH_RESPONSE with the request id grants the session, one with id -1
    /// denies it, and only those two decide the loop.
    pub fn auth_step(&mut self, auth_id: i32, packet: &SourcePacket) -> (r: AuthStep)
        ensures
            final(self).spec_next_id() == old(self).spec_next_id(),
            final(self).spec_closed() == old(self).spec_closed(),
            packet.kind == SERVERDATA_AUTH_RESPONSE && packet.id == auth_id ==> r
                == AuthStep::Decided(AuthOutcome::Success) && final(self).spec_authed(),
            packet.kind == SERVERDATA_AUTH_RESPONSE && packet.id != auth_id && packet.id == -1
                ==> r == AuthStep::Decided(AuthOutcome::Failure) && !final(self).spec_authed(),
            packet.kind != SERVERDATA_AUTH_RESPONSE || (packet.id != auth_id && packet.id != -1)
                ==> r == AuthStep::Continue && final(self).spec_authed()
                == old(self).spec_authed(),
    {
        if packet.kind == SERVERDATA_AUTH_RESPONSE {
            if packet.id == auth_id {
                self.authed = true;
                return AuthStep::Decided(AuthOutcome::Success);
            }
            if packet.id == -1 {
                self.authed = false;
                return AuthStep::Decided(AuthOutcome::Failure);
            }
        }
        AuthStep::Continue
    }

    /// Validates a command, allocates the command and sentinel request ids
    /// and builds both frames to write, command frame first. The sentinel is
    /// an empty EXECCOMMAND whose echoed answer marks the end of the
    /// response; its id always differs from the command id, and the two
    /// writes must not be reordered. A rejected command leaves the session
    /// untouched, and nothing may be written in that case.
    pub fn begin_command(&mut self, command: &str) -> (r: Result<CommandRequest, RconError>)
        ensures
            final(self).spec_authed() == old(self).spec_authed(),
            final(self).spec_closed() == old(self).spec_closed(),
            old(self).spec_closed() ==> r == Err::<CommandRequest, RconError>(
                RconError::SessionClosed,
            ) && *final(self) == *old(self),
            !old(self).spec_closed() && !old(self).spec_authed() ==> r == Err::<
                CommandRequest,
                RconError,
            >(RconError::NotAuthenticated) && *final(self) == *old(self),
            !old(self).spec_closed() && old(self).spec_authed() && is_blank(command@) ==> r
                == Err::<CommandRequest, RconError>(RconError::EmptyCommand) && *final(self)
                == *old(self),
            !old(self).spec_closed() && old(self).spec_authed() && !is_blank(command@) && has_crlf(
                command@,
            ) ==> r == Err::<CommandRequest, RconError>(RconError::NewlineInCommand) && *final(self)
                == *old(self),
            !old(self).spec_closed() && old(self).spec_authed() && !is_blank(command@) && !has_crlf(
                command@,
            ) && has_nul(command@) ==> r == Err::<CommandRequest, RconError>(
                RconError::NulInCommand,
            ) && *final(self) == *old(self),
            !old(self).spec_closed() && old(self).spec_authed() && !is_blank(command@) && !has_crlf(
                command@,
            ) && !has_nul(command@) && command.spec_bytes().len() > MAX_PAYLOAD_BYTES ==> r
                == Err::<CommandRequest, RconError>(RconError::PayloadTooLong) && *final(self)
                == *old(self),
            !old(self).spec_closed() && old(self).spec_authed() && !is_blank(command@) && !has_crlf(
                command@,
            ) && !has_nul(command@) && command.spec_bytes().len() <= MAX_PAYLOAD_BYTES ==> (
            r matches Ok(req) && req.command_id == old(self).spec_next_id() && req.sentinel_id
                == wrap_succ(old(self).spec_next_id()) && req.command_id != req.sentinel_id
                && req.command_frame@ == spec_frame(
                req.command_id,
                SERVERDATA_EXECCOMMAND,
                command.spec_bytes(),
            ) && req.sentinel_frame@ == spec_frame(
                req.sentinel_id,
                SERVERDATA_EXECCOMMAND,
                Seq::<u8>::empty(),
            ) && final(self).spec_next_id() == wrap_succ(wrap_succ(old(self).spec_next_id()))),
    {
        if self.closed {
            return Err(RconError::SessionClosed);
        }
        if !self.authed {
            return Err(RconError::NotAuthenticated);
        }
        if check_blank(command) {
            return Err(RconError::EmptyCommand);
        }
        if contains_crlf(command) {
            return Err(RconError::NewlineInCommand);
        }
        if contains_nul(command) {
            return Err(RconError::NulInCommand);
        }
        if command.as_bytes().len() > MAX_PAYLOAD_BYTES {
            return Err(RconError::PayloadTooLong);
        }
        let command_id = self.next_request_id();
        let command_frame = match encode_packet(command_id, SERVERDATA_EXECCOMMAND, command) {
            Ok(f) => f,
            Err(e) => {
                return Err(e);
            },
        };
        let sentinel_id = self.next_request_id();
        proof {
            reveal_strlit("");
            assert(""@ =~= Seq::<char>::empty());
            assert(!has_nul(""@));
            assert(vstd::utf8::encode_utf8(Seq::<char>::empty()) =~= Seq::<u8>::empty());
        }
        let sentinel_frame = match encode_packet(sentinel_id, SERVERDATA_EXECCOMMAND, "") {
            Ok(f) => f,
            Err(e) => {
                return Err(e);
            },
        };
        Ok(CommandRequest { command_id, sentinel_id, command_frame, sentinel_frame })
    }

    /// Feeds one received packet to the response-collection loop, appending
    /// decoded payload lines to `lines` in arrival order. An AUTH_RESPONSE
    /// with id -1 revokes the session's authentication and fails the call; a
    /// sentinel answer must be an empty response value and completes the
    /// response; a response value for the command id contributes its lines;
    /// everything else is ignored.
    pub fn command_step(
        &mut self,
        command_id: i32,
        sentinel_id: i32,
        packet: &SourcePacket,
        lines: &mut Vec<String>,
    ) -> (r: Result<CommandStep, RconError>)
        ensures
            final(self).spec_next_id() == old(self).spec_next_id(),
            final(self).spec_closed() == old(self).spec_closed(),
            ({
                if packet.kind == SERVERDATA_AUTH_RESPONSE && packet.id == -1 {
                    &&& r == Err::<CommandStep, RconError>(RconError::AuthInvalidated)
                    &&& !final(self).spec_authed()
                    &&& final(lines)@ == old(lines)@
                } else if packet.id == sentinel_id {
                    &&& final(self).spec_authed() == old(self).spec_authed()
                    &&& final(lines)@ == old(lines)@
                    &&& (if packet.kind != SERVERDATA_RESPONSE_VALUE {
                        (r matches Err(e) && e == RconError::SentinelKindMismatch(packet.kind))
                    } else if packet.payload@.len() != 0 {
                        r == Err::<CommandStep, RconError>(RconError::SentinelPayloadNotEmpty)
                    } else {
                        r == Ok::<CommandStep, RconError>(CommandStep::Done)
                    })
                } else if packet.kind == SERVERDATA_RESPONSE_VALUE && packet.id == command_id {
                    &&& r == Ok::<CommandStep, RconError>(CommandStep::Continue)
                    &&& final(self).spec_authed() == old(self).spec_authed()
                    &&& final(lines).deep_view() == old(lines).deep_view() + spec_split_lines(
                        packet.payload@,
                    )
                } else {
                    &&& r == Ok::<CommandStep, RconError>(CommandStep::Continue)
                    &&& final(self).spec_authed() == old(self).spec_authed()
                    &&& final(lines)@ == old(lines)@
                }
            }),
    {
        if packet.kind == SERVERDATA_AUTH_RESPONSE && packet.id == -1 {
            self.authed = false;
            return Err(RconError::AuthInvalidated);
        }
        if packet.id == sentinel_id {
            if packet.kind != SERVERDATA_RESPONSE_VALUE {
                return Err(RconError::SentinelKindMismatch(packet.kind));
            }
            if packet.payload.as_str().unicode_len() != 0 {
                return Err(RconError::SentinelPayloadNotEmpty);
            }
            return Ok(CommandStep::Done);
        }
        if packet.kind == SERVERDATA_RESPONSE_VALUE && packet.id == command_id {
            let mut new_lines = split_lines(packet.payload.as_str());
            let ghost pre = lines.deep_view();
            let ghost added = new_lines.deep_view();
            lines.append(&mut new_lines);
            proof {
                assert(lines.deep_view() =~~= pre + added);
            }
            return Ok(CommandStep::Continue);
        }
        Ok(CommandStep::Continue)
    }

    /// Wraps the collected lines in the command outcome once the sentinel
    /// answer arrived: a Source response always has status `Success`, the
    /// lines as payload and no error message — the wire protocol carries no
    /// structured error channel.
    pub fn finish_command(&self, lines: Vec<String>) -> (r: CommandOutcome)
        ensures
            (r matches CommandOutcome::Response(resp) && resp.status == ResponseStatus::Success
                && resp.payload@ == lines@ && resp.error is None),
    {
        CommandOutcome::Response(
            RconResponse { status: ResponseStatus::Success, payload: lines, error: None },
        )
    }
}

} // verus!
