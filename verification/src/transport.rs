//! The shared transport vocabulary — greetings, authentication and command
//! outcomes — and the parsing of the line-oriented HYRCON response format.

use vstd::prelude::*;
use vstd::string::*;
use crate::error::RconError;
use crate::protocol::Protocol;
use crate::text::{check_blank, contains_crlf, has_crlf, is_blank, str_eq, str_starts_with};

verus! {

/// Parsed greeting information returned (or synthesized) for the connected
/// server.
#[derive(Debug, Clone)]
pub struct Greeting {
    banner: String,
    auth_mode: AuthMode,
    protocol: Protocol,
}

/// Indicates whether authentication is mandatory or optional.
#[derive(Debug, Clone, Copy, PartialEq, Eq, Structural)]
pub enum AuthMode {
    Required,
    Optional,
}

/// Result of issuing an AUTH command.
#[derive(Debug, Clone, Copy, PartialEq, Eq, Structural)]
pub enum AuthOutcome {
    Success,
    Failure,
}

/// Aggregated payload returned by the RCON server.
#[derive(Debug, Clone)]
pub struct RconResponse {
    pub status: ResponseStatus,
    pub payload: Vec<String>,
    pub error: Option<String>,
}

/// High-level status of a command response.
#[derive(Debug, Clone, Copy, PartialEq, Eq, Structural)]
pub enum ResponseStatus {
    Success,
    Error,
}

/// Possible outcomes when sending a protocol command.
#[derive(Debug)]
pub enum CommandOutcome {
    Response(RconResponse),
    Bye,
}

/// What parsing a HYRCON greeting block must return: the block needs at
/// least two lines, the banner line must read `HYRCON READY`, and the second
/// line selects the authentication mode.
pub open spec fn greeting_parse_post(l: Seq<Seq<char>>, r: Result<Greeting, RconError>) -> bool {
    if l.len() < 2 {
        r == Err::<Greeting, RconError>(RconError::GreetingMissingAuthMode)
    } else if l[0] != "HYRCON READY"@ {
        (r matches Err(e) && (e matches RconError::UnexpectedBanner(b) && b@ == l[0]))
    } else if l[1] == "AUTH REQUIRED"@ || l[1] == "AUTH OPTIONAL"@ {
        (r matches Ok(g) && g.spec_banner() == l[0] && g.spec_protocol() == Protocol::Hyrcon
            && g.spec_auth_mode() == (if l[1] == "AUTH REQUIRED"@ {
            AuthMode::Required
        } else {
            AuthMode::Optional
        }))
    } else {
        (r matches Err(e) && (e matches RconError::UnknownAuthMode(m) && m@ == l[1]))
    }
}

impl Greeting {
    /// The banner text the greeting carries.
    pub closed spec fn spec_banner(&self) -> Seq<char> {
        self.banner@
    }

    /// The authentication mode the greeting advertises.
    pub closed spec fn spec_auth_mode(&self) -> AuthMode {
        self.auth_mode
    }

    /// The protocol the greeting belongs to.
    pub closed spec fn spec_protocol(&self) -> Protocol {
        self.protocol
    }

    fn new(protocol: Protocol, banner: String, auth_mode: AuthMode) -> (r: Self)
        ensures
            r.spec_banner() == banner@,
            r.spec_auth_mode() == auth_mode,
            r.spec_protocol() == protocol,
    {
        Greeting { banner, auth_mode, protocol }
    }

    /// Parses the greeting block a HYRCON server sends on connect.
    pub fn hyrcon_from_lines(lines: Vec<String>) -> (r: Result<Self, RconError>)
        ensures
            greeting_parse_post(lines.deep_view(), r),
    {
        let ghost l = lines.deep_view();
        if lines.len() < 2 {
            return Err(RconError::GreetingMissingAuthMode);
        }
        let banner = &lines[0];
        proof {
            assert(banner@ == l[0]);
            assert(lines@[1]@ == l[1]);
        }
        if !str_eq(banner.as_str(), "HYRCON READY") {
            return Err(RconError::UnexpectedBanner(banner.clone()));
        }
        let mode_line = &lines[1];
        let auth_mode = if str_eq(mode_line.as_str(), "AUTH REQUIRED") {
            AuthMode::Required
        } else if str_eq(mode_line.as_str(), "AUTH OPTIONAL") {
            AuthMode::Optional
        } else {
            return Err(RconError::UnknownAuthMode(mode_line.clone()));
        };
        Ok(Self::new(Protocol::Hyrcon, banner.clone(), auth_mode))
    }

    /// Parses a greeting block; only the HYRCON protocol sends one.
    pub fn from_lines(lines: Vec<String>) -> (r: Result<Self, RconError>)
        ensures
            greeting_parse_post(lines.deep_view(), r),
    {
        Self::hyrcon_from_lines(lines)
    }

    /// The greeting synthesized for a Source connection, whose wire protocol
    /// carries none: a fixed banner, with authentication always required.
    pub fn source_default() -> (r: Self)
        ensures
            r.spec_banner() == "SOURCE RCON READY"@,
            r.spec_auth_mode() == AuthMode::Required,
            r.spec_protocol() == Protocol::Source,
    {
        Self::new(Protocol::Source, String::from_str("SOURCE RCON READY"), AuthMode::Required)
    }

    /// Whether the server demands authentication before commands.
    pub fn requires_auth(&self) -> (r: bool)
        ensures
            r == (self.spec_auth_mode() == AuthMode::Required),
    {
        match self.auth_mode {
            AuthMode::Required => true,
            AuthMode::Optional => false,
        }
    }

    /// The banner text.
    pub fn banner(&self) -> (r: &str)
        ensures
            r@ == self.spec_banner(),
    {
        self.banner.as_str()
    }

    /// The advertised authentication mode.
    pub fn auth_mode(&self) -> (r: AuthMode)
        ensures
            r == self.spec_auth_mode(),
    {
        self.auth_mode
    }

    /// The protocol this greeting belongs to.
    pub fn protocol(&self) -> (r: Protocol)
        ensures
            r == self.spec_protocol(),
    {
        self.protocol
    }
}

/// Whether the last line of a block carries an error message, i.e. starts
/// with the prefix `ERROR `.
pub open spec fn has_error_line(lines: Seq<Seq<char>>) -> bool {
    lines.len() > 0 && lines.last().len() >= 6 && lines.last().take(6) == "ERROR "@
}

/// The text after the `ERROR ` prefix of the last line.
pub open spec fn spec_error_message(lines: Seq<Seq<char>>) -> Seq<char>
    recommends
        has_error_line(lines),
{
    lines.last().skip(6)
}

/// Splits a trailing `ERROR <message>` line off a response block: if the
/// last line starts with `ERROR `, it is removed and the text after the
/// prefix is returned as the error message; otherwise all lines are payload.
pub fn extract_error(lines: Vec<String>) -> (r: (Vec<String>, Option<String>))
    ensures
        ({
            let l = lines.deep_view();
            if has_error_line(l) {
                r.0.deep_view() == l.drop_last() && (r.1 matches Some(m) && m@
                    == spec_error_message(l))
            } else {
                r.0.deep_view() == l && r.1 is None
            }
        }),
{
    let ghost l = lines.deep_view();
    let n = lines.len();
    proof {
        reveal_strlit("ERROR ");
    }
    if n > 0 {
        let last = &lines[n - 1];
        proof {
            assert(last@ == l.last());
        }
        if str_starts_with(last.as_str(), "ERROR ") {
            let last_len = last.unicode_len();
            let message = String::from_str(last.as_str().substring_char(6, last_len));
            proof {
                assert(last@.subrange(6, last@.len() as int) =~= l.last().skip(6));
            }
            let mut payload = lines;
            let _ = payload.pop();
            proof {
                assert(payload.deep_view() =~= l.drop_last());
            }
            return (payload, Some(message));
        }
    }
    (lines, None)
}

/// What parsing the payload part of an `OK`/`ERR` response must produce.
pub open spec fn response_lines_post(rest: Seq<Seq<char>>, resp: RconResponse) -> bool {
    if has_error_line(rest) {
        resp.payload.deep_view() == rest.drop_last() && (resp.error matches Some(m) && m@
            == spec_error_message(rest))
    } else {
        resp.payload.deep_view() == rest && resp.error is None
    }
}

/// What parsing a HYRCON command-response block must return: the first line
/// selects the status (`OK`, `ERR`, or `BYE` for a server-initiated close),
/// the remaining lines form the payload, with a trailing `ERROR ` line split
/// off as the error message.
pub open spec fn command_block_post(b: Seq<Seq<char>>, r: Result<CommandOutcome, RconError>) -> bool {
    if b.len() == 0 {
        r == Err::<CommandOutcome, RconError>(RconError::EmptyBlock)
    } else if b[0] == "OK"@ || b[0] == "ERR"@ {
        (r matches Ok(CommandOutcome::Response(resp)) && resp.status == (if b[0] == "OK"@ {
            ResponseStatus::Success
        } else {
            ResponseStatus::Error
        }) && response_lines_post(b.drop_first(), resp))
    } else if b[0] == "BYE"@ {
        r == Ok::<CommandOutcome, RconError>(CommandOutcome::Bye)
    } else {
        (r matches Err(e) && (e matches RconError::UnexpectedStatus(s) && s@ == b[0]))
    }
}

/// Parses one HYRCON command-response block into an outcome.
pub fn parse_command_block(block: Vec<String>) -> (r: Result<CommandOutcome, RconError>)
    ensures
        command_block_post(block.deep_view(), r),
{
    let ghost b = block.deep_view();
    if block.len() == 0 {
        return Err(RconError::EmptyBlock);
    }
    let mut rest = block;
    let status_line = rest.remove(0);
    proof {
        assert(status_line@ == b[0]);
        assert(rest.deep_view() =~= b.drop_first());
    }
    if str_eq(status_line.as_str(), "OK") {
        let (payload, error) = extract_error(rest);
        Ok(CommandOutcome::Response(RconResponse { status: ResponseStatus::Success, payload, error }))
    } else if str_eq(status_line.as_str(), "ERR") {
        let (payload, error) = extract_error(rest);
        Ok(CommandOutcome::Response(RconResponse { status: ResponseStatus::Error, payload, error }))
    } else if str_eq(status_line.as_str(), "BYE") {
        Ok(CommandOutcome::Bye)
    } else {
        Err(RconError::UnexpectedStatus(status_line))
    }
}

/// A raw line with its line ending removed: one trailing line feed, and one
/// carriage return immediately before it.
pub open spec fn spec_strip_line_ending(s: Seq<char>) -> Seq<char> {
    if s.len() > 0 && s.last() == '\n' {
        let t = s.drop_last();
        if t.len() > 0 && t.last() == '\r' {
            t.drop_last()
        } else {
            t
        }
    } else {
        s
    }
}

/// Normalises a raw line read from the socket: removes one trailing line
/// feed, and one carriage return immediately before it.
pub fn strip_line_ending(line: &str) -> (r: String)
    ensures
        r@ == spec_strip_line_ending(line@),
{
    let n = line.unicode_len();
    if n > 0 && line.get_char(n - 1) == '\n' {
        if n > 1 && line.get_char(n - 2) == '\r' {
            proof {
                assert(line@.subrange(0, n - 2) =~= line@.drop_last().drop_last());
            }
            String::from_str(line.substring_char(0, n - 2))
        } else {
            proof {
                assert(line@.subrange(0, n - 1) =~= line@.drop_last());
            }
            String::from_str(line.substring_char(0, n - 1))
        }
    } else {
        String::from_str(line)
    }
}

/// The text with every trailing carriage return removed.
pub open spec fn strip_cr(s: Seq<char>) -> Seq<char>
    decreases s.len(),
{
    if s.len() > 0 && s.last() == '\r' {
        strip_cr(s.drop_last())
    } else {
        s
    }
}

/// Removing trailing carriage returns keeps exactly the prefix up to the
/// last character that is not one.
proof fn lemma_strip_cr_take(s: Seq<char>, e: int)
    requires
        0 <= e <= s.len(),
        forall|j: int| e <= j < s.len() ==> s[j] == '\r',
        e > 0 ==> s[e - 1] != '\r',
    ensures
        strip_cr(s) == s.take(e),
    decreases s.len(),
{
    if s.len() > e {
        lemma_strip_cr_take(s.drop_last(), e);
        assert(s.drop_last().take(e) =~= s.take(e));
    } else {
        assert(s.take(e) =~= s);
    }
}

/// Removes every trailing carriage return from a line.
pub fn strip_cr_str(s: &str) -> (r: String)
    ensures
        r@ == strip_cr(s@),
{
    let n = s.unicode_len();
    let mut e: usize = n;
    while e > 0
        invariant
            e <= n,
            n == s@.len(),
            forall|j: int| e <= j < n ==> s@[j] == '\r',
        decreases e,
    {
        if s.get_char(e - 1) != '\r' {
            proof {
                lemma_strip_cr_take(s@, e as int);
                assert(s@.subrange(0, e as int) =~= s@.take(e as int));
            }
            return String::from_str(s.substring_char(0, e));
        }
        e -= 1;
    }
    proof {
        lemma_strip_cr_take(s@, 0);
        assert(s@.subrange(0, 0) =~= s@.take(0));
    }
    String::from_str(s.substring_char(0, 0))
}

/// Whether a received line is the block terminator: a line holding exactly
/// one full stop ends a HYRCON block.
pub fn is_block_terminator(line: &str) -> (r: bool)
    ensures
        r == (line@ == "."@),
{
    str_eq(line, ".")
}

/// The segments a text falls into at line feeds: always one segment more
/// than there are line feeds, in order, each without its delimiter.
pub open spec fn split_nl(s: Seq<char>) -> Seq<Seq<char>>
    decreases s.len(),
{
    if s.len() == 0 {
        seq![Seq::<char>::empty()]
    } else if s[0] == '\n' {
        seq![Seq::<char>::empty()] + split_nl(s.drop_first())
    } else {
        let rest = split_nl(s.drop_first());
        seq![seq![s[0]] + rest[0]] + rest.drop_first()
    }
}

/// A split always yields at least one segment.
proof fn lemma_split_nl_nonempty(s: Seq<char>)
    ensures
        split_nl(s).len() >= 1,
    decreases s.len(),
{
    if s.len() > 0 {
        lemma_split_nl_nonempty(s.drop_first());
    }
}

/// How appending one character changes the split: a line feed opens a new
/// empty segment, any other character extends the last one.
proof fn lemma_split_nl_push(p: Seq<char>, c: char)
    ensures
        c == '\n' ==> split_nl(p.push(c)) == split_nl(p).push(Seq::<char>::empty()),
        c != '\n' ==> split_nl(p.push(c)) == split_nl(p).drop_last().push(
            split_nl(p).last().push(c),
        ),
    decreases p.len(),
{
    lemma_split_nl_nonempty(p);
    if p.len() == 0 {
        assert(p.push(c) =~= seq![c]);
        assert(p.push(c).drop_first() =~= Seq::<char>::empty());
        if c == '\n' {
            assert(split_nl(p.push(c)) =~~= split_nl(p).push(Seq::<char>::empty()));
        } else {
            assert(seq![c] + Seq::<char>::empty() =~= seq![c]);
            assert(split_nl(p).last().push(c) =~= seq![c]);
            assert(split_nl(p.push(c)) =~~= split_nl(p).drop_last().push(
                split_nl(p).last().push(c),
            ));
        }
    } else {
        let p1 = p.drop_first();
        assert(p.push(c)[0] == p[0]);
        assert(p.push(c).drop_first() =~= p1.push(c));
        lemma_split_nl_push(p1, c);
        lemma_split_nl_nonempty(p1);
        lemma_split_nl_nonempty(p1.push(c));
        if p[0] == '\n' {
            if c == '\n' {
                assert(seq![Seq::<char>::empty()] + split_nl(p1).push(Seq::<char>::empty())
                    =~~= (seq![Seq::<char>::empty()] + split_nl(p1)).push(Seq::<char>::empty()));
            } else {
                assert(seq![Seq::<char>::empty()] + split_nl(p1).drop_last().push(
                    split_nl(p1).last().push(c),
                ) =~~= (seq![Seq::<char>::empty()] + split_nl(p1)).drop_last().push(
                    (seq![Seq::<char>::empty()] + split_nl(p1)).last().push(c),
                ));
            }
        } else {
            let rest = split_nl(p1);
            let restc = split_nl(p1.push(c));
            if c == '\n' {
                assert(restc == rest.push(Seq::<char>::empty()));
                assert(restc[0] == rest[0]);
                assert(restc.drop_first() =~~= rest.drop_first().push(Seq::<char>::empty()));
                assert(seq![seq![p[0]] + restc[0]] + restc.drop_first() =~~= (seq![
                    seq![p[0]] + rest[0],
                ] + rest.drop_first()).push(Seq::<char>::empty()));
            } else {
                assert(restc == rest.drop_last().push(rest.last().push(c)));
                if rest.len() == 1 {
                    assert(restc =~~= seq![rest[0].push(c)]);
                    assert(seq![p[0]] + rest[0].push(c) =~= (seq![p[0]] + rest[0]).push(c));
                    assert(split_nl(p) =~~= seq![seq![p[0]] + rest[0]]);
                    assert(seq![seq![p[0]] + restc[0]] + restc.drop_first()
                        =~~= split_nl(p).drop_last().push(split_nl(p).last().push(c)));
                } else {
                    assert(restc[0] == rest[0]);
                    assert(restc.drop_first() =~~= rest.drop_first().drop_last().push(
                        rest.last().push(c),
                    ));
                    assert(split_nl(p).drop_last() =~~= seq![seq![p[0]] + rest[0]]
                        + rest.drop_first().drop_last());
                    assert(split_nl(p).last() == rest.last());
                    assert(seq![seq![p[0]] + restc[0]] + restc.drop_first()
                        =~~= split_nl(p).drop_last().push(split_nl(p).last().push(c)));
                }
            }
        }
    }
}

/// The segments with each segment's trailing carriage returns removed.
pub open spec fn strip_cr_all(segs: Seq<Seq<char>>) -> Seq<Seq<char>> {
    Seq::new(segs.len(), |i: int| strip_cr(segs[i]))
}

/// How a packet payload is split into display lines: the text is cut at line
/// feeds, a final empty segment (from a trailing line feed, or an empty
/// payload) is dropped, and every line loses its trailing carriage returns.
pub open spec fn spec_split_lines(s: Seq<char>) -> Seq<Seq<char>> {
    let segs = split_nl(s);
    if segs.last().len() == 0 {
        strip_cr_all(segs.drop_last())
    } else {
        strip_cr_all(segs)
    }
}

/// Splits a packet payload into lines, cutting at line feeds and trimming
/// the trailing carriage return of each line; a trailing line feed does not
/// open an extra empty line.
pub fn split_lines(payload: &str) -> (r: Vec<String>)
    ensures
        r.deep_view() == spec_split_lines(payload@),
{
    let n = payload.unicode_len();
    let mut out: Vec<String> = Vec::new();
    let mut start: usize = 0;
    let mut i: usize = 0;
    proof {
        assert(payload@.take(0) =~= Seq::<char>::empty());
        assert(payload@.subrange(0, 0) =~= Seq::<char>::empty());
        assert(out.deep_view() =~~= strip_cr_all(split_nl(payload@.take(0)).drop_last()));
    }
    while i < n
        invariant
            start <= i <= n,
            n == payload@.len(),
            split_nl(payload@.take(i as int)).len() >= 1,
            out.deep_view() == strip_cr_all(split_nl(payload@.take(i as int)).drop_last()),
            split_nl(payload@.take(i as int)).last() == payload@.subrange(start as int, i as int),
        decreases n - i,
    {
        let c = payload.get_char(i);
        proof {
            assert(payload@.take(i as int).push(payload@[i as int]) =~= payload@.take(i + 1));
            lemma_split_nl_push(payload@.take(i as int), payload@[i as int]);
            lemma_split_nl_nonempty(payload@.take(i + 1));
        }
        if c == '\n' {
            let seg = payload.substring_char(start, i);
            let stripped = strip_cr_str(seg);
            let ghost pre = out.deep_view();
            out.push(stripped);
            proof {
                let segs0 = split_nl(payload@.take(i as int));
                let segs1 = split_nl(payload@.take(i + 1));
                assert(segs1.drop_last() =~~= segs0);
                assert(seg@ == segs0.last());
                assert(out.deep_view() =~~= pre.push(stripped@));
                assert(pre.push(stripped@) =~~= strip_cr_all(segs1.drop_last()));
                assert(segs1.last() =~= payload@.subrange(i + 1, i + 1));
            }
            start = i + 1;
        } else {
            proof {
                let segs0 = split_nl(payload@.take(i as int));
                let segs1 = split_nl(payload@.take(i + 1));
                assert(segs1.drop_last() =~~= segs0.drop_last());
                assert(segs1.last() == segs0.last().push(payload@[i as int]));
                assert(payload@.subrange(start as int, i as int).push(payload@[i as int])
                    =~= payload@.subrange(start as int, i + 1));
                assert(out.deep_view() =~~= strip_cr_all(segs1.drop_last()));
            }
        }
        i += 1;
    }
    proof {
        assert(payload@.take(n as int) =~= payload@);
    }
    if start < n {
        let seg = payload.substring_char(start, n);
        let stripped = strip_cr_str(seg);
        let ghost pre = out.deep_view();
        out.push(stripped);
        proof {
            let segs = split_nl(payload@);
            assert(segs.last().len() > 0);
            assert(seg@ == segs.last());
            assert(out.deep_view() =~~= pre.push(stripped@));
            assert(pre.push(stripped@) =~~= strip_cr_all(segs));
        }
    } else {
        proof {
            let segs = split_nl(payload@);
            assert(segs.last().len() == 0);
        }
    }
    out
}

/// The line-protocol session state machine. It validates what is about to be
/// written and interprets what was read; the socket itself lives with the
/// caller, who feeds response blocks in.
#[derive(Debug)]
pub struct HyrconSession {
    closed: bool,
}

impl HyrconSession {
    /// Whether the logical session was closed.
    pub closed spec fn spec_closed(&self) -> bool {
        self.closed
    }

    /// A fresh session, as a successful connect leaves it.
    pub fn new() -> (r: Self)
        ensures
            !r.spec_closed(),
    {
        HyrconSession { closed: false }
    }

    /// Whether the logical session was closed.
    pub fn is_closed(&self) -> (r: bool)
        ensures
            r == self.spec_closed(),
    {
        self.closed
    }

    /// Validates a password and builds the `AUTH <password>` request line.
    /// A closed session and a password carrying a line break are both
    /// rejected before any byte could be written.
    pub fn begin_auth(&self, password: &str) -> (r: Result<String, RconError>)
        ensures
            self.spec_closed() ==> r == Err::<String, RconError>(RconError::SessionClosed),
            !self.spec_closed() && has_crlf(password@) ==> r == Err::<String, RconError>(
                RconError::NewlineInPassword,
            ),
            !self.spec_closed() && !has_crlf(password@) ==> (r matches Ok(line) && line@ == "AUTH "@
                + password@),
    {
        if self.closed {
            return Err(RconError::SessionClosed);
        }
        if contains_crlf(password) {
            return Err(RconError::NewlineInPassword);
        }
        let mut line = String::from_str("AUTH ");
        line.append(password);
        Ok(line)
    }

    /// Interprets the block the server answers an AUTH request with: the
    /// first line must read `AUTH OK` or `AUTH FAIL`.
    pub fn finish_auth(block: &Vec<String>) -> (r: Result<AuthOutcome, RconError>)
        ensures
            ({
                let b = block.deep_view();
                if b.len() == 0 {
                    r == Err::<AuthOutcome, RconError>(RconError::EmptyAuthBlock)
                } else if b[0] == "AUTH OK"@ {
                    r == Ok::<AuthOutcome, RconError>(AuthOutcome::Success)
                } else if b[0] == "AUTH FAIL"@ {
                    r == Ok::<AuthOutcome, RconError>(AuthOutcome::Failure)
                } else {
                    (r matches Err(e) && (e matches RconError::UnexpectedAuthReply(s) && s@
                        == b[0]))
                }
            }),
    {
        if block.len() == 0 {
            return Err(RconError::EmptyAuthBlock);
        }
        let first = &block[0];
        proof {
            assert(first@ == block.deep_view()[0]);
        }
        if str_eq(first.as_str(), "AUTH OK") {
            Ok(AuthOutcome::Success)
        } else if str_eq(first.as_str(), "AUTH FAIL") {
            Ok(AuthOutcome::Failure)
        } else {
            Err(RconError::UnexpectedAuthReply(first.clone()))
        }
    }

    /// Validates a command before it is written: a closed session, a blank
    /// command and an embedded line break are all rejected, and in those
    /// cases no byte may be written.
    pub fn begin_command(&self, command: &str) -> (r: Result<(), RconError>)
        ensures
            self.spec_closed() ==> r == Err::<(), RconError>(RconError::SessionClosed),
            !self.spec_closed() && is_blank(command@) ==> r == Err::<(), RconError>(
                RconError::EmptyCommand,
            ),
            !self.spec_closed() && !is_blank(command@) && has_crlf(command@) ==> r == Err::<
                (),
                RconError,
            >(RconError::NewlineInCommand),
            !self.spec_closed() && !is_blank(command@) && !has_crlf(command@) ==> r == Ok::<
                (),
                RconError,
            >(()),
    {
        if self.closed {
            Err(RconError::SessionClosed)
        } else if check_blank(command) {
            Err(RconError::EmptyCommand)
        } else if contains_crlf(command) {
            Err(RconError::NewlineInCommand)
        } else {
            Ok(())
        }
    }

    /// Interprets a command response block, closing the session when the
    /// server said `BYE`.
    pub fn finish_command(&mut self, block: Vec<String>) -> (r: Result<CommandOutcome, RconError>)
        ensures
            command_block_post(block.deep_view(), r),
            final(self).spec_closed() == (old(self).spec_closed() || r == Ok::<
                CommandOutcome,
                RconError,
            >(CommandOutcome::Bye)),
    {
        let outcome = match parse_command_block(block) {
            Ok(o) => o,
            Err(e) => {
                return Err(e);
            },
        };
        let is_bye = match &outcome {
            CommandOutcome::Bye => true,
            CommandOutcome::Response(_) => false,
        };
        if is_bye {
            self.closed = true;
        }
        Ok(outcome)
    }

    /// Decides the result of a QUIT exchange: `BYE` is the expected answer; a
    /// payload response is a protocol violation that still leaves the session
    /// closed.
    pub fn finish_quit(&mut self, outcome: CommandOutcome) -> (r: Result<(), RconError>)
        ensures
            final(self).spec_closed(),
            outcome matches CommandOutcome::Bye ==> r == Ok::<(), RconError>(()),
            outcome matches CommandOutcome::Response(_) ==> r == Err::<(), RconError>(
                RconError::UnexpectedQuitResponse,
            ),
    {
        self.closed = true;
        match outcome {
            CommandOutcome::Bye => Ok(()),
            CommandOutcome::Response(_) => Err(RconError::UnexpectedQuitResponse),
        }
    }
}

} // verus!
