//! The two supported RCON wire protocols and parsing of a protocol name
//! from user-supplied text.

use vstd::prelude::*;
use vstd::string::*;
use crate::text::{lower_seq, str_eq_ignore_ascii_case, trim_spaces, trim_spaces_str};

verus! {

/// Supported RCON wire protocols.
///
/// `Protocol::Source` is the default and represents the Valve/Source RCON
/// dialect. `Protocol::Hyrcon` corresponds to the legacy HYRCON bridge
/// protocol used by older servers.
#[derive(Debug, Clone, Copy, PartialEq, Eq, Hash, Structural)]
pub enum Protocol {
    /// Valve/Source RCON protocol.
    Source,
    /// Legacy HYRCON bridge protocol.
    Hyrcon,
}

impl Protocol {
    /// Returns the canonical lowercase string representation of the protocol.
    pub fn as_str(self) -> (r: &'static str)
        ensures
            self == Protocol::Source ==> r@ == "source"@,
            self == Protocol::Hyrcon ==> r@ == "hyrcon"@,
    {
        match self {
            Protocol::Source => "source",
            Protocol::Hyrcon => "hyrcon",
        }
    }

    /// Returns the default TCP port typically used by the protocol.
    pub fn default_port(self) -> (r: u16)
        ensures
            self == Protocol::Source ==> r == 25575,
            self == Protocol::Hyrcon ==> r == 5522,
    {
        match self {
            Protocol::Source => 25575,
            Protocol::Hyrcon => 5522,
        }
    }

    /// Parses a protocol name, accepting the aliases `src` and `legacy` and
    /// ignoring surrounding whitespace and ASCII case.
    pub fn parse(s: &str) -> (r: Result<Protocol, ParseProtocolError>)
        ensures
            match r {
                Ok(p) => spec_parse_protocol(s@) == Some(p),
                Err(e) => spec_parse_protocol(s@) is None && e.spec_input() == s@,
            },
    {
        proof {
            reveal_strlit("source");
            reveal_strlit("src");
            reveal_strlit("hyrcon");
            reveal_strlit("legacy");
            assert(lower_seq("source"@) =~= "source"@);
            assert(lower_seq("src"@) =~= "src"@);
            assert(lower_seq("hyrcon"@) =~= "hyrcon"@);
            assert(lower_seq("legacy"@) =~= "legacy"@);
        }
        let t = trim_spaces_str(s);
        if str_eq_ignore_ascii_case(t.as_str(), "source") || str_eq_ignore_ascii_case(
            t.as_str(),
            "src",
        ) {
            Ok(Protocol::Source)
        } else if str_eq_ignore_ascii_case(t.as_str(), "hyrcon") || str_eq_ignore_ascii_case(
            t.as_str(),
            "legacy",
        ) {
            Ok(Protocol::Hyrcon)
        } else {
            Err(ParseProtocolError::new(String::from_str(s)))
        }
    }
}

/// The protocol a normalized name selects, if any: surrounding whitespace is
/// ignored and the comparison is ASCII case-insensitive.
pub open spec fn spec_parse_protocol(s: Seq<char>) -> Option<Protocol> {
    let t = lower_seq(trim_spaces(s));
    if t == "source"@ || t == "src"@ {
        Some(Protocol::Source)
    } else if t == "hyrcon"@ || t == "legacy"@ {
        Some(Protocol::Hyrcon)
    } else {
        None
    }
}

impl Default for Protocol {
    /// The Source dialect is assumed when no protocol is named.
    fn default() -> (r: Self)
        ensures
            r == Protocol::Source,
    {
        Protocol::Source
    }
}

impl core::str::FromStr for Protocol {
    type Err = ParseProtocolError;

    fn from_str(s: &str) -> Result<Protocol, ParseProtocolError> {
        Protocol::parse(s)
    }
}

/// Error returned when parsing a [`Protocol`] from text fails.
#[derive(Debug, Clone, PartialEq, Eq)]
pub struct ParseProtocolError {
    input: String,
}

impl ParseProtocolError {
    /// The text that failed to parse.
    pub closed spec fn spec_input(&self) -> Seq<char> {
        self.input@
    }

    /// Creates a new parse error capturing the offending input.
    pub fn new(input: String) -> (r: Self)
        ensures
            r.spec_input() == input@,
    {
        ParseProtocolError { input }
    }

    /// Returns the original input that failed to parse.
    pub fn input(&self) -> (r: &str)
        ensures
            r@ == self.spec_input(),
    {
        self.input.as_str()
    }

    /// A human-readable description of the failure.
    pub fn message(&self) -> (r: String)
        ensures
            r@ == "unsupported protocol `"@ + self.spec_input() + "`"@,
    {
        let mut m = String::from_str("unsupported protocol `");
        m.append(self.input.as_str());
        m.append("`");
        m
    }
}

} // verus!
