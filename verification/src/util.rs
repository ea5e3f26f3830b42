//! Normalisation of user input before it is sent to the server: trimming of
//! line endings, detection of the built-in exit verbs, and joining of
//! command words.

use vstd::prelude::*;
use vstd::string::*;
use crate::text::{
    check_blank, is_blank, is_crlf_char, is_space_char, lemma_trim_crlf_blank,
    lemma_trim_crlf_idempotent, lemma_trim_spaces_subrange, lower_seq, str_eq_ignore_ascii_case,
    trim_crlf, trim_crlf_str, trim_spaces, trim_spaces_str,
};

verus! {

/// Sanitise raw user input before it is sent to the server.
///
/// Trims leading and trailing carriage-return and line-feed characters, then
/// checks whether the remaining content is non-blank. An empty or
/// whitespace-only input yields `None`, signalling that no command should be
/// dispatched.
pub fn sanitize(raw: &str) -> (r: Option<String>)
    ensures
        is_blank(trim_crlf(raw@)) ==> r is None,
        !is_blank(trim_crlf(raw@)) ==> (r matches Some(s) && s@ == trim_crlf(raw@)),
{
    let trimmed = trim_crlf_str(raw);
    if check_blank(trimmed.as_str()) {
        None
    } else {
        Some(trimmed)
    }
}

/// Sanitizing is idempotent: a sanitized command has no leading or trailing
/// CR/LF left, so sanitizing it again returns it unchanged; and trimming
/// CR/LF never turns a non-blank text blank or a blank text non-blank.
pub proof fn lemma_sanitize_idempotent(s: Seq<char>)
    ensures
        trim_crlf(trim_crlf(s)) == trim_crlf(s),
        is_blank(trim_crlf(s)) == is_blank(s),
{
    lemma_trim_crlf_idempotent(s);
    lemma_trim_crlf_blank(s);
}

/// Every whitespace-only text trims down to the empty text.
proof fn lemma_blank_trim_spaces_empty(s: Seq<char>)
    requires
        is_blank(s),
    ensures
        trim_spaces(s) == Seq::<char>::empty(),
{
    lemma_trim_spaces_subrange(s, s.len() as int, s.len() as int);
    assert(s.subrange(s.len() as int, s.len() as int) =~= Seq::<char>::empty());
}

/// Removing a trailing whitespace character does not change the
/// whitespace-trimmed text.
proof fn lemma_trim_spaces_drop_last(s: Seq<char>)
    requires
        s.len() > 0,
        is_space_char(s[s.len() - 1]),
    ensures
        trim_spaces(s) == trim_spaces(s.drop_last()),
    decreases s.len(),
{
    if is_space_char(s[0]) {
        if s.len() == 1 {
            assert(s.drop_first() =~= Seq::<char>::empty());
            assert(s.drop_last() =~= Seq::<char>::empty());
        } else {
            assert(s.drop_first()[s.drop_first().len() - 1] == s[s.len() - 1]);
            lemma_trim_spaces_drop_last(s.drop_first());
            assert(s.drop_first().drop_last() =~= s.drop_last().drop_first());
            assert(s.drop_last()[0] == s[0]);
            assert(trim_spaces(s) == trim_spaces(s.drop_first()));
            assert(trim_spaces(s.drop_last()) == trim_spaces(s.drop_last().drop_first()));
        }
    }
}

/// CR/LF characters are whitespace, so trimming CR/LF first does not change
/// the whitespace-trimmed text.
proof fn lemma_trim_spaces_of_trim_crlf(s: Seq<char>)
    ensures
        trim_spaces(trim_crlf(s)) == trim_spaces(s),
    decreases s.len(),
{
    if s.len() > 0 && is_crlf_char(s[0]) {
        lemma_trim_spaces_of_trim_crlf(s.drop_first());
    } else if s.len() > 0 && is_crlf_char(s[s.len() - 1]) {
        lemma_trim_spaces_of_trim_crlf(s.drop_last());
        lemma_trim_spaces_drop_last(s);
    }
}

/// Whether the input, ignoring surrounding whitespace and ASCII case, is one
/// of the built-in exit verbs.
pub open spec fn spec_is_exit_command(raw: Seq<char>) -> bool {
    lower_seq(trim_spaces(raw)) == "quit"@ || lower_seq(trim_spaces(raw)) == "exit"@
}

/// Determine whether the supplied command corresponds to a graceful exit.
///
/// This helper recognises the built-in `quit` and `exit` verbs, ignoring
/// ASCII case and leading/trailing whitespace.
pub fn is_exit_command(raw: &str) -> (r: bool)
    ensures
        r == spec_is_exit_command(raw@),
{
    proof {
        reveal_strlit("quit");
        reveal_strlit("exit");
        assert(lower_seq("quit"@) =~= "quit"@);
        assert(lower_seq("exit"@) =~= "exit"@);
        lemma_trim_spaces_of_trim_crlf(raw@);
    }
    match sanitize(raw) {
        None => {
            proof {
                lemma_trim_crlf_blank(raw@);
                lemma_blank_trim_spaces_empty(raw@);
                assert(lower_seq(Seq::<char>::empty()) =~= Seq::<char>::empty());
                assert("quit"@.len() == 4);
            }
            false
        },
        Some(cmd) => {
            let t = trim_spaces_str(cmd.as_str());
            str_eq_ignore_ascii_case(t.as_str(), "quit") || str_eq_ignore_ascii_case(
                t.as_str(),
                "exit",
            )
        },
    }
}

/// The words joined with a single space between consecutive words.
pub open spec fn spec_join_words(ws: Seq<Seq<char>>) -> Seq<char>
    decreases ws.len(),
{
    if ws.len() == 0 {
        Seq::empty()
    } else if ws.len() == 1 {
        ws[0]
    } else {
        spec_join_words(ws.drop_last()) + seq![' '] + ws.last()
    }
}

/// Joins command words with single spaces, as a shell-style argument list is
/// reassembled into one command line.
pub fn join_words(words: &Vec<String>) -> (r: String)
    ensures
        r@ == spec_join_words(words.deep_view()),
{
    let mut out = String::new();
    let mut i: usize = 0;
    while i < words.len()
        invariant
            i <= words@.len(),
            out@ == spec_join_words(words.deep_view().take(i as int)),
        decreases words@.len() - i,
    {
        if i > 0 {
            out.append(" ");
            proof {
                reveal_strlit(" ");
                assert(" "@ =~= seq![' ']);
            }
        }
        out.append(words[i].as_str());
        proof {
            let w = words.deep_view();
            assert(w.take(i + 1).drop_last() =~= w.take(i as int));
            assert(w.take(i + 1).last() == w[i as int]);
            assert(w[i as int] == words@[i as int]@);
        }
        i += 1;
    }
    proof {
        assert(words.deep_view().take(words@.len() as int) =~= words.deep_view());
    }
    out
}

} // verus!
