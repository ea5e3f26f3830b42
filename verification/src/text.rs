//! Character classification and string scanning helpers shared by the
//! protocol parsers: newline detection, whitespace trimming, ASCII
//! case-insensitive comparison.

use vstd::prelude::*;
use vstd::string::*;

verus! {

/// A carriage return or line feed.
pub open spec fn is_crlf_char(c: char) -> bool {
    c == '\r' || c == '\n'
}

/// The characters with the Unicode `White_Space` property; this is the set
/// that `str::trim` removes.
pub open spec fn is_space_char(c: char) -> bool {
    let u = c as u32;
    ||| (0x09 <= u && u <= 0x0d)
    ||| u == 0x20
    ||| u == 0x85
    ||| u == 0xa0
    ||| u == 0x1680
    ||| (0x2000 <= u && u <= 0x200a)
    ||| u == 0x2028
    ||| u == 0x2029
    ||| u == 0x202f
    ||| u == 0x205f
    ||| u == 0x3000
}

/// The ASCII-lowercase counterpart of a character.
pub open spec fn lower_char(c: char) -> char {
    let u = c as u32;
    if 0x41 <= u && u <= 0x5a {
        ((u + 0x20) as u8) as char
    } else {
        c
    }
}

/// The sequence with every character ASCII-lowercased.
pub open spec fn lower_seq(s: Seq<char>) -> Seq<char> {
    Seq::new(s.len(), |i: int| lower_char(s[i]))
}

/// Whether the text contains a carriage return or line feed anywhere.
pub open spec fn has_crlf(s: Seq<char>) -> bool {
    exists|i: int| 0 <= i < s.len() && is_crlf_char(s[i])
}

/// Whether the text contains a NUL character anywhere.
pub open spec fn has_nul(s: Seq<char>) -> bool {
    exists|i: int| 0 <= i < s.len() && s[i] == '\0'
}

/// Whether the text consists of whitespace only (an empty text is blank).
pub open spec fn is_blank(s: Seq<char>) -> bool {
    forall|i: int| 0 <= i < s.len() ==> is_space_char(s[i])
}

/// The text with leading and trailing CR/LF characters removed.
pub open spec fn trim_crlf(s: Seq<char>) -> Seq<char>
    decreases s.len(),
{
    if s.len() > 0 && is_crlf_char(s[0]) {
        trim_crlf(s.drop_first())
    } else if s.len() > 0 && is_crlf_char(s[s.len() - 1]) {
        trim_crlf(s.drop_last())
    } else {
        s
    }
}

/// The text with leading and trailing whitespace removed, as `str::trim`
/// leaves it.
pub open spec fn trim_spaces(s: Seq<char>) -> Seq<char>
    decreases s.len(),
{
    if s.len() > 0 && is_space_char(s[0]) {
        trim_spaces(s.drop_first())
    } else if s.len() > 0 && is_space_char(s[s.len() - 1]) {
        trim_spaces(s.drop_last())
    } else {
        s
    }
}

/// CR/LF trimming removes exactly the maximal runs of CR/LF characters at
/// either end: the result is the subrange between the index a scan from each
/// end stops at.
pub proof fn lemma_trim_crlf_subrange(s: Seq<char>, start: int, end: int)
    requires
        0 <= start <= end <= s.len(),
        forall|i: int| 0 <= i < start ==> is_crlf_char(s[i]),
        forall|i: int| end <= i < s.len() ==> is_crlf_char(s[i]),
        start < end ==> !is_crlf_char(s[start]) && !is_crlf_char(s[end - 1]),
        start == end ==> end == s.len(),
    ensures
        trim_crlf(s) == s.subrange(start, end),
    decreases s.len(),
{
    if s.len() == 0 {
        assert(s.subrange(start, end) =~= s);
    } else if start > 0 {
        lemma_trim_crlf_subrange(s.drop_first(), start - 1, end - 1);
        assert(s.drop_first().subrange(start - 1, end - 1) =~= s.subrange(start, end));
    } else if end < s.len() {
        lemma_trim_crlf_subrange(s.drop_last(), start, end);
        assert(s.drop_last().subrange(start, end) =~= s.subrange(start, end));
    } else {
        assert(s.subrange(0, s.len() as int) =~= s);
    }
}

/// Whitespace trimming removes exactly the maximal runs of whitespace at
/// either end.
pub proof fn lemma_trim_spaces_subrange(s: Seq<char>, start: int, end: int)
    requires
        0 <= start <= end <= s.len(),
        forall|i: int| 0 <= i < start ==> is_space_char(s[i]),
        forall|i: int| end <= i < s.len() ==> is_space_char(s[i]),
        start < end ==> !is_space_char(s[start]) && !is_space_char(s[end - 1]),
        start == end ==> end == s.len(),
    ensures
        trim_spaces(s) == s.subrange(start, end),
    decreases s.len(),
{
    if s.len() == 0 {
        assert(s.subrange(start, end) =~= s);
    } else if start > 0 {
        lemma_trim_spaces_subrange(s.drop_first(), start - 1, end - 1);
        assert(s.drop_first().subrange(start - 1, end - 1) =~= s.subrange(start, end));
    } else if end < s.len() {
        lemma_trim_spaces_subrange(s.drop_last(), start, end);
        assert(s.drop_last().subrange(start, end) =~= s.subrange(start, end));
    } else {
        assert(s.subrange(0, s.len() as int) =~= s);
    }
}

/// A CR/LF-trimmed text neither starts nor ends with CR/LF, so trimming it
/// again changes nothing.
pub proof fn lemma_trim_crlf_idempotent(s: Seq<char>)
    ensures
        trim_crlf(trim_crlf(s)) == trim_crlf(s),
    decreases s.len(),
{
    if s.len() > 0 && is_crlf_char(s[0]) {
        lemma_trim_crlf_idempotent(s.drop_first());
    } else if s.len() > 0 && is_crlf_char(s[s.len() - 1]) {
        lemma_trim_crlf_idempotent(s.drop_last());
    }
}

/// CR and LF are whitespace, so CR/LF trimming preserves blankness in both
/// directions.
pub proof fn lemma_trim_crlf_blank(s: Seq<char>)
    ensures
        is_blank(trim_crlf(s)) == is_blank(s),
    decreases s.len(),
{
    if s.len() > 0 && is_crlf_char(s[0]) {
        lemma_trim_crlf_blank(s.drop_first());
        assert(is_blank(s.drop_first()) ==> is_blank(s)) by {
            if is_blank(s.drop_first()) {
                assert(forall|i: int|
                    0 <= i < s.len() ==> is_space_char(#[trigger] s[i])) by {
                    assert(forall|i: int|
                        1 <= i < s.len() ==> is_space_char(#[trigger] s[i]) == is_space_char(
                            s.drop_first()[i - 1],
                        ));
                }
            }
        }
        assert(is_blank(s) ==> is_blank(s.drop_first()));
    } else if s.len() > 0 && is_crlf_char(s[s.len() - 1]) {
        lemma_trim_crlf_blank(s.drop_last());
        assert(is_blank(s.drop_last()) ==> is_blank(s)) by {
            if is_blank(s.drop_last()) {
                assert(forall|i: int|
                    0 <= i < s.len() - 1 ==> is_space_char(#[trigger] s[i]) == is_space_char(
                        s.drop_last()[i],
                    ));
            }
        }
        assert(is_blank(s) ==> is_blank(s.drop_last()));
    }
}

/// Whether a character satisfies `is_crlf_char`, decided executably.
fn crlf_char(c: char) -> (r: bool)
    ensures
        r == is_crlf_char(c),
{
    c == '\r' || c == '\n'
}

/// Whether a character satisfies `is_space_char`, decided executably.
fn space_char(c: char) -> (r: bool)
    ensures
        r == is_space_char(c),
{
    let u = c as u32;
    (0x09 <= u && u <= 0x0d) || u == 0x20 || u == 0x85 || u == 0xa0 || u == 0x1680 || (0x2000 <= u
        && u <= 0x200a) || u == 0x2028 || u == 0x2029 || u == 0x202f || u == 0x205f || u == 0x3000
}

/// The ASCII-lowercase counterpart of a character, computed executably.
fn ascii_lower_char(c: char) -> (r: char)
    ensures
        r == lower_char(c),
{
    let u = c as u32;
    if 0x41 <= u && u <= 0x5a {
        ((u + 0x20) as u8) as char
    } else {
        c
    }
}

/// Whether two strings hold the same characters.
pub fn str_eq(a: &str, b: &str) -> (r: bool)
    ensures
        r == (a@ == b@),
{
    let n = a.unicode_len();
    if n != b.unicode_len() {
        return false;
    }
    let mut i: usize = 0;
    while i < n
        invariant
            i <= n,
            n == a@.len(),
            n == b@.len(),
            forall|j: int| 0 <= j < i ==> a@[j] == b@[j],
        decreases n - i,
    {
        if a.get_char(i) != b.get_char(i) {
            return false;
        }
        i += 1;
    }
    proof {
        assert(a@ =~= b@);
    }
    true
}

/// Whether two strings hold the same characters up to ASCII case.
pub fn str_eq_ignore_ascii_case(a: &str, b: &str) -> (r: bool)
    ensures
        r == (lower_seq(a@) == lower_seq(b@)),
{
    let n = a.unicode_len();
    if n != b.unicode_len() {
        proof {
            assert(lower_seq(a@).len() == a@.len());
            assert(lower_seq(b@).len() == b@.len());
        }
        return false;
    }
    let mut i: usize = 0;
    while i < n
        invariant
            i <= n,
            n == a@.len(),
            n == b@.len(),
            forall|j: int| 0 <= j < i ==> lower_char(a@[j]) == lower_char(b@[j]),
        decreases n - i,
    {
        if ascii_lower_char(a.get_char(i)) != ascii_lower_char(b.get_char(i)) {
            proof {
                assert(lower_seq(a@)[i as int] != lower_seq(b@)[i as int]);
            }
            return false;
        }
        i += 1;
    }
    proof {
        assert(lower_seq(a@) =~= lower_seq(b@));
    }
    true
}

/// Whether `s` begins with `prefix`.
pub fn str_starts_with(s: &str, prefix: &str) -> (r: bool)
    ensures
        r == (s@.len() >= prefix@.len() && s@.take(prefix@.len() as int) == prefix@),
{
    let n = prefix.unicode_len();
    if s.unicode_len() < n {
        return false;
    }
    let mut i: usize = 0;
    while i < n
        invariant
            i <= n,
            n == prefix@.len(),
            n <= s@.len(),
            forall|j: int| 0 <= j < i ==> s@[j] == prefix@[j],
        decreases n - i,
    {
        if s.get_char(i) != prefix.get_char(i) {
            proof {
                assert(s@.take(n as int)[i as int] != prefix@[i as int]);
            }
            return false;
        }
        i += 1;
    }
    proof {
        assert(s@.take(n as int) =~= prefix@);
    }
    true
}

/// Whether the string contains a carriage return or line feed.
pub fn contains_crlf(s: &str) -> (r: bool)
    ensures
        r == has_crlf(s@),
{
    let n = s.unicode_len();
    let mut i: usize = 0;
    while i < n
        invariant
            i <= n,
            n == s@.len(),
            forall|j: int| 0 <= j < i ==> !is_crlf_char(s@[j]),
        decreases n - i,
    {
        let c = s.get_char(i);
        if c == '\r' || c == '\n' {
            proof {
                assert(is_crlf_char(s@[i as int]));
            }
            return true;
        }
        i += 1;
    }
    false
}

/// Whether the string contains a NUL character.
pub fn contains_nul(s: &str) -> (r: bool)
    ensures
        r == has_nul(s@),
{
    let n = s.unicode_len();
    let mut i: usize = 0;
    while i < n
        invariant
            i <= n,
            n == s@.len(),
            forall|j: int| 0 <= j < i ==> s@[j] != '\0',
        decreases n - i,
    {
        if s.get_char(i) == '\0' {
            return true;
        }
        i += 1;
    }
    false
}

/// Whether the string is empty or consists of whitespace only.
pub fn check_blank(s: &str) -> (r: bool)
    ensures
        r == is_blank(s@),
{
    let n = s.unicode_len();
    let mut i: usize = 0;
    while i < n
        invariant
            i <= n,
            n == s@.len(),
            forall|j: int| 0 <= j < i ==> is_space_char(s@[j]),
        decreases n - i,
    {
        if !space_char(s.get_char(i)) {
            return false;
        }
        i += 1;
    }
    true
}

/// The first index whose character is not CR/LF, or the length if all are.
fn first_non_crlf(s: &str) -> (start: usize)
    ensures
        start <= s@.len(),
        forall|j: int| 0 <= j < start ==> is_crlf_char(s@[j]),
        start < s@.len() ==> !is_crlf_char(s@[start as int]),
{
    let n = s.unicode_len();
    let mut i: usize = 0;
    while i < n
        invariant
            i <= n,
            n == s@.len(),
            forall|j: int| 0 <= j < i ==> is_crlf_char(s@[j]),
        decreases n - i,
    {
        if !crlf_char(s.get_char(i)) {
            return i;
        }
        i += 1;
    }
    i
}

/// One past the last index at or after `start` whose character is not CR/LF,
/// or `start` if all from `start` on are.
fn end_non_crlf(s: &str, start: usize) -> (end: usize)
    requires
        start <= s@.len(),
    ensures
        start <= end <= s@.len(),
        forall|j: int| end <= j < s@.len() ==> is_crlf_char(s@[j]),
        end > start ==> !is_crlf_char(s@[end - 1]),
{
    let n = s.unicode_len();
    let mut e: usize = n;
    while e > start
        invariant
            start <= e <= n,
            n == s@.len(),
            forall|j: int| e <= j < n ==> is_crlf_char(s@[j]),
        decreases e,
    {
        if !crlf_char(s.get_char(e - 1)) {
            return e;
        }
        e -= 1;
    }
    e
}

/// The string with leading and trailing CR/LF characters removed.
pub fn trim_crlf_str(s: &str) -> (r: String)
    ensures
        r@ == trim_crlf(s@),
{
    let start = first_non_crlf(s);
    let end = end_non_crlf(s, start);
    proof {
        if start == end && end < s@.len() {
            assert(is_crlf_char(s@[start as int]));
        }
        lemma_trim_crlf_subrange(s@, start as int, end as int);
    }
    String::from_str(s.substring_char(start, end))
}

/// The first index whose character is not whitespace, or the length if all
/// are.
fn first_non_space(s: &str) -> (start: usize)
    ensures
        start <= s@.len(),
        forall|j: int| 0 <= j < start ==> is_space_char(s@[j]),
        start < s@.len() ==> !is_space_char(s@[start as int]),
{
    let n = s.unicode_len();
    let mut i: usize = 0;
    while i < n
        invariant
            i <= n,
            n == s@.len(),
            forall|j: int| 0 <= j < i ==> is_space_char(s@[j]),
        decreases n - i,
    {
        if !space_char(s.get_char(i)) {
            return i;
        }
        i += 1;
    }
    i
}

/// One past the last index at or after `start` whose character is not
/// whitespace, or `start` if all from `start` on are.
fn end_non_space(s: &str, start: usize) -> (end: usize)
    requires
        start <= s@.len(),
    ensures
        start <= end <= s@.len(),
        forall|j: int| end <= j < s@.len() ==> is_space_char(s@[j]),
        end > start ==> !is_space_char(s@[end - 1]),
{
    let n = s.unicode_len();
    let mut e: usize = n;
    while e > start
        invariant
            start <= e <= n,
            n == s@.len(),
            forall|j: int| e <= j < n ==> is_space_char(s@[j]),
        decreases e,
    {
        if !space_char(s.get_char(e - 1)) {
            return e;
        }
        e -= 1;
    }
    e
}

/// The string with leading and trailing whitespace removed.
pub fn trim_spaces_str(s: &str) -> (r: String)
    ensures
        r@ == trim_spaces(s@),
{
    let start = first_non_space(s);
    let end = end_non_space(s, start);
    proof {
        if start == end && end < s@.len() {
            assert(is_space_char(s@[start as int]));
        }
        lemma_trim_spaces_subrange(s@, start as int, end as int);
    }
    String::from_str(s.substring_char(start, end))
}

} // verus!
