//! Parsing of an HTTP/1.1 request line.
//!
//! Only the first line of a request is interpreted. It is split on single
//! spaces into method, path and version tokens; anything after the third
//! space, and everything after the first `\r\n`, is ignored. A line with
//! fewer than three tokens is malformed.

use vstd::prelude::*;

verus! {

/// Position of the first `"\r\n"` pair at or after index `i`, or `s.len()`
/// when no such pair occurs. The prefix of `s` up to this position is the
/// request line.
pub open spec fn crlf_from(s: Seq<char>, i: nat) -> nat
    recommends
        i <= s.len(),
    decreases s.len() - i when i <= s.len()
{
    if i + 1 >= s.len() {
        s.len()
    } else if s[i as int] == '\r' && s[i + 1 as int] == '\n' {
        i
    } else {
        crlf_from(s, i + 1)
    }
}

/// Position of the first space at or after index `i`, or `s.len()` when no
/// space occurs there.
pub open spec fn space_from(s: Seq<char>, i: nat) -> nat
    recommends
        i <= s.len(),
    decreases s.len() - i when i <= s.len()
{
    if i >= s.len() {
        s.len()
    } else if s[i as int] == ' ' {
        i
    } else {
        space_from(s, i + 1)
    }
}

pub proof fn lemma_crlf_from_range(s: Seq<char>, i: nat)
    requires
        i <= s.len(),
    ensures
        i <= crlf_from(s, i) <= s.len(),
    decreases s.len() - i,
{
    if i + 1 >= s.len() {
    } else if s[i as int] == '\r' && s[i + 1 as int] == '\n' {
    } else {
        lemma_crlf_from_range(s, i + 1);
    }
}

/// The request line: the prefix of the raw request text up to the first
/// `"\r\n"`, or the whole text when none occurs.
pub open spec fn line_of(s: Seq<char>) -> Seq<char> {
    s.take(crlf_from(s, 0) as int)
}

/// End of the method token on request line `l`: the first space, or `l.len()`.
pub open spec fn method_end(l: Seq<char>) -> nat {
    space_from(l, 0)
}

/// End of the path token: the first space after the method token.
pub open spec fn path_end(l: Seq<char>) -> nat {
    space_from(l, method_end(l) + 1)
}

/// End of the version token: the first space after the path token, or
/// `l.len()` when the version is the last token on the line.
pub open spec fn version_end(l: Seq<char>) -> nat {
    space_from(l, path_end(l) + 1)
}

/// A request line is well formed when splitting it on single spaces yields
/// at least three tokens, i.e. when it carries at least two spaces.
pub open spec fn has_three_tokens(l: Seq<char>) -> bool {
    method_end(l) < l.len() && path_end(l) < l.len()
}

pub open spec fn method_of(l: Seq<char>) -> Seq<char> {
    l.take(method_end(l) as int)
}

pub open spec fn path_of(l: Seq<char>) -> Seq<char> {
    l.subrange(method_end(l) + 1 as int, path_end(l) as int)
}

pub open spec fn version_of(l: Seq<char>) -> Seq<char> {
    l.subrange(path_end(l) + 1 as int, version_end(l) as int)
}

/// The method, path and version tokens of a request line, in the order they
/// stood on the line.
pub struct ParsedRequest {
    pub method: String,
    pub path: String,
    pub version: String,
}

/// Finds the first `"\r\n"` pair in `s`, returning `s@.len()` when none occurs.
fn find_crlf(s: &str) -> (r: usize)
    ensures
        r as nat == crlf_from(s@, 0),
        r <= s@.len(),
{
    let n: usize = s.unicode_len();
    let mut i: usize = 0;
    loop
        invariant
            i <= n,
            n as nat == s@.len(),
            crlf_from(s@, 0) == crlf_from(s@, i as nat),
        decreases n - i,
    {
        if n - i <= 1 {
            proof {
                lemma_crlf_from_range(s@, i as nat);
            }
            return n;
        }
        let c0 = s.get_char(i);
        let c1 = s.get_char(i + 1);
        if c0 == '\r' && c1 == '\n' {
            return i;
        }
        i = i + 1;
    }
}

/// Finds the first space in `s` at or after `start`, returning `s@.len()`
/// when no space occurs there.
fn find_space(s: &str, start: usize) -> (r: usize)
    requires
        start as nat <= s@.len(),
    ensures
        r as nat == space_from(s@, start as nat),
        start <= r <= s@.len(),
{
    let n: usize = s.unicode_len();
    let mut i: usize = start;
    loop
        invariant
            start <= i <= n,
            n as nat == s@.len(),
            space_from(s@, start as nat) == space_from(s@, i as nat),
        decreases n - i,
    {
        if i >= n {
            return n;
        }
        let c = s.get_char(i);
        if c == ' ' {
            return i;
        }
        i = i + 1;
    }
}

/// Compares two string slices character by character.
pub fn str_eq(a: &str, b: &str) -> (r: bool)
    ensures
        r == (a@ == b@),
{
    let n: usize = a.unicode_len();
    let m: usize = b.unicode_len();
    if n != m {
        return false;
    }
    let mut i: usize = 0;
    while i < n
        invariant
            i <= n,
            n as nat == a@.len(),
            n as nat == b@.len(),
            forall|j: int| 0 <= j < i ==> a@[j] == b@[j],
        decreases n - i,
    {
        if a.get_char(i) != b.get_char(i) {
            return false;
        }
        i = i + 1;
    }
    proof {
        assert(a@ =~= b@);
    }
    true
}

/// Splits the request line of `s` into its first three tokens.
///
/// Returns `None` exactly when the request line holds fewer than three
/// space-separated tokens; such a request is malformed and must be answered
/// with an error response rather than a fault.
pub fn parse_request(s: &str) -> (r: Option<ParsedRequest>)
    ensures
        match r {
            Some(p) => has_three_tokens(line_of(s@)) && p.method@ == method_of(line_of(s@))
                && p.path@ == path_of(line_of(s@)) && p.version@ == version_of(line_of(s@)),
            None => !has_three_tokens(line_of(s@)),
        },
{
    let line_end = find_crlf(s);
    let line = s.substring_char(0, line_end);
    proof {
        assert(line@ =~= line_of(s@));
    }
    let n: usize = line.unicode_len();
    let m_end = find_space(line, 0);
    if m_end == n {
        return None;
    }
    let p_end = find_space(line, m_end + 1);
    if p_end == n {
        return None;
    }
    let v_end = find_space(line, p_end + 1);
    let method = line.substring_char(0, m_end);
    let path = line.substring_char(m_end + 1, p_end);
    let version = line.substring_char(p_end + 1, v_end);
    Some(
        ParsedRequest {
            method: String::from_str(method),
            path: String::from_str(path),
            version: String::from_str(version),
        },
    )
}

} // verus!
