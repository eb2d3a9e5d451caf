//! Reading the default gateway out of the routing table that
//! `netstat -r -n -f inet` prints.

use crate::text::{find_from, first_in, CharClass};
use vstd::prelude::*;

verus! {

/// Why the routing table gave no gateway.
#[derive(Debug, Clone, Copy, PartialEq, Eq, Structural)]
pub enum NetstatError {
    /// No line starts with `default`.
    DefaultLineNotFound,
    /// The `default` line has no second column.
    SecondColumnNotFound,
}

impl NetstatError {
    /// Returns the description of this error.
    pub fn message(&self) -> (r: &'static str)
        ensures
            r@ == match self {
                NetstatError::DefaultLineNotFound => "default line not found"@,
                NetstatError::SecondColumnNotFound => "second column not found on default line"@,
            },
    {
        match self {
            NetstatError::DefaultLineNotFound => "default line not found",
            NetstatError::SecondColumnNotFound => "second column not found on default line",
        }
    }
}

/// Whether the line starts with `default`.
pub open spec fn starts_with_default(l: Seq<char>) -> bool {
    l.len() >= 7 && l.take(7) == "default"@
}

proof fn lemma_first_in_bounds(s: Seq<char>, k: CharClass)
    ensures
        0 <= first_in(s, k) <= s.len(),
    decreases s.len(),
{
    if s.len() > 0 {
        lemma_first_in_bounds(s.drop_first(), k);
    }
}

/// The first line of `s` that starts with `default`. Lines end at a
/// newline; a carriage return before it stays in the line, which changes
/// neither the start of the line nor its whitespace-separated columns.
pub open spec fn default_line(s: Seq<char>) -> Option<Seq<char>>
    decreases s.len(),
    via default_line_decreases
{
    if s.len() == 0 {
        None
    } else {
        let e = first_in(s, CharClass::Newline);
        if starts_with_default(s.take(e)) {
            Some(s.take(e))
        } else if e >= s.len() {
            None
        } else {
            default_line(s.skip(e + 1))
        }
    }
}

#[via_fn]
proof fn default_line_decreases(s: Seq<char>) {
    lemma_first_in_bounds(s, CharClass::Newline);
}

/// The second column of a line, where columns are separated by ASCII whitespace.
pub open spec fn second_column(l: Seq<char>) -> Option<Seq<char>> {
    let a = first_in(l, CharClass::NonWhitespace);
    let b = a + first_in(l.skip(a), CharClass::Whitespace);
    let c = b + first_in(l.skip(b), CharClass::NonWhitespace);
    if c >= l.len() {
        None
    } else {
        Some(l.subrange(c, c + first_in(l.skip(c), CharClass::Whitespace)))
    }
}

/// The gateway that a routing table names: the second column of its first
/// line that starts with `default`.
pub open spec fn gateway_text(table: Seq<char>) -> Result<Seq<char>, NetstatError> {
    match default_line(table) {
        None => Err(NetstatError::DefaultLineNotFound),
        Some(l) => match second_column(l) {
            None => Err(NetstatError::SecondColumnNotFound),
            Some(g) => Ok(g),
        },
    }
}

fn second_column_of(l: &str) -> (r: Option<String>)
    ensures
        match second_column(l@) {
            None => r is None,
            Some(g) => r is Some && r->0@ == g,
        },
{
    let n = l.unicode_len();
    let a = find_from(l, 0, CharClass::NonWhitespace);
    assert(l@.skip(0) =~= l@);
    let b = find_from(l, a, CharClass::Whitespace);
    let c = find_from(l, b, CharClass::NonWhitespace);
    if c >= n {
        None
    } else {
        let d = find_from(l, c, CharClass::Whitespace);
        Some(String::from_str(l.substring_char(c, d)))
    }
}

fn line_starts_with_default(l: &str) -> (r: bool)
    ensures
        r == starts_with_default(l@),
{
    if l.unicode_len() < 7 {
        false
    } else {
        let head = String::from_str(l.substring_char(0, 7));
        assert(l@.take(7) =~= l@.subrange(0, 7));
        head == String::from_str("default")
    }
}

/// Returns the gateway named by a routing table as `netstat -r -n -f inet`
/// prints it.
pub fn netstat_gateway(table: &str) -> (r: Result<String, NetstatError>)
    ensures
        match gateway_text(table@) {
            Ok(g) => r is Ok && r->Ok_0@ == g,
            Err(e) => r == Err::<String, NetstatError>(e),
        },
{
    let n = table.unicode_len();
    let mut pos: usize = 0;
    assert(table@.skip(0) =~= table@);
    loop
        invariant
            pos <= n,
            n == table@.len(),
            default_line(table@.skip(pos as int)) == default_line(table@),
        decreases n - pos,
    {
        if pos >= n {
            assert(table@.skip(pos as int).len() == 0);
            return Err(NetstatError::DefaultLineNotFound);
        }
        let e = find_from(table, pos, CharClass::Newline);
        let line = table.substring_char(pos, e);
        let ghost rest = table@.skip(pos as int);
        assert(rest.take(e - pos) =~= line@);
        if line_starts_with_default(line) {
            return match second_column_of(line) {
                Some(g) => Ok(g),
                None => Err(NetstatError::SecondColumnNotFound),
            };
        }
        if e >= n {
            return Err(NetstatError::DefaultLineNotFound);
        }
        assert(rest.skip(e - pos + 1) =~= table@.skip(e + 1));
        pos = e + 1;
    }
}

} // verus!
