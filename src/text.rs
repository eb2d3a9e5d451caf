//! Searching text for the first character of a kind.

use vstd::prelude::*;

verus! {

/// A kind of character that a search looks for.
#[derive(Debug, Clone, Copy, PartialEq, Eq, Structural)]
pub enum CharClass {
    Dash,
    Newline,
    Whitespace,
    NonWhitespace,
}

/// ASCII whitespace: space, tab, line feed, form feed and carriage return.
pub open spec fn is_ascii_space(c: char) -> bool {
    c == ' ' || c == '\t' || c == '\n' || c == '\x0C' || c == '\r'
}

/// Whether `c` is of the kind `k`.
pub open spec fn in_class(c: char, k: CharClass) -> bool {
    match k {
        CharClass::Dash => c == '-',
        CharClass::Newline => c == '\n',
        CharClass::Whitespace => is_ascii_space(c),
        CharClass::NonWhitespace => !is_ascii_space(c),
    }
}

/// The index of the first character of kind `k` in `s`, or its length where there is none.
pub open spec fn first_in(s: Seq<char>, k: CharClass) -> int
    decreases s.len(),
{
    if s.len() == 0 {
        0
    } else if in_class(s[0], k) {
        0
    } else {
        1 + first_in(s.drop_first(), k)
    }
}

proof fn lemma_first_in(s: Seq<char>, k: CharClass, i: int)
    requires
        0 <= i <= s.len(),
        forall|j: int| 0 <= j < i ==> !in_class(#[trigger] s[j], k),
        i == s.len() || in_class(s[i], k),
    ensures
        first_in(s, k) == i,
    decreases i,
{
    if i > 0 {
        let t = s.drop_first();
        assert forall|j: int| 0 <= j < i - 1 implies !in_class(#[trigger] t[j], k) by {
            assert(t[j] == s[j + 1]);
        }
        lemma_first_in(t, k, i - 1);
    }
}

fn char_in_class(c: char, k: CharClass) -> (r: bool)
    ensures
        r == in_class(c, k),
{
    let space = c == ' ' || c == '\t' || c == '\n' || c == '\x0C' || c == '\r';
    match k {
        CharClass::Dash => c == '-',
        CharClass::Newline => c == '\n',
        CharClass::Whitespace => space,
        CharClass::NonWhitespace => !space,
    }
}

/// Returns the index of the first character of kind `k` in `s` at or after
/// `from`, or the length of `s` where there is none.
pub fn find_from(s: &str, from: usize, k: CharClass) -> (r: usize)
    requires
        from <= s@.len(),
    ensures
        from <= r <= s@.len(),
        r - from == first_in(s@.skip(from as int), k),
{
    let n = s.unicode_len();
    let mut i = from;
    while i < n && !char_in_class(s.get_char(i), k)
        invariant
            n == s@.len(),
            from <= i <= n,
            forall|j: int| from <= j < i ==> !in_class(#[trigger] s@[j], k),
        decreases n - i,
    {
        i = i + 1;
    }
    let ghost t = s@.skip(from as int);
    assert forall|j: int| 0 <= j < i - from implies !in_class(#[trigger] t[j], k) by {
        assert(t[j] == s@[from + j]);
    }
    proof {
        lemma_first_in(t, k, i - from);
    }
    i
}

} // verus!
