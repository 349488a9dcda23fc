//! String helpers over character sequences.

use vstd::prelude::*;

verus! {

/// Number of characters kept of a timestamp: `YYYY-MM-DD HH:MM`.
pub const STAMP_LEN: usize = 16;

/// Relies on `String::push`: appends one character at the end.
pub assume_specification[ String::push ](s: &mut String, ch: char)
    ensures
        final(s)@ == old(s)@.push(ch),
;

/// Relies on `String::pop`: removes and returns the last character, if any.
pub assume_specification[ String::pop ](s: &mut String) -> (r: Option<char>)
    ensures
        old(s)@.len() == 0 ==> r is None && final(s)@ == old(s)@,
        old(s)@.len() > 0 ==> r == Some(old(s)@.last()) && final(s)@ == old(s)@.drop_last(),
;

/// Relies on `String::clear`: the string becomes empty.
pub assume_specification[ String::clear ](s: &mut String)
    ensures
        final(s)@ == Seq::<char>::empty(),
;

/// Unicode's `White_Space` property.
pub open spec fn white_space(c: char) -> bool {
    ('\u{9}' <= c && c <= '\u{d}') || c == ' ' || c == '\u{85}' || c == '\u{a0}'
        || c == '\u{1680}' || ('\u{2000}' <= c && c <= '\u{200a}') || c == '\u{2028}'
        || c == '\u{2029}' || c == '\u{202f}' || c == '\u{205f}' || c == '\u{3000}'
}

/// Relies on `char::is_whitespace`: true exactly for the `White_Space` characters.
pub assume_specification[ char::is_whitespace ](c: char) -> (r: bool)
    ensures
        r == white_space(c),
;

/// The first `n` characters of `s`, or all of it when it is shorter.
pub open spec fn prefix(s: Seq<char>, n: int) -> Seq<char> {
    if s.len() <= n {
        s
    } else {
        s.subrange(0, n)
    }
}

/// True when `s` holds only white space (so also when it is empty).
pub fn is_blank(s: &str) -> (r: bool)
    ensures
        r == forall|i: int| 0 <= i < s@.len() ==> white_space(#[trigger] s@[i]),
{
    let n = s.unicode_len();
    let mut i: usize = 0;
    while i < n
        invariant
            n == s@.len(),
            i <= n,
            forall|j: int| 0 <= j < i ==> white_space(#[trigger] s@[j]),
        decreases n - i,
    {
        if !s.get_char(i).is_whitespace() {
            return false;
        }
        i += 1;
    }
    true
}

/// A full timestamp cut down to minute precision: its first `STAMP_LEN` characters.
pub fn minute_stamp(full: &str) -> (r: String)
    ensures
        r@ == prefix(full@, STAMP_LEN as int),
{
    let n = full.unicode_len();
    let mut r = String::new();
    let mut i: usize = 0;
    while i < n && i < STAMP_LEN
        invariant
            n == full@.len(),
            i <= n,
            i <= STAMP_LEN,
            r@ == full@.subrange(0, i as int),
        decreases n - i,
    {
        r.push(full.get_char(i));
        i += 1;
        assert(r@ =~= full@.subrange(0, i as int));
    }
    proof {
        if full@.len() <= STAMP_LEN {
            assert(full@.subrange(0, i as int) =~= full@);
        }
    }
    r
}

} // verus!
