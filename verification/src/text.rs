//! Character-level building blocks: moving between strings and character
//! vectors, searching, and one-for-one character substitution.
//!
//! Every path text is modelled as a `Seq<char>`, the view of a `str`.

use vstd::prelude::*;

verus! {

/// Trusted: `String::push` appends exactly the given character to the end of
/// the string and changes nothing else.
pub assume_specification[ String::push ](s: &mut String, c: char)
    ensures
        final(s)@ == old(s)@.push(c),
;

/// An ASCII letter, the only kind of character that can name a drive.
pub open spec fn is_ascii_letter(c: char) -> bool {
    ('a' <= c && c <= 'z') || ('A' <= c && c <= 'Z')
}

/// The lower-case form of an ASCII letter; every other character is itself.
pub open spec fn ascii_lower(c: char) -> char {
    if 'A' <= c && c <= 'Z' {
        ((c as u8) + 32) as char
    } else {
        c
    }
}

/// The upper-case form of an ASCII letter; every other character is itself.
pub open spec fn ascii_upper(c: char) -> char {
    if 'a' <= c && c <= 'z' {
        ((c as u8) - 32) as char
    } else {
        c
    }
}

/// `s` with every occurrence of `from` replaced by `to`.
pub open spec fn replace_char(s: Seq<char>, from: char, to: char) -> Seq<char> {
    Seq::new(s.len(), |i: int| if s[i] == from { to } else { s[i] })
}

/// `s` ends with `suffix`.
pub open spec fn ends_with(s: Seq<char>, suffix: Seq<char>) -> bool {
    suffix.len() <= s.len() && s.subrange(s.len() - suffix.len(), s.len() as int) == suffix
}

/// Position `i` starts two consecutive forward slashes.
pub open spec fn double_slash_at(s: Seq<char>, i: int) -> bool {
    0 <= i && i + 1 < s.len() && s[i] == '/' && s[i + 1] == '/'
}

/// `s` holds two consecutive forward slashes somewhere.
pub open spec fn has_double_slash(s: Seq<char>) -> bool {
    exists|i: int| double_slash_at(s, i)
}

/// Whether the character is an ASCII letter.
pub fn is_letter(c: char) -> (r: bool)
    ensures
        r == is_ascii_letter(c),
{
    ('a' <= c && c <= 'z') || ('A' <= c && c <= 'Z')
}

/// An ASCII letter in lower case; any other character unchanged.
pub fn to_lower(c: char) -> (r: char)
    ensures
        r == ascii_lower(c),
{
    if 'A' <= c && c <= 'Z' {
        ((c as u8) + 32) as char
    } else {
        c
    }
}

/// An ASCII letter in upper case; any other character unchanged.
pub fn to_upper(c: char) -> (r: char)
    ensures
        r == ascii_upper(c),
{
    if 'a' <= c && c <= 'z' {
        ((c as u8) - 32) as char
    } else {
        c
    }
}

/// The characters of a string, in order.
pub fn chars_of(s: &str) -> (out: Vec<char>)
    ensures
        out@ == s@,
{
    let mut out: Vec<char> = Vec::new();
    for c in it: s.chars()
        invariant
            it.seq() == s@,
            out@ == it.history(),
    {
        out.push(c);
    }
    assert(out@ =~= s@);
    out
}

/// The string made of the given characters, in order.
pub fn string_of(chars: &Vec<char>) -> (out: String)
    ensures
        out@ == chars@,
{
    let mut out = String::new();
    let mut i: usize = 0;
    while i < chars.len()
        invariant
            i <= chars.len(),
            out@ == chars@.take(i as int),
        decreases chars.len() - i,
    {
        out.push(chars[i]);
        i += 1;
    }
    out
}

/// Whether `c` occurs among the characters.
pub fn contains_char(v: &Vec<char>, c: char) -> (r: bool)
    ensures
        r == v@.contains(c),
{
    let mut i: usize = 0;
    while i < v.len()
        invariant
            i <= v.len(),
            forall|j: int| 0 <= j < i ==> v@[j] != c,
        decreases v.len() - i,
    {
        if v[i] == c {
            return true;
        }
        i += 1;
    }
    false
}

/// Whether two forward slashes stand side by side somewhere.
pub fn contains_double_slash(v: &Vec<char>) -> (r: bool)
    ensures
        r == has_double_slash(v@),
{
    let mut i: usize = 1;
    while i < v.len()
        invariant
            1 <= i,
            forall|j: int| 0 <= j && j + 1 < i ==> !double_slash_at(v@, j),
        decreases v.len() - i,
    {
        if v[i - 1] == '/' && v[i] == '/' {
            assert(double_slash_at(v@, i - 1));
            return true;
        }
        i += 1;
    }
    false
}

/// Whether the characters end with the given text.
pub fn has_suffix(v: &Vec<char>, suffix: &str) -> (r: bool)
    ensures
        r == ends_with(v@, suffix@),
{
    let tail = chars_of(suffix);
    if tail.len() > v.len() {
        return false;
    }
    let start: usize = v.len() - tail.len();
    let mut i: usize = 0;
    while i < tail.len()
        invariant
            i <= tail.len(),
            start + tail.len() == v.len(),
            tail@ == suffix@,
            forall|j: int| 0 <= j < i ==> v@[start + j] == tail@[j],
        decreases tail.len() - i,
    {
        if v[start + i] != tail[i] {
            assert(v@.subrange(start as int, v.len() as int)[i as int] != tail@[i as int]);
            return false;
        }
        i += 1;
    }
    assert(v@.subrange(start as int, v.len() as int) =~= tail@);
    true
}

/// Appends to `out` the characters of `v` from position `start` on, each
/// occurrence of `from` replaced by `to`.
pub(crate) fn push_replaced(out: &mut Vec<char>, v: &Vec<char>, start: usize, from: char, to: char)
    requires
        start <= v.len(),
    ensures
        final(out)@ == old(out)@ + replace_char(v@.subrange(start as int, v.len() as int), from, to),
{
    let ghost before = out@;
    let ghost rest = v@.subrange(start as int, v.len() as int);
    let mut i: usize = start;
    while i < v.len()
        invariant
            start <= i <= v.len(),
            rest == v@.subrange(start as int, v.len() as int),
            out@ == before + replace_char(rest, from, to).take(i - start),
        decreases v.len() - i,
    {
        let c = v[i];
        out.push(if c == from { to } else { c });
        assert(replace_char(rest, from, to).take(i + 1 - start)
            =~= replace_char(rest, from, to).take(i - start).push(
                replace_char(rest, from, to)[i - start]));
        i += 1;
    }
    assert(replace_char(rest, from, to).take(v.len() - start) =~= replace_char(rest, from, to));
}

} // verus!
