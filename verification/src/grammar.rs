//! The syntax of the three path conventions, and the classifier built on it.
//!
//! Each convention is a predicate on a text. A text that holds a line break
//! or a NUL character, or that ends in a URL scheme, belongs to none of them.

use vstd::prelude::*;
use crate::path::PathType;
use crate::text::{
    chars_of, contains_char, contains_double_slash, ends_with, has_double_slash, has_suffix,
    is_ascii_letter, is_letter,
};

verus! {

/// `s` holds a line feed or a carriage return.
pub open spec fn has_line_break(s: Seq<char>) -> bool {
    s.contains('\n') || s.contains('\r')
}

/// `s` ends in one of the URL schemes `http:`, `https:`, `ftp:`, `sftp:`,
/// `file:`.
pub open spec fn has_scheme_suffix(s: Seq<char>) -> bool {
    ||| ends_with(s, "http:"@)
    ||| ends_with(s, "https:"@)
    ||| ends_with(s, "ftp:"@)
    ||| ends_with(s, "sftp:"@)
    ||| ends_with(s, "file:"@)
}

/// `s` cannot be a path of any convention.
pub open spec fn is_rejected(s: Seq<char>) -> bool {
    has_line_break(s) || s.contains('\0') || has_scheme_suffix(s)
}

/// `s` starts with a drive letter and a colon.
pub open spec fn has_drive_prefix(s: Seq<char>) -> bool {
    s.len() >= 2 && is_ascii_letter(s[0]) && s[1] == ':'
}

/// What follows the drive prefix of `s`; all of `s` where it has none.
pub open spec fn after_drive(s: Seq<char>) -> Seq<char> {
    if has_drive_prefix(s) {
        s.subrange(2, s.len() as int)
    } else {
        s
    }
}

/// A character that no Windows path holds outside its drive prefix.
pub open spec fn is_windows_forbidden(c: char) -> bool {
    c == '<' || c == '>' || c == ':' || c == '"' || c == '|' || c == '?' || c == '*'
}

/// No character of `s` is forbidden in a Windows path.
pub open spec fn no_forbidden(s: Seq<char>) -> bool {
    forall|i: int| 0 <= i < s.len() ==> !is_windows_forbidden(#[trigger] s[i])
}

/// `s` is a drive prefix alone, or one followed by a single backslash.
pub open spec fn is_bare_drive(s: Seq<char>) -> bool {
    has_drive_prefix(s) && (s.len() == 2 || (s.len() == 3 && s[2] == '\\'))
}

/// The Windows pattern: a bare drive, or a text with at least one backslash
/// and no forbidden character outside a leading drive prefix.
pub open spec fn windows_shape(s: Seq<char>) -> bool {
    is_bare_drive(s) || (s.contains('\\') && no_forbidden(after_drive(s)))
}

/// The Unix pattern: at least one forward slash, never two in a row.
pub open spec fn unix_shape(s: Seq<char>) -> bool {
    s.contains('/') && !has_double_slash(s)
}

/// `s` starts with `/mnt/` and a drive letter.
pub open spec fn has_mount_prefix(s: Seq<char>) -> bool {
    &&& s.len() >= 6
    &&& s[0] == '/'
    &&& s[1] == 'm'
    &&& s[2] == 'n'
    &&& s[3] == 't'
    &&& s[4] == '/'
    &&& is_ascii_letter(s[5])
}

/// The WSL pattern: `/mnt/`, a drive letter, and then either nothing or a
/// forward slash and the rest; never two forward slashes in a row.
pub open spec fn wsl_shape(s: Seq<char>) -> bool {
    has_mount_prefix(s) && (s.len() == 6 || s[6] == '/') && !has_double_slash(s)
}

/// `s` is a valid Windows path.
pub open spec fn is_windows_text(s: Seq<char>) -> bool {
    !is_rejected(s) && windows_shape(s)
}

/// `s` is a valid Unix path.
pub open spec fn is_unix_text(s: Seq<char>) -> bool {
    !is_rejected(s) && unix_shape(s)
}

/// `s` is a valid WSL path.
pub open spec fn is_wsl_text(s: Seq<char>) -> bool {
    !is_rejected(s) && wsl_shape(s)
}

/// `s` is a valid path of the given convention.
pub open spec fn is_valid_text(format: PathType, s: Seq<char>) -> bool {
    match format {
        PathType::Windows => is_windows_text(s),
        PathType::Unix => is_unix_text(s),
        PathType::Wsl => is_wsl_text(s),
    }
}

/// The convention a text is classified as. Every WSL path is also a Unix
/// path, and a text may match both the Unix and the Windows pattern, so the
/// patterns are tried in the order WSL, Unix, Windows.
pub open spec fn classify_text(s: Seq<char>) -> Option<PathType> {
    if is_wsl_text(s) {
        Some(PathType::Wsl)
    } else if is_unix_text(s) {
        Some(PathType::Unix)
    } else if is_windows_text(s) {
        Some(PathType::Windows)
    } else {
        None
    }
}

/// Whether the characters cannot be a path of any convention.
pub fn rejects(v: &Vec<char>) -> (r: bool)
    ensures
        r == is_rejected(v@),
{
    contains_char(v, '\n') || contains_char(v, '\r') || contains_char(v, '\0')
        || has_suffix(v, "http:") || has_suffix(v, "https:") || has_suffix(v, "ftp:")
        || has_suffix(v, "sftp:") || has_suffix(v, "file:")
}

/// Whether the characters start with a drive letter and a colon.
pub fn starts_with_drive(v: &Vec<char>) -> (r: bool)
    ensures
        r == has_drive_prefix(v@),
{
    v.len() >= 2 && is_letter(v[0]) && v[1] == ':'
}

/// Whether no Windows path holds the character outside its drive prefix.
pub fn is_forbidden(c: char) -> (r: bool)
    ensures
        r == is_windows_forbidden(c),
{
    c == '<' || c == '>' || c == ':' || c == '"' || c == '|' || c == '?' || c == '*'
}

/// Whether no character of `v` from position `start` on is forbidden.
pub(crate) fn tail_is_clean(v: &Vec<char>, start: usize) -> (r: bool)
    requires
        start <= v.len(),
    ensures
        r == no_forbidden(v@.subrange(start as int, v.len() as int)),
{
    let ghost tail = v@.subrange(start as int, v.len() as int);
    let mut i: usize = start;
    while i < v.len()
        invariant
            start <= i <= v.len(),
            tail == v@.subrange(start as int, v.len() as int),
            forall|j: int| 0 <= j < i - start ==> !is_windows_forbidden(#[trigger] tail[j]),
        decreases v.len() - i,
    {
        if is_forbidden(v[i]) {
            assert(is_windows_forbidden(tail[i - start]));
            return false;
        }
        i += 1;
    }
    true
}

/// Whether the characters match the Windows pattern.
pub fn has_windows_shape(v: &Vec<char>) -> (r: bool)
    ensures
        r == windows_shape(v@),
{
    let drive = starts_with_drive(v);
    if drive && (v.len() == 2 || (v.len() == 3 && v[2] == '\\')) {
        return true;
    }
    if !contains_char(v, '\\') {
        return false;
    }
    let start: usize = if drive { 2 } else { 0 };
    assert(v@.subrange(0, v.len() as int) =~= v@);
    tail_is_clean(v, start)
}

/// Whether the characters match the Unix pattern.
pub fn has_unix_shape(v: &Vec<char>) -> (r: bool)
    ensures
        r == unix_shape(v@),
{
    contains_char(v, '/') && !contains_double_slash(v)
}

/// Whether the characters start with `/mnt/` and a drive letter.
pub fn starts_with_mount(v: &Vec<char>) -> (r: bool)
    ensures
        r == has_mount_prefix(v@),
{
    v.len() >= 6 && v[0] == '/' && v[1] == 'm' && v[2] == 'n' && v[3] == 't' && v[4] == '/'
        && is_letter(v[5])
}

/// Whether the characters match the WSL pattern.
pub fn has_wsl_shape(v: &Vec<char>) -> (r: bool)
    ensures
        r == wsl_shape(v@),
{
    starts_with_mount(v) && (v.len() == 6 || v[6] == '/') && !contains_double_slash(v)
}

/// Whether the characters form a valid path of the given convention.
pub fn is_valid(format: PathType, v: &Vec<char>) -> (r: bool)
    ensures
        r == is_valid_text(format, v@),
{
    if rejects(v) {
        return false;
    }
    match format {
        PathType::Windows => has_windows_shape(v),
        PathType::Unix => has_unix_shape(v),
        PathType::Wsl => has_wsl_shape(v),
    }
}

/// The convention the characters are classified as, if any.
pub fn classify_chars(v: &Vec<char>) -> (r: Option<PathType>)
    ensures
        r == classify_text(v@),
{
    if rejects(v) {
        None
    } else if has_wsl_shape(v) {
        Some(PathType::Wsl)
    } else if has_unix_shape(v) {
        Some(PathType::Unix)
    } else if has_windows_shape(v) {
        Some(PathType::Windows)
    } else {
        None
    }
}

/// Classifies a text as a path of one convention, or as no path at all.
///
/// A text with a line break or a NUL character is never a path.
pub fn classify(text: &str) -> (r: Option<PathType>)
    ensures
        r == classify_text(text@),
        has_line_break(text@) || text@.contains('\0') ==> r is None,
{
    let v = chars_of(text);
    classify_chars(&v)
}

/// A text with a line break or a NUL character is a path of no convention.
pub proof fn lemma_line_break_or_nul_is_no_path(s: Seq<char>)
    requires
        has_line_break(s) || s.contains('\0'),
    ensures
        classify_text(s) is None,
        forall|format: PathType| !is_valid_text(format, s),
{
}

/// Every WSL path is also a Unix path.
pub proof fn lemma_wsl_is_unix(s: Seq<char>)
    requires
        is_wsl_text(s),
    ensures
        is_unix_text(s),
{
    assert(s[0] == '/');
}

/// A text is classified exactly where it is valid in some convention, and
/// then as a convention it is valid in: as WSL where it is a WSL path, else
/// as Unix where it is a Unix path, else as Windows.
pub proof fn lemma_classification(s: Seq<char>)
    ensures
        classify_text(s) matches Some(format) ==> is_valid_text(format, s),
        classify_text(s) is None <==> forall|format: PathType| !is_valid_text(format, s),
        is_wsl_text(s) ==> classify_text(s) == Some(PathType::Wsl),
        is_unix_text(s) && !is_wsl_text(s) ==> classify_text(s) == Some(PathType::Unix),
{
    if classify_text(s) is None {
        assert forall|format: PathType| !is_valid_text(format, s) by {}
    } else {
        assert(is_valid_text(classify_text(s)->Some_0, s));
    }
}

} // verus!
