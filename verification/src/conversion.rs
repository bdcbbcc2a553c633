//! The six directed rewrites between conventions, on texts.
//!
//! A rewrite first builds the target text and then checks it against the
//! target convention, so a successful conversion always yields a valid path.

use vstd::prelude::*;
use crate::grammar::{
    after_drive, has_drive_prefix, has_mount_prefix, has_scheme_suffix, is_bare_drive, is_valid,
    is_valid_text, is_windows_forbidden, is_windows_text, is_wsl_text, no_forbidden,
    starts_with_drive, starts_with_mount,
};
use crate::path::{ConversionError, PathType};
use crate::text::{
    ascii_lower, ascii_upper, ends_with, push_replaced, replace_char, to_lower, to_upper,
};

verus! {

/// A Windows text with every backslash turned into a forward slash. A drive
/// prefix stays as it is.
pub open spec fn windows_to_unix_text(s: Seq<char>) -> Seq<char> {
    replace_char(s, '\\', '/')
}

/// A Unix text with every forward slash turned into a backslash. No drive
/// is made up.
pub open spec fn unix_to_windows_text(s: Seq<char>) -> Seq<char> {
    replace_char(s, '/', '\\')
}

/// A Windows text that starts with a drive prefix, rewritten for WSL: the
/// prefix becomes `/mnt/` and the lower-case drive letter, and every
/// backslash after it a forward slash.
pub open spec fn windows_to_wsl_text(s: Seq<char>) -> Seq<char>
    recommends
        has_drive_prefix(s),
{
    seq!['/', 'm', 'n', 't', '/', ascii_lower(s[0])] + replace_char(
        s.subrange(2, s.len() as int),
        '\\',
        '/',
    )
}

/// A text that starts with `/mnt/` and a drive letter, rewritten for
/// Windows: the prefix becomes the upper-case drive letter and a colon, and
/// every forward slash after it a backslash.
pub open spec fn wsl_to_windows_text(s: Seq<char>) -> Seq<char>
    recommends
        has_mount_prefix(s),
{
    seq![ascii_upper(s[5]), ':'] + replace_char(s.subrange(6, s.len() as int), '/', '\\')
}

/// A text that starts with `/mnt/` and a drive letter, without that prefix.
/// Where nothing follows the prefix the text names the root of the drive,
/// which is written `/`.
pub open spec fn wsl_to_unix_text(s: Seq<char>) -> Seq<char>
    recommends
        has_mount_prefix(s),
{
    if s.len() == 6 {
        seq!['/']
    } else {
        s.subrange(6, s.len() as int)
    }
}

/// The error that says a text is not a valid path of the given convention.
pub open spec fn invalid_for(format: PathType) -> ConversionError {
    match format {
        PathType::Windows => ConversionError::NotWindows,
        PathType::Unix => ConversionError::NotUnix,
        PathType::Wsl => ConversionError::NotWsl,
    }
}

/// `s` where it is a valid path of the given convention, the matching error
/// where it is not.
pub open spec fn validated(format: PathType, s: Seq<char>) -> Result<Seq<char>, ConversionError> {
    if is_valid_text(format, s) {
        Ok(s)
    } else {
        Err(invalid_for(format))
    }
}

/// The result of converting the text `s` of a path of convention `from` to
/// convention `to`.
///
/// - To its own convention a path converts unchanged.
/// - Between Windows and Unix only the separators change.
/// - From Windows to WSL the drive prefix is needed as the anchor under
///   `/mnt/`; without one the conversion fails.
/// - A Unix path names no drive. It converts to WSL only where it already is
///   a WSL path, and then unchanged.
/// - From WSL the mount prefix becomes a drive prefix (Windows) or is
///   dropped (Unix).
///
/// Every rewritten text is checked against the target convention.
pub open spec fn convert_text(from: PathType, s: Seq<char>, to: PathType) -> Result<
    Seq<char>,
    ConversionError,
> {
    match (from, to) {
        (PathType::Windows, PathType::Windows) => Ok(s),
        (PathType::Unix, PathType::Unix) => Ok(s),
        (PathType::Wsl, PathType::Wsl) => Ok(s),
        (PathType::Windows, PathType::Unix) => validated(PathType::Unix, windows_to_unix_text(s)),
        (PathType::Windows, PathType::Wsl) => if has_drive_prefix(s) {
            validated(PathType::Wsl, windows_to_wsl_text(s))
        } else {
            Err(ConversionError::NoDriveAnchor)
        },
        (PathType::Unix, PathType::Windows) => validated(
            PathType::Windows,
            unix_to_windows_text(s),
        ),
        (PathType::Unix, PathType::Wsl) => if is_wsl_text(s) {
            Ok(s)
        } else {
            Err(ConversionError::NoDriveAnchor)
        },
        (PathType::Wsl, PathType::Windows) => if has_mount_prefix(s) {
            validated(PathType::Windows, wsl_to_windows_text(s))
        } else {
            Err(ConversionError::NoDriveAnchor)
        },
        (PathType::Wsl, PathType::Unix) => if has_mount_prefix(s) {
            validated(PathType::Unix, wsl_to_unix_text(s))
        } else {
            Err(ConversionError::NoDriveAnchor)
        },
    }
}

/// The text of a successful result, or its error.
pub open spec fn text_of<T: View<V = Seq<char>>>(r: Result<T, ConversionError>) -> Result<
    Seq<char>,
    ConversionError,
> {
    match r {
        Ok(v) => Ok(v@),
        Err(e) => Err(e),
    }
}

/// The error for a text that is no valid path of the given convention.
pub fn invalid_error(format: PathType) -> (e: ConversionError)
    ensures
        e == invalid_for(format),
{
    match format {
        PathType::Windows => ConversionError::NotWindows,
        PathType::Unix => ConversionError::NotUnix,
        PathType::Wsl => ConversionError::NotWsl,
    }
}

/// Hands the characters on where they form a valid path of the given
/// convention.
pub fn validate(format: PathType, v: Vec<char>) -> (r: Result<Vec<char>, ConversionError>)
    ensures
        text_of(r) == validated(format, v@),
{
    if is_valid(format, &v) {
        Ok(v)
    } else {
        Err(invalid_error(format))
    }
}

/// The characters of a Windows path, rewritten for Unix.
pub fn windows_to_unix(v: &Vec<char>) -> (r: Result<Vec<char>, ConversionError>)
    ensures
        text_of(r) == convert_text(PathType::Windows, v@, PathType::Unix),
{
    let mut out: Vec<char> = Vec::new();
    push_replaced(&mut out, v, 0, '\\', '/');
    assert(v@.subrange(0, v.len() as int) =~= v@);
    assert(out@ =~= windows_to_unix_text(v@));
    validate(PathType::Unix, out)
}

/// The characters of a Windows path, rewritten for WSL.
pub fn windows_to_wsl(v: &Vec<char>) -> (r: Result<Vec<char>, ConversionError>)
    ensures
        text_of(r) == convert_text(PathType::Windows, v@, PathType::Wsl),
{
    if !starts_with_drive(v) {
        return Err(ConversionError::NoDriveAnchor);
    }
    let mut out: Vec<char> = Vec::new();
    out.push('/');
    out.push('m');
    out.push('n');
    out.push('t');
    out.push('/');
    out.push(to_lower(v[0]));
    assert(out@ =~= seq!['/', 'm', 'n', 't', '/', ascii_lower(v@[0])]);
    push_replaced(&mut out, v, 2, '\\', '/');
    validate(PathType::Wsl, out)
}

/// The characters of a Unix path, rewritten for Windows.
pub fn unix_to_windows(v: &Vec<char>) -> (r: Result<Vec<char>, ConversionError>)
    ensures
        text_of(r) == convert_text(PathType::Unix, v@, PathType::Windows),
{
    let mut out: Vec<char> = Vec::new();
    push_replaced(&mut out, v, 0, '/', '\\');
    assert(v@.subrange(0, v.len() as int) =~= v@);
    assert(out@ =~= unix_to_windows_text(v@));
    validate(PathType::Windows, out)
}

/// The characters of a WSL path, rewritten for Windows.
pub fn wsl_to_windows(v: &Vec<char>) -> (r: Result<Vec<char>, ConversionError>)
    ensures
        text_of(r) == convert_text(PathType::Wsl, v@, PathType::Windows),
{
    if !starts_with_mount(v) {
        return Err(ConversionError::NoDriveAnchor);
    }
    let mut out: Vec<char> = Vec::new();
    out.push(to_upper(v[5]));
    out.push(':');
    assert(out@ =~= seq![ascii_upper(v@[5]), ':']);
    push_replaced(&mut out, v, 6, '/', '\\');
    validate(PathType::Windows, out)
}

/// The characters of a WSL path, rewritten for Unix.
pub fn wsl_to_unix(v: &Vec<char>) -> (r: Result<Vec<char>, ConversionError>)
    ensures
        text_of(r) == convert_text(PathType::Wsl, v@, PathType::Unix),
{
    if !starts_with_mount(v) {
        return Err(ConversionError::NoDriveAnchor);
    }
    let mut out: Vec<char> = Vec::new();
    if v.len() == 6 {
        out.push('/');
        assert(out@ =~= seq!['/']);
    } else {
        let mut i: usize = 6;
        while i < v.len()
            invariant
                6 <= i <= v.len(),
                out@ == v@.subrange(6, i as int),
            decreases v.len() - i,
        {
            out.push(v[i]);
            i += 1;
        }
    }
    validate(PathType::Unix, out)
}

/// Converts the text of a successful result once more; an error stays.
pub open spec fn and_then_convert(
    r: Result<Seq<char>, ConversionError>,
    from: PathType,
    to: PathType,
) -> Result<Seq<char>, ConversionError> {
    match r {
        Ok(s) => convert_text(from, s, to),
        Err(e) => Err(e),
    }
}

/// A successful conversion of a valid path yields a valid path of the target
/// convention.
pub proof fn lemma_conversion_is_valid(from: PathType, s: Seq<char>, to: PathType)
    requires
        is_valid_text(from, s),
    ensures
        convert_text(from, s, to) matches Ok(t) ==> is_valid_text(to, t),
{
}

/// Converting a path to its own convention succeeds and changes nothing.
pub proof fn lemma_identity_conversion(format: PathType, s: Seq<char>)
    ensures
        convert_text(format, s, format) == Ok::<Seq<char>, ConversionError>(s),
{
}

/// A Unix path converts to WSL exactly where it already is a WSL path.
pub proof fn lemma_unix_to_wsl_needs_anchor(s: Seq<char>)
    ensures
        convert_text(PathType::Unix, s, PathType::Wsl) is Ok <==> is_wsl_text(s),
        !is_wsl_text(s) ==> convert_text(PathType::Unix, s, PathType::Wsl) == Err::<
            Seq<char>,
            ConversionError,
        >(ConversionError::NoDriveAnchor),
{
}

/// A Windows path without a drive prefix does not convert to WSL.
pub proof fn lemma_windows_to_wsl_needs_drive(s: Seq<char>)
    requires
        !has_drive_prefix(s),
    ensures
        convert_text(PathType::Windows, s, PathType::Wsl) == Err::<Seq<char>, ConversionError>(
            ConversionError::NoDriveAnchor,
        ),
{
}

/// No text that ends in a URL scheme ends in anything but a colon, and each
/// scheme is at least four characters long.
proof fn lemma_scheme_suffix_ends_in_colon(s: Seq<char>)
    requires
        has_scheme_suffix(s),
    ensures
        s.len() >= 4,
        s[s.len() - 1] == ':',
{
    reveal_strlit("http:");
    reveal_strlit("https:");
    reveal_strlit("ftp:");
    reveal_strlit("sftp:");
    reveal_strlit("file:");
    let n = s.len() as int;
    if ends_with(s, "http:"@) {
        assert(s.subrange(n - 5, n)[4] == ':');
    } else if ends_with(s, "https:"@) {
        assert(s.subrange(n - 6, n)[5] == ':');
    } else if ends_with(s, "ftp:"@) {
        assert(s.subrange(n - 4, n)[3] == ':');
    } else if ends_with(s, "sftp:"@) {
        assert(s.subrange(n - 5, n)[4] == ':');
    } else {
        assert(s.subrange(n - 5, n)[4] == ':');
    }
}

/// The way back from WSL: a WSL path that came from a Windows path converts
/// to a Windows path, and that one converts to the same WSL path again.
///
/// Stated on the results, so that it also covers the Windows paths that have
/// no WSL rendering: there both sides are the same error.
pub proof fn lemma_wsl_round_trip(p: Seq<char>)
    requires
        is_windows_text(p),
    ensures
        convert_text(PathType::Windows, p, PathType::Wsl) matches Ok(a) ==> convert_text(
            PathType::Wsl,
            a,
            PathType::Windows,
        ) is Ok,
        and_then_convert(
            and_then_convert(
                convert_text(PathType::Windows, p, PathType::Wsl),
                PathType::Wsl,
                PathType::Windows,
            ),
            PathType::Windows,
            PathType::Wsl,
        ) == convert_text(PathType::Windows, p, PathType::Wsl),
{
    if convert_text(PathType::Windows, p, PathType::Wsl) is Ok {
        let rest = p.subrange(2, p.len() as int);
        let a = windows_to_wsl_text(p);
        let a_rest = replace_char(rest, '\\', '/');
        assert(a.subrange(6, a.len() as int) =~= a_rest);
        let b = wsl_to_windows_text(a);
        let b_rest = replace_char(a_rest, '/', '\\');
        assert(b.subrange(2, b.len() as int) =~= b_rest);
        assert(b[0] == ascii_upper(ascii_lower(p[0])));
        assert(has_drive_prefix(b));
        assert(after_drive(b) == b_rest);

        assert(!b.contains('\n') && !b.contains('\r') && !b.contains('\0')) by {
            assert forall|i: int| 0 <= i < b.len() implies b[i] != '\n' && b[i] != '\r' && b[i]
                != '\0' by {
                if i >= 2 {
                    assert(b[i] == b_rest[i - 2]);
                    assert(p[i] == rest[i - 2]);
                    assert(p.contains(p[i]));
                }
            }
        }
        if is_bare_drive(p) {
            assert(is_bare_drive(b));
            assert(!has_scheme_suffix(b)) by {
                if has_scheme_suffix(b) {
                    lemma_scheme_suffix_ends_in_colon(b);
                }
            }
        } else {
            assert(no_forbidden(rest));
            let k = choose|k: int| 0 <= k < p.len() && p[k] == '\\';
            assert(k >= 2);
            assert(rest[k - 2] == '\\');
            assert(b_rest[k - 2] == '\\');
            assert(b[k] == '\\');
            assert(b.contains('\\'));
            assert(no_forbidden(b_rest)) by {
                assert forall|i: int| 0 <= i < b_rest.len() implies !is_windows_forbidden(
                    #[trigger] b_rest[i],
                ) by {
                    assert(!is_windows_forbidden(rest[i]));
                }
            }
            assert(!has_scheme_suffix(b)) by {
                if has_scheme_suffix(b) {
                    lemma_scheme_suffix_ends_in_colon(b);
                    let last = b.len() - 1;
                    assert(b[last] == b_rest[last - 2]);
                    assert(!is_windows_forbidden(b_rest[last - 2]));
                }
            }
        }
        assert(is_windows_text(b));
        let c = windows_to_wsl_text(b);
        assert(c =~= a);
    }
}

/// Between Windows and Unix only the separators change, and all of them
/// do. Where a Windows path has a Unix rendering, that one holds no
/// backslash and converts back to a Windows path, which holds no forward
/// slash; turning the backslashes of that path into forward slashes gives
/// the Unix rendering again. The Windows path that comes back is the first
/// one with every forward slash turned into a backslash.
pub proof fn lemma_slash_round_trip(p: Seq<char>)
    requires
        is_windows_text(p),
    ensures
        convert_text(PathType::Windows, p, PathType::Unix) matches Ok(u) ==> {
            &&& !u.contains('\\')
            &&& convert_text(PathType::Unix, u, PathType::Windows) matches Ok(w)
            &&& !w.contains('/')
            &&& replace_char(w, '\\', '/') == u
            &&& w == replace_char(p, '/', '\\')
        },
{
    if convert_text(PathType::Windows, p, PathType::Unix) is Ok {
        let u = windows_to_unix_text(p);
        let w = unix_to_windows_text(u);
        assert(!u.contains('\\'));
        assert(!w.contains('/'));
        assert(w =~= replace_char(p, '/', '\\'));
        assert(replace_char(w, '\\', '/') =~= u);
        assert(has_drive_prefix(w) == has_drive_prefix(p));
        assert(!w.contains('\n') && !w.contains('\r') && !w.contains('\0')) by {
            assert forall|i: int| 0 <= i < w.len() implies w[i] != '\n' && w[i] != '\r' && w[i]
                != '\0' by {
                assert(p.contains(p[i]));
            }
        }
        assert(!has_scheme_suffix(w)) by {
            if has_scheme_suffix(w) {
                lemma_scheme_suffix_ends_in_colon(w);
                let last = w.len() - 1;
                assert(p[last] == ':');
                assert(!is_bare_drive(p)) by {
                    if is_bare_drive(p) {
                        assert(p.len() == 3);
                        assert(p[2] == '\\');
                    }
                }
                if has_drive_prefix(p) {
                    assert(after_drive(p)[last - 2] == p[last]);
                } else {
                    assert(after_drive(p)[last] == p[last]);
                }
            }
        }
        let k = choose|k: int| 0 <= k < u.len() && u[k] == '/';
        assert(w[k] == '\\');
        assert(w.contains('\\'));
        if !is_bare_drive(p) {
            assert(no_forbidden(after_drive(w))) by {
                assert forall|i: int| 0 <= i < after_drive(w).len() implies !is_windows_forbidden(
                    #[trigger] after_drive(w)[i],
                ) by {
                    assert(!is_windows_forbidden(after_drive(p)[i]));
                }
            }
        } else {
            assert(is_bare_drive(w));
        }
        assert(is_windows_text(w));
    }
}

} // verus!
