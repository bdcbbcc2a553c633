//! Path values: a text paired with the convention it is written in.
//!
//! `WindowsPath`, `UnixPath` and `WslPath` each hold a text that is valid in
//! their own convention; no value of these types holds any other text.
//! `TypedPath` is any one of the three.

use vstd::prelude::*;
use crate::conversion::{
    convert_text, text_of, unix_to_windows, validated, windows_to_unix, windows_to_wsl,
    wsl_to_unix, wsl_to_windows,
};
use crate::grammar::{is_unix_text, is_valid, is_valid_text, is_windows_text, is_wsl_text};
use crate::text::{chars_of, string_of};

verus! {

/// The three conventions a path can be written in.
#[derive(Clone, Copy, Debug, PartialEq, Eq, Structural)]
pub enum PathType {
    Windows,
    Unix,
    Wsl,
}

/// Why a text could not be taken as, or turned into, a path of some
/// convention.
#[derive(Clone, Copy, Debug, PartialEq, Eq, Structural)]
pub enum ConversionError {
    /// The text is not a valid Windows path.
    NotWindows,
    /// The text is not a valid Unix path.
    NotUnix,
    /// The text is not a valid WSL path.
    NotWsl,
    /// The source names no drive, so nothing can be mounted under `/mnt/`.
    NoDriveAnchor,
}

/// What is said of each error.
pub open spec fn message_text(error: ConversionError) -> Seq<char> {
    match error {
        ConversionError::NotWindows => "The given path is not a Windows path."@,
        ConversionError::NotUnix => "The given path is not a Unix path."@,
        ConversionError::NotWsl => "The given path is not a WSL path."@,
        ConversionError::NoDriveAnchor => "The given path has no drive to mount."@,
    }
}

impl ConversionError {
    /// The error in words.
    pub fn message(&self) -> (s: String)
        ensures
            s@ == message_text(*self),
    {
        match self {
            ConversionError::NotWindows => "The given path is not a Windows path.".to_string(),
            ConversionError::NotUnix => "The given path is not a Unix path.".to_string(),
            ConversionError::NotWsl => "The given path is not a WSL path.".to_string(),
            ConversionError::NoDriveAnchor => "The given path has no drive to mount.".to_string(),
        }
    }
}

/// A path in one convention that can be rewritten in each of the three.
pub trait Path: View<V = Seq<char>> + Sized {
    /// The convention the text is written in.
    spec fn format(&self) -> PathType;

    /// The path as a Windows path.
    fn to_windows(&self) -> (r: Result<WindowsPath, ConversionError>)
        ensures
            text_of(r) == convert_text(self.format(), self@, PathType::Windows),
    ;

    /// The path as a Unix path.
    fn to_unix(&self) -> (r: Result<UnixPath, ConversionError>)
        ensures
            text_of(r) == convert_text(self.format(), self@, PathType::Unix),
    ;

    /// The path as a WSL path.
    fn to_wsl(&self) -> (r: Result<WslPath, ConversionError>)
        ensures
            text_of(r) == convert_text(self.format(), self@, PathType::Wsl),
    ;

    /// The text of the path. It is always valid in the path's convention.
    fn as_string(&self) -> (s: String)
        ensures
            s@ == self@,
            is_valid_text(self.format(), self@),
    ;

    /// The convention the path is written in.
    fn get_type(&self) -> (t: PathType)
        ensures
            t == self.format(),
    ;
}

/// A valid Windows path, such as `C:\Users\me` or `docs\notes.txt`.
pub struct WindowsPath {
    path: String,
}

/// A valid Unix path, such as `/home/me` or `docs/notes.txt`.
pub struct UnixPath {
    path: String,
}

/// A valid WSL path: a drive mounted under `/mnt/`, such as `/mnt/c/Users/me`.
pub struct WslPath {
    path: String,
}

impl View for WindowsPath {
    type V = Seq<char>;

    closed spec fn view(&self) -> Seq<char> {
        self.path@
    }
}

impl View for UnixPath {
    type V = Seq<char>;

    closed spec fn view(&self) -> Seq<char> {
        self.path@
    }
}

impl View for WslPath {
    type V = Seq<char>;

    closed spec fn view(&self) -> Seq<char> {
        self.path@
    }
}

impl WindowsPath {
    #[verifier::type_invariant]
    spec fn holds_windows_text(&self) -> bool {
        is_windows_text(self.path@)
    }

    /// Takes a text as a Windows path where it is one.
    pub fn new(path: String) -> (r: Result<Self, ConversionError>)
        ensures
            text_of(r) == validated(PathType::Windows, path@),
    {
        if Self::is_windows_path(path.as_str()) {
            Ok(WindowsPath { path })
        } else {
            Err(ConversionError::NotWindows)
        }
    }

    /// Whether the text is a valid Windows path.
    pub fn is_windows_path(path: &str) -> (r: bool)
        ensures
            r == is_windows_text(path@),
    {
        let v = chars_of(path);
        is_valid(PathType::Windows, &v)
    }
}

impl UnixPath {
    #[verifier::type_invariant]
    spec fn holds_unix_text(&self) -> bool {
        is_unix_text(self.path@)
    }

    /// Takes a text as a Unix path where it is one.
    pub fn new(path: String) -> (r: Result<Self, ConversionError>)
        ensures
            text_of(r) == validated(PathType::Unix, path@),
    {
        if Self::is_unix_path(path.as_str()) {
            Ok(UnixPath { path })
        } else {
            Err(ConversionError::NotUnix)
        }
    }

    /// Whether the text is a valid Unix path.
    pub fn is_unix_path(path: &str) -> (r: bool)
        ensures
            r == is_unix_text(path@),
    {
        let v = chars_of(path);
        is_valid(PathType::Unix, &v)
    }
}

impl WslPath {
    #[verifier::type_invariant]
    spec fn holds_wsl_text(&self) -> bool {
        is_wsl_text(self.path@)
    }

    /// Takes a text as a WSL path where it is one.
    pub fn new(path: String) -> (r: Result<Self, ConversionError>)
        ensures
            text_of(r) == validated(PathType::Wsl, path@),
    {
        if Self::is_wsl_path(path.as_str()) {
            Ok(WslPath { path })
        } else {
            Err(ConversionError::NotWsl)
        }
    }

    /// Whether the text is a valid WSL path.
    pub fn is_wsl_path(path: &str) -> (r: bool)
        ensures
            r == is_wsl_text(path@),
    {
        let v = chars_of(path);
        is_valid(PathType::Wsl, &v)
    }
}

impl Clone for WindowsPath {
    fn clone(&self) -> (r: Self)
        ensures
            r@ == self@,
    {
        proof {
            use_type_invariant(self);
        }
        WindowsPath { path: self.path.clone() }
    }
}

impl Clone for UnixPath {
    fn clone(&self) -> (r: Self)
        ensures
            r@ == self@,
    {
        proof {
            use_type_invariant(self);
        }
        UnixPath { path: self.path.clone() }
    }
}

impl Clone for WslPath {
    fn clone(&self) -> (r: Self)
        ensures
            r@ == self@,
    {
        proof {
            use_type_invariant(self);
        }
        WslPath { path: self.path.clone() }
    }
}

impl Path for WindowsPath {
    open spec fn format(&self) -> PathType {
        PathType::Windows
    }

    fn to_windows(&self) -> (r: Result<WindowsPath, ConversionError>) {
        Ok(self.clone())
    }

    fn to_unix(&self) -> (r: Result<UnixPath, ConversionError>) {
        let v = chars_of(self.path.as_str());
        match windows_to_unix(&v) {
            Ok(out) => Ok(UnixPath { path: string_of(&out) }),
            Err(e) => Err(e),
        }
    }

    fn to_wsl(&self) -> (r: Result<WslPath, ConversionError>) {
        let v = chars_of(self.path.as_str());
        match windows_to_wsl(&v) {
            Ok(out) => Ok(WslPath { path: string_of(&out) }),
            Err(e) => Err(e),
        }
    }

    fn as_string(&self) -> (s: String) {
        proof {
            use_type_invariant(self);
        }
        self.path.clone()
    }

    fn get_type(&self) -> (t: PathType) {
        PathType::Windows
    }
}

impl Path for UnixPath {
    open spec fn format(&self) -> PathType {
        PathType::Unix
    }

    fn to_windows(&self) -> (r: Result<WindowsPath, ConversionError>) {
        let v = chars_of(self.path.as_str());
        match unix_to_windows(&v) {
            Ok(out) => Ok(WindowsPath { path: string_of(&out) }),
            Err(e) => Err(e),
        }
    }

    fn to_unix(&self) -> (r: Result<UnixPath, ConversionError>) {
        Ok(self.clone())
    }

    fn to_wsl(&self) -> (r: Result<WslPath, ConversionError>) {
        if WslPath::is_wsl_path(self.path.as_str()) {
            Ok(WslPath { path: self.path.clone() })
        } else {
            Err(ConversionError::NoDriveAnchor)
        }
    }

    fn as_string(&self) -> (s: String) {
        proof {
            use_type_invariant(self);
        }
        self.path.clone()
    }

    fn get_type(&self) -> (t: PathType) {
        PathType::Unix
    }
}

impl Path for WslPath {
    open spec fn format(&self) -> PathType {
        PathType::Wsl
    }

    fn to_windows(&self) -> (r: Result<WindowsPath, ConversionError>) {
        let v = chars_of(self.path.as_str());
        match wsl_to_windows(&v) {
            Ok(out) => Ok(WindowsPath { path: string_of(&out) }),
            Err(e) => Err(e),
        }
    }

    fn to_unix(&self) -> (r: Result<UnixPath, ConversionError>) {
        let v = chars_of(self.path.as_str());
        match wsl_to_unix(&v) {
            Ok(out) => Ok(UnixPath { path: string_of(&out) }),
            Err(e) => Err(e),
        }
    }

    fn to_wsl(&self) -> (r: Result<WslPath, ConversionError>) {
        Ok(self.clone())
    }

    fn as_string(&self) -> (s: String) {
        proof {
            use_type_invariant(self);
        }
        self.path.clone()
    }

    fn get_type(&self) -> (t: PathType) {
        PathType::Wsl
    }
}

/// A path of any one of the three conventions.
pub enum TypedPath {
    Windows(WindowsPath),
    Unix(UnixPath),
    Wsl(WslPath),
}

impl View for TypedPath {
    type V = Seq<char>;

    open spec fn view(&self) -> Seq<char> {
        match self {
            TypedPath::Windows(p) => p@,
            TypedPath::Unix(p) => p@,
            TypedPath::Wsl(p) => p@,
        }
    }
}

impl Clone for TypedPath {
    fn clone(&self) -> (r: Self)
        ensures
            r@ == self@,
            r.format() == self.format(),
    {
        match self {
            TypedPath::Windows(p) => TypedPath::Windows(p.clone()),
            TypedPath::Unix(p) => TypedPath::Unix(p.clone()),
            TypedPath::Wsl(p) => TypedPath::Wsl(p.clone()),
        }
    }
}

impl Path for TypedPath {
    open spec fn format(&self) -> PathType {
        match self {
            TypedPath::Windows(_) => PathType::Windows,
            TypedPath::Unix(_) => PathType::Unix,
            TypedPath::Wsl(_) => PathType::Wsl,
        }
    }

    fn to_windows(&self) -> (r: Result<WindowsPath, ConversionError>) {
        match self {
            TypedPath::Windows(p) => p.to_windows(),
            TypedPath::Unix(p) => p.to_windows(),
            TypedPath::Wsl(p) => p.to_windows(),
        }
    }

    fn to_unix(&self) -> (r: Result<UnixPath, ConversionError>) {
        match self {
            TypedPath::Windows(p) => p.to_unix(),
            TypedPath::Unix(p) => p.to_unix(),
            TypedPath::Wsl(p) => p.to_unix(),
        }
    }

    fn to_wsl(&self) -> (r: Result<WslPath, ConversionError>) {
        match self {
            TypedPath::Windows(p) => p.to_wsl(),
            TypedPath::Unix(p) => p.to_wsl(),
            TypedPath::Wsl(p) => p.to_wsl(),
        }
    }

    fn as_string(&self) -> (s: String) {
        match self {
            TypedPath::Windows(p) => p.as_string(),
            TypedPath::Unix(p) => p.as_string(),
            TypedPath::Wsl(p) => p.as_string(),
        }
    }

    fn get_type(&self) -> (t: PathType) {
        match self {
            TypedPath::Windows(_) => PathType::Windows,
            TypedPath::Unix(_) => PathType::Unix,
            TypedPath::Wsl(_) => PathType::Wsl,
        }
    }
}

/// Converts a path to the given convention.
///
/// Converting to the path's own convention always succeeds and changes
/// nothing. A successful result is a valid path of the target convention.
pub fn convert(path: &TypedPath, target: PathType) -> (r: Result<TypedPath, ConversionError>)
    ensures
        text_of(r) == convert_text(path.format(), path@, target),
        r matches Ok(p) ==> p.format() == target && is_valid_text(target, p@),
{
    match target {
        PathType::Windows => match path.to_windows() {
            Ok(p) => {
                proof {
                    use_type_invariant(&p);
                }
                Ok(TypedPath::Windows(p))
            },
            Err(e) => Err(e),
        },
        PathType::Unix => match path.to_unix() {
            Ok(p) => {
                proof {
                    use_type_invariant(&p);
                }
                Ok(TypedPath::Unix(p))
            },
            Err(e) => Err(e),
        },
        PathType::Wsl => match path.to_wsl() {
            Ok(p) => {
                proof {
                    use_type_invariant(&p);
                }
                Ok(TypedPath::Wsl(p))
            },
            Err(e) => Err(e),
        },
    }
}

} // verus!
