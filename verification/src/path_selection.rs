//! The cyclic selection among the renderings of one path.
//!
//! A selection is made from one text. It holds, in the fixed order Windows,
//! Unix, WSL, every convention that the text can be written in, and the
//! position of the rendering that is currently chosen.

use vstd::prelude::*;
use vstd::arithmetic::div_mod::{lemma_mod_add_multiples_vanish, lemma_small_mod};
use crate::conversion::{convert_text, lemma_conversion_is_valid};
use crate::grammar::{classify, classify_text, is_valid_text, lemma_classification};
use crate::path::{Path, PathType, TypedPath, UnixPath, WindowsPath, WslPath};

verus! {

/// One rendering: a convention and the text in it.
pub type Rendering = (PathType, Seq<char>);

/// The rendering of `text` in convention `target`, as a sequence of one
/// item, or of none where the conversion fails.
pub open spec fn candidate(origin: PathType, text: Seq<char>, target: PathType) -> Seq<Rendering> {
    match convert_text(origin, text, target) {
        Ok(converted) => seq![(target, converted)],
        Err(_) => seq![],
    }
}

/// Every rendering that a path `text` of convention `origin` has, in the
/// order Windows, Unix, WSL.
pub open spec fn candidates(origin: PathType, text: Seq<char>) -> Seq<Rendering> {
    candidate(origin, text, PathType::Windows) + candidate(origin, text, PathType::Unix)
        + candidate(origin, text, PathType::Wsl)
}

/// Where the rendering in the path's own convention stands among its
/// candidates.
pub open spec fn initial_position(origin: PathType, text: Seq<char>) -> int {
    match origin {
        PathType::Windows => 0,
        PathType::Unix => candidate(origin, text, PathType::Windows).len() as int,
        PathType::Wsl => (candidate(origin, text, PathType::Windows).len() + candidate(
            origin,
            text,
            PathType::Unix,
        ).len()) as int,
    }
}

/// Whether a text gives a selection: it must be a path, and have at least
/// two renderings to choose from.
pub open spec fn is_selectable(text: Seq<char>) -> bool {
    classify_text(text) matches Some(origin) && candidates(origin, text).len() >= 2
}

/// The position after `position` in a cycle of `len` positions.
pub open spec fn next_position(position: int, len: int) -> int {
    (position + 1) % len
}

/// The position before `position` in a cycle of `len` positions.
pub open spec fn previous_position(position: int, len: int) -> int {
    (position + len - 1) % len
}

/// The label under which a convention is shown.
pub open spec fn label_text(format: PathType) -> Seq<char> {
    match format {
        PathType::Windows => "Win"@,
        PathType::Unix => "Unix"@,
        PathType::Wsl => "WSL"@,
    }
}

/// The renderings of one path and the position of the one that is chosen.
pub struct PathSelection {
    options: Vec<TypedPath>,
    current: usize,
    origin: Ghost<Seq<char>>,
}

/// One line of a snapshot: the label of a convention and the path in it.
#[derive(Debug)]
pub struct PathSelectionInfoEntry {
    pub label: String,
    pub path: String,
}

/// A snapshot of a selection for display.
#[derive(Debug)]
pub struct PathSelectionInfo {
    pub options: Vec<PathSelectionInfoEntry>,
    pub selected: usize,
}

/// The renderings held by a vector of paths.
pub open spec fn renderings(options: Seq<TypedPath>) -> Seq<Rendering> {
    Seq::new(options.len(), |i: int| (options[i].format(), options[i]@))
}

impl PathSelectionInfo {
    /// What a snapshot shows: the label and the text of each option.
    pub open spec fn shown(&self) -> Seq<(Seq<char>, Seq<char>)> {
        Seq::new(self.options@.len(), |i: int| (self.options@[i].label@, self.options@[i].path@))
    }
}

impl Clone for PathSelectionInfoEntry {
    fn clone(&self) -> (r: Self)
        ensures
            r.label@ == self.label@,
            r.path@ == self.path@,
    {
        PathSelectionInfoEntry { label: self.label.clone(), path: self.path.clone() }
    }
}

impl Clone for PathSelectionInfo {
    fn clone(&self) -> (r: Self)
        ensures
            r.shown() == self.shown(),
            r.selected == self.selected,
    {
        let mut options: Vec<PathSelectionInfoEntry> = Vec::new();
        let mut i: usize = 0;
        while i < self.options.len()
            invariant
                i <= self.options.len(),
                options@.len() == i,
                forall|j: int|
                    0 <= j < i ==> (#[trigger] options@[j]).label@ == self.options@[j].label@
                        && options@[j].path@ == self.options@[j].path@,
            decreases self.options.len() - i,
        {
            options.push(self.options[i].clone());
            i += 1;
        }
        let r = PathSelectionInfo { options, selected: self.selected };
        assert(r.shown() =~= self.shown());
        r
    }
}

/// What is shown for a sequence of renderings.
pub open spec fn labelled(entries: Seq<Rendering>) -> Seq<(Seq<char>, Seq<char>)> {
    Seq::new(entries.len(), |i: int| (label_text(entries[i].0), entries[i].1))
}

impl PathSelection {
    /// The text the selection was made from.
    pub closed spec fn origin(&self) -> Seq<char> {
        self.origin@
    }

    /// The renderings to choose from, in the order Windows, Unix, WSL.
    pub closed spec fn entries(&self) -> Seq<Rendering> {
        renderings(self.options@)
    }

    /// The position of the rendering that is currently chosen.
    pub closed spec fn position(&self) -> int {
        self.current as int
    }

    /// What holds of every selection: its entries are the renderings of the
    /// text it was made from, there are at least two of them, and the
    /// position is one of theirs.
    pub open spec fn is_consistent(&self) -> bool {
        &&& classify_text(self.origin()) matches Some(format)
        &&& self.entries() == candidates(format, self.origin())
        &&& self.entries().len() >= 2
        &&& 0 <= self.position() < self.entries().len()
    }

    #[verifier::type_invariant]
    spec fn consistent(&self) -> bool {
        self.is_consistent()
    }

    /// Takes a text as a path of the convention it is classified as.
    pub fn get_initial_path(path: String) -> (r: Option<TypedPath>)
        ensures
            match classify_text(path@) {
                Some(format) => r matches Some(p) && p.format() == format && p@ == path@,
                None => r is None,
            },
    {
        match classify(path.as_str()) {
            Some(PathType::Windows) => match WindowsPath::new(path) {
                Ok(p) => Some(TypedPath::Windows(p)),
                Err(_) => None,
            },
            Some(PathType::Unix) => match UnixPath::new(path) {
                Ok(p) => Some(TypedPath::Unix(p)),
                Err(_) => None,
            },
            Some(PathType::Wsl) => match WslPath::new(path) {
                Ok(p) => Some(TypedPath::Wsl(p)),
                Err(_) => None,
            },
            None => None,
        }
    }

    /// Makes the selection for a text.
    ///
    /// There is none where the text is no path, or where it has no
    /// rendering but its own. Otherwise the selection holds every rendering
    /// of the text, and the text itself is the one chosen.
    pub fn new(raw_path: String) -> (r: Option<Self>)
        ensures
            is_selectable(raw_path@) <==> r is Some,
            r matches Some(selection) ==> {
                &&& selection.is_consistent()
                &&& classify_text(raw_path@) matches Some(format)
                &&& selection.origin() == raw_path@
                &&& selection.entries() == candidates(format, raw_path@)
                &&& selection.position() == initial_position(format, raw_path@)
                &&& selection.entries()[selection.position()] == (format, raw_path@)
            },
    {
        let ghost text = raw_path@;
        let path = match Self::get_initial_path(raw_path) {
            Some(path) => path,
            None => {
                return None;
            },
        };
        let format = path.get_type();
        let mut options: Vec<TypedPath> = Vec::new();
        match path.to_windows() {
            Ok(p) => {
                options.push(TypedPath::Windows(p));
            },
            Err(_) => {},
        }
        let unix_at: usize = options.len();
        assert(renderings(options@) =~= candidate(format, text, PathType::Windows));
        match path.to_unix() {
            Ok(p) => {
                options.push(TypedPath::Unix(p));
            },
            Err(_) => {},
        }
        let wsl_at: usize = options.len();
        assert(renderings(options@) =~= candidate(format, text, PathType::Windows) + candidate(
            format,
            text,
            PathType::Unix,
        ));
        match path.to_wsl() {
            Ok(p) => {
                options.push(TypedPath::Wsl(p));
            },
            Err(_) => {},
        }
        assert(renderings(options@) =~= candidates(format, text));
        if options.len() < 2 {
            return None;
        }
        let current: usize = match format {
            PathType::Windows => 0,
            PathType::Unix => unix_at,
            PathType::Wsl => wsl_at,
        };
        Some(PathSelection { options, current, origin: Ghost(text) })
    }

    /// Moves the choice to the next rendering, from the last to the first.
    pub fn next(&mut self)
        ensures
            final(self).is_consistent(),
            final(self).origin() == old(self).origin(),
            final(self).entries() == old(self).entries(),
            final(self).position() == next_position(
                old(self).position(),
                old(self).entries().len() as int,
            ),
    {
        proof {
            use_type_invariant(&*self);
        }
        self.current = (self.current + 1) % self.options.len();
    }

    /// Moves the choice to the previous rendering, from the first to the
    /// last.
    pub fn previous(&mut self)
        ensures
            final(self).is_consistent(),
            final(self).origin() == old(self).origin(),
            final(self).entries() == old(self).entries(),
            final(self).position() == previous_position(
                old(self).position(),
                old(self).entries().len() as int,
            ),
    {
        proof {
            use_type_invariant(&*self);
        }
        self.current = (self.current + self.options.len() - 1) % self.options.len();
    }

    /// The text of the rendering that is currently chosen.
    pub fn get_selected_path_string(&self) -> (s: String)
        ensures
            self.is_consistent(),
            s@ == self.entries()[self.position()].1,
    {
        proof {
            use_type_invariant(self);
        }
        self.options[self.current].as_string()
    }

    /// A snapshot for display: each rendering with its label, and the
    /// position of the one that is chosen.
    pub fn get_info(&self) -> (info: PathSelectionInfo)
        ensures
            self.is_consistent(),
            info.shown() == labelled(self.entries()),
            info.selected == self.position(),
    {
        proof {
            use_type_invariant(self);
        }
        let mut options: Vec<PathSelectionInfoEntry> = Vec::new();
        let mut i: usize = 0;
        while i < self.options.len()
            invariant
                i <= self.options.len(),
                options@.len() == i,
                forall|j: int|
                    0 <= j < i ==> (#[trigger] options@[j]).label@ == label_text(
                        self.options@[j].format(),
                    ) && options@[j].path@ == self.options@[j]@,
            decreases self.options.len() - i,
        {
            let option = &self.options[i];
            let label = match option.get_type() {
                PathType::Windows => "Win".to_string(),
                PathType::Unix => "Unix".to_string(),
                PathType::Wsl => "WSL".to_string(),
            };
            options.push(PathSelectionInfoEntry { label, path: option.as_string() });
            i += 1;
        }
        let info = PathSelectionInfo { options, selected: self.current };
        assert(info.shown() =~= labelled(self.entries()));
        info
    }
}

/// The place of a convention in the fixed order Windows, Unix, WSL.
pub open spec fn rank(format: PathType) -> int {
    match format {
        PathType::Windows => 0,
        PathType::Unix => 1,
        PathType::Wsl => 2,
    }
}

/// The position reached from `position` by `steps` moves to the next one.
pub open spec fn advanced(position: int, len: int, steps: nat) -> int
    decreases steps,
{
    if steps == 0 {
        position
    } else {
        next_position(advanced(position, len, (steps - 1) as nat), len)
    }
}

/// The renderings of a valid path: between one and three, each a valid path
/// of its convention, in the order Windows, Unix, WSL with no convention
/// twice, and the path itself at its initial position and nowhere else.
pub proof fn lemma_candidates_shape(origin: PathType, text: Seq<char>)
    requires
        is_valid_text(origin, text),
    ensures
        1 <= candidates(origin, text).len() <= 3,
        forall|i: int|
            0 <= i < candidates(origin, text).len() ==> is_valid_text(
                (#[trigger] candidates(origin, text)[i]).0,
                candidates(origin, text)[i].1,
            ),
        forall|i: int, j: int|
            0 <= i < j < candidates(origin, text).len() ==> rank(
                (#[trigger] candidates(origin, text)[i]).0,
            ) < rank((#[trigger] candidates(origin, text)[j]).0),
        0 <= initial_position(origin, text) < candidates(origin, text).len(),
        candidates(origin, text)[initial_position(origin, text)] == (origin, text),
        forall|i: int|
            0 <= i < candidates(origin, text).len() && (#[trigger] candidates(origin, text)[i]).0
                == origin ==> i == initial_position(origin, text),
{
    lemma_conversion_is_valid(origin, text, PathType::Windows);
    lemma_conversion_is_valid(origin, text, PathType::Unix);
    lemma_conversion_is_valid(origin, text, PathType::Wsl);
}

/// What every selection looks like: two or three renderings, each a valid
/// path of its convention, in the order Windows, Unix, WSL with no
/// convention twice, one of them the text the selection was made from.
pub proof fn lemma_selection_shape(selection: PathSelection)
    requires
        selection.is_consistent(),
    ensures
        2 <= selection.entries().len() <= 3,
        forall|i: int|
            0 <= i < selection.entries().len() ==> is_valid_text(
                (#[trigger] selection.entries()[i]).0,
                selection.entries()[i].1,
            ),
        forall|i: int, j: int|
            0 <= i < j < selection.entries().len() ==> rank(
                (#[trigger] selection.entries()[i]).0,
            ) < rank((#[trigger] selection.entries()[j]).0),
        exists|i: int|
            0 <= i < selection.entries().len() && (#[trigger] selection.entries()[i]).1
                == selection.origin(),
{
    let format = classify_text(selection.origin())->Some_0;
    lemma_classification(selection.origin());
    lemma_candidates_shape(format, selection.origin());
    let at = initial_position(format, selection.origin());
    assert(selection.entries()[at].1 == selection.origin());
}

/// A text gives a selection exactly where it is a path that converts to at
/// least one convention other than its own.
pub proof fn lemma_selectable(text: Seq<char>)
    ensures
        is_selectable(text) <==> (classify_text(text) matches Some(origin) && exists|
            target: PathType,
        |
            target != origin && (#[trigger] convert_text(origin, text, target)) is Ok),
{
    if classify_text(text) is Some {
        let origin = classify_text(text)->Some_0;
        if is_selectable(text) {
            if origin != PathType::Windows && convert_text(origin, text, PathType::Windows) is Ok {
            } else if origin != PathType::Unix && convert_text(origin, text, PathType::Unix) is Ok {
            } else {
                assert(origin != PathType::Wsl);
                assert(convert_text(origin, text, PathType::Wsl) is Ok);
            }
        }
    }
}

/// A Unix path that has no Windows rendering gives no selection: it names
/// no drive, so nothing is left to choose from but the path itself.
pub proof fn lemma_lone_unix_path(text: Seq<char>)
    requires
        classify_text(text) == Some(PathType::Unix),
        convert_text(PathType::Unix, text, PathType::Windows) is Err,
    ensures
        !is_selectable(text),
{
}

/// In a cycle, the next position is the one after, and the first after the
/// last; the previous position is the one before, and the last before the
/// first.
pub proof fn lemma_positions_wrap(position: int, len: int)
    requires
        0 <= position < len,
    ensures
        next_position(position, len) == if position + 1 == len {
            0
        } else {
            position + 1
        },
        previous_position(position, len) == if position == 0 {
            len - 1
        } else {
            position - 1
        },
{
    if position + 1 == len {
        lemma_mod_add_multiples_vanish(0, len);
        lemma_small_mod(0, len as nat);
    } else {
        lemma_small_mod((position + 1) as nat, len as nat);
    }
    if position == 0 {
        lemma_small_mod((len - 1) as nat, len as nat);
    } else {
        lemma_mod_add_multiples_vanish(position - 1, len);
        lemma_small_mod((position - 1) as nat, len as nat);
    }
}

/// One move forward and one move back, in either order, change nothing.
pub proof fn lemma_next_and_previous_cancel(position: int, len: int)
    requires
        0 <= position < len,
    ensures
        previous_position(next_position(position, len), len) == position,
        next_position(previous_position(position, len), len) == position,
{
    lemma_positions_wrap(position, len);
    lemma_positions_wrap(next_position(position, len), len);
    lemma_positions_wrap(previous_position(position, len), len);
}

/// As many moves forward as there are positions lead back to the start.
pub proof fn lemma_full_cycle(position: int, len: int)
    requires
        0 <= position < len,
    ensures
        advanced(position, len, len as nat) == position,
{
    lemma_partial_cycle(position, len, len as nat);
}

/// Where `steps` moves forward lead, for no more moves than positions.
proof fn lemma_partial_cycle(position: int, len: int, steps: nat)
    requires
        0 <= position < len,
        steps <= len,
    ensures
        advanced(position, len, steps) == if position + steps < len {
            position + steps
        } else {
            position + steps - len
        },
    decreases steps,
{
    if steps > 0 {
        lemma_partial_cycle(position, len, (steps - 1) as nat);
        lemma_positions_wrap(advanced(position, len, (steps - 1) as nat), len);
    }
}

/// Among three renderings, three moves forward lead back to the start.
pub proof fn lemma_three_advances(position: int)
    requires
        0 <= position < 3,
    ensures
        next_position(next_position(next_position(position, 3), 3), 3) == position,
{
}

} // verus!
