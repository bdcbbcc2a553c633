//! The paste session: what each keyboard event does to the selection.
//!
//! The session is either idle or holds one selection. It is driven by the
//! key events that the keyboard listener delivers and by the clipboard text
//! that the caller fetches when asked to. Each step says what the caller has
//! to do next; the session itself touches neither clipboard nor display.

use vstd::prelude::*;
use crate::grammar::classify_text;
use crate::path_selection::{
    candidates, initial_position, is_selectable, labelled, next_position, previous_position,
    PathSelection, PathSelectionInfo,
};

verus! {

/// The message of a key going down.
pub const KEY_DOWN: u32 = 0x0100;

/// The message of a key going up.
pub const KEY_UP: u32 = 0x0101;

/// The virtual key code of the `V` key.
pub const KEY_V: u32 = 0x56;

/// The virtual key code of the left control key.
pub const KEY_LEFT_CONTROL: u32 = 0xA2;

/// The virtual key code of the right control key.
pub const KEY_RIGHT_CONTROL: u32 = 0xA3;

/// One keyboard event, with the state of the modifiers at its time.
#[derive(Clone, Copy, Debug, PartialEq, Eq, Structural)]
pub struct KeyEvent {
    pub message: u32,
    pub key: u32,
    pub control_down: bool,
    pub shift_down: bool,
}

/// What a key event means to the session.
#[derive(Clone, Copy, Debug, PartialEq, Eq, Structural)]
pub enum KeyKind {
    /// The paste key went down while control was held.
    Paste,
    /// A control key went up.
    Release,
    /// Anything else.
    Other,
}

/// What the caller has to do after a step of the session.
#[derive(Debug)]
pub enum Reaction {
    /// Nothing; the key is passed on.
    Pass,
    /// Fetch the clipboard text and offer it to the session. Where there is
    /// no text to fetch, the key is passed on.
    ReadClipboard,
    /// Show the snapshot where the pointer is; the key is swallowed.
    Open(PathSelectionInfo),
    /// Show the snapshot; the key is swallowed.
    Show(PathSelectionInfo),
    /// Hide the display and paste the text; the key is swallowed.
    Paste(String),
}

/// The meaning of a key event.
pub open spec fn kind_of(event: KeyEvent) -> KeyKind {
    if event.message == KEY_DOWN && event.key == KEY_V && event.control_down {
        KeyKind::Paste
    } else if event.message == KEY_UP && (event.key == KEY_LEFT_CONTROL || event.key
        == KEY_RIGHT_CONTROL) {
        KeyKind::Release
    } else {
        KeyKind::Other
    }
}

/// What a key event means to the session.
pub fn key_kind(event: &KeyEvent) -> (kind: KeyKind)
    ensures
        kind == kind_of(*event),
{
    if event.message == KEY_DOWN && event.key == KEY_V && event.control_down {
        KeyKind::Paste
    } else if event.message == KEY_UP && (event.key == KEY_LEFT_CONTROL || event.key
        == KEY_RIGHT_CONTROL) {
        KeyKind::Release
    } else {
        KeyKind::Other
    }
}

/// The state that the key events drive: idle, or holding one selection.
pub struct Session {
    selection: Option<PathSelection>,
}

impl Session {
    /// The selection that the session holds, if any.
    pub closed spec fn selection(&self) -> Option<PathSelection> {
        self.selection
    }

    /// An idle session.
    pub fn new() -> (session: Session)
        ensures
            session.selection() is None,
    {
        Session { selection: None }
    }

    /// Whether the session holds a selection.
    pub fn is_active(&self) -> (active: bool)
        ensures
            active == self.selection() is Some,
    {
        self.selection.is_some()
    }

    /// Takes one key event.
    ///
    /// - The paste key while a selection is held moves the choice: back
    ///   where shift is down, forward where it is not. The new state is to
    ///   be shown.
    /// - The paste key while idle asks for the clipboard text.
    /// - The release of a control key while a selection is held ends the
    ///   session: the chosen text is to be pasted.
    /// - Everything else is passed on, and nothing changes.
    pub fn handle_key(&mut self, event: &KeyEvent) -> (reaction: Reaction)
        ensures
            match (kind_of(*event), old(self).selection()) {
                (KeyKind::Paste, Some(before)) => {
                    &&& final(self).selection() matches Some(after)
                    &&& after.origin() == before.origin()
                    &&& after.entries() == before.entries()
                    &&& after.position() == if event.shift_down {
                        previous_position(before.position(), before.entries().len() as int)
                    } else {
                        next_position(before.position(), before.entries().len() as int)
                    }
                    &&& reaction matches Reaction::Show(info)
                    &&& info.shown() == labelled(after.entries())
                    &&& info.selected == after.position()
                },
                (KeyKind::Paste, None) => {
                    &&& final(self).selection() is None
                    &&& reaction is ReadClipboard
                },
                (KeyKind::Release, Some(before)) => {
                    &&& final(self).selection() is None
                    &&& reaction matches Reaction::Paste(text)
                    &&& text@ == before.entries()[before.position()].1
                },
                _ => {
                    &&& final(self).selection() == old(self).selection()
                    &&& reaction is Pass
                },
            },
    {
        match key_kind(event) {
            KeyKind::Paste => {
                match &mut self.selection {
                    Some(selection) => {
                        if event.shift_down {
                            selection.previous();
                        } else {
                            selection.next();
                        }
                        Reaction::Show(selection.get_info())
                    },
                    None => Reaction::ReadClipboard,
                }
            },
            KeyKind::Release => {
                match self.selection.take() {
                    Some(selection) => Reaction::Paste(selection.get_selected_path_string()),
                    None => Reaction::Pass,
                }
            },
            KeyKind::Other => Reaction::Pass,
        }
    }

    /// Takes the clipboard text that a paste key asked for.
    ///
    /// Where the text gives a selection, the session holds it from now on
    /// and it is to be shown; where it gives none, the session is idle and
    /// the key is passed on. What the session held before is gone either
    /// way.
    pub fn offer_text(&mut self, text: String) -> (reaction: Reaction)
        ensures
            is_selectable(text@) ==> {
                &&& final(self).selection() matches Some(selection)
                &&& classify_text(text@) matches Some(format)
                &&& selection.origin() == text@
                &&& selection.entries() == candidates(format, text@)
                &&& selection.position() == initial_position(format, text@)
                &&& reaction matches Reaction::Open(info)
                &&& info.shown() == labelled(selection.entries())
                &&& info.selected == selection.position()
            },
            !is_selectable(text@) ==> final(self).selection() is None && reaction is Pass,
    {
        self.selection = PathSelection::new(text);
        match &self.selection {
            Some(selection) => Reaction::Open(selection.get_info()),
            None => Reaction::Pass,
        }
    }

    /// Ends the session, whatever it holds.
    pub fn dismiss(&mut self)
        ensures
            final(self).selection() is None,
    {
        self.selection = None;
    }
}

} // verus!
