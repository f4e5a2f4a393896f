//! The modal dispatch vocabulary: the editor's modes, the shape of one key
//! press as the dispatch logic reads it, and the outside work a dispatch can
//! ask its caller to carry out.

use vstd::prelude::*;

verus! {

/// The input-interpretation states of the editor.
#[derive(Clone, Copy, PartialEq, Eq, Structural, Debug)]
pub enum Mode {
    Normal,
    Insert,
    Navigate,
    Select,
}

impl Default for Mode {
    /// The editor starts in normal mode.
    fn default() -> (m: Mode)
        ensures
            m == Mode::Normal,
    {
        Mode::Normal
    }
}

/// The keys the dispatch logic distinguishes; anything else is `Other`.
#[derive(Clone, Copy, PartialEq, Eq, Structural, Debug)]
pub enum Key {
    Char(char),
    Backspace,
    Enter,
    Up,
    Down,
    Left,
    Right,
    Esc,
    Other,
}

/// One key press: the key itself and whether control was held.
#[derive(Clone, Copy, PartialEq, Eq, Structural, Debug)]
pub struct KeyInput {
    pub code: Key,
    pub ctrl: bool,
}

impl KeyInput {
    /// A plain press of `code`, without the control modifier.
    pub fn plain(code: Key) -> (k: KeyInput)
        ensures
            k == (KeyInput { code, ctrl: false }),
    {
        KeyInput { code, ctrl: false }
    }

    /// A press of `code` with the control modifier held.
    pub fn control(code: Key) -> (k: KeyInput)
        ensures
            k == (KeyInput { code, ctrl: true }),
    {
        KeyInput { code, ctrl: true }
    }
}

/// Outside work that a key dispatch asks its caller to carry out; the
/// dispatch itself never touches a file.
pub enum EditorAction {
    /// Write `content` as the contents of the file called `name`.
    WriteFile { name: String, content: Vec<char> },
    /// Load the file called `name` and open it as a new document.
    OpenFile { name: String },
}

/// The mathematical reading of an action.
pub ghost enum ActionView {
    Write { name: Seq<char>, content: Seq<char> },
    Open { name: Seq<char> },
}

/// The mathematical reading of what a dispatch returned.
pub open spec fn action_view(a: Option<EditorAction>) -> Option<ActionView> {
    match a {
        Some(EditorAction::WriteFile { name, content }) => Some(
            ActionView::Write { name: name@, content: content@ },
        ),
        Some(EditorAction::OpenFile { name }) => Some(ActionView::Open { name: name@ }),
        None => None,
    }
}

} // verus!
