//! Normal mode: registry-level commands (new, close, rename, write, open),
//! buffer rotation, and the nested popup sub-states for renaming a buffer
//! and fuzzy-opening a file.

use vstd::prelude::*;

use crate::app::{ApplicationState, RegistryView};
use crate::buffer::join_lines;
use crate::bufferentry::{
    BufferEntry, DocView, is_whitespace_char, is_word_whitespace, lemma_scan_ws_back_unique,
    lemma_scan_ws_unique, scan_ws, scan_ws_back,
};
use crate::mode::{action_view, ActionView, EditorAction, Key, KeyInput};
use crate::modeutil::{rotate_buffer, rotate_spec};

verus! {

/// The nested sub-state of normal mode: which popup, if any, is open.
#[derive(Clone, Copy, PartialEq, Eq, Structural, Debug)]
pub enum ActivePopup {
    Closed,
    RenameBuffer,
    OpenFile,
}

/// The normal-mode handler: the popup sub-state plus the fuzzy-open query
/// and its current suggestion.
pub struct NormalMode {
    pub active_popup: ActivePopup,
    pub fuzzy_open_search: String,
    pub fuzzy_open_suggestion: String,
}

/// The mathematical state of the normal-mode handler.
#[verifier::ext_equal]
pub ghost struct NormalModeView {
    pub active_popup: ActivePopup,
    pub fuzzy_open_search: Seq<char>,
    pub fuzzy_open_suggestion: Seq<char>,
}

impl View for NormalMode {
    type V = NormalModeView;

    open spec fn view(&self) -> NormalModeView {
        NormalModeView {
            active_popup: self.active_popup,
            fuzzy_open_search: self.fuzzy_open_search@,
            fuzzy_open_suggestion: self.fuzzy_open_suggestion@,
        }
    }
}

/// Relies on `String::push`: appends the given character to the string.
#[verifier::external_body]
fn push_char(s: &mut String, c: char)
    ensures
        final(s)@ == old(s)@.push(c),
{
    s.push(c);
}

/// Relies on `String::pop`: removes and returns the last character, or
/// returns `None` and leaves the string alone if it is empty.
#[verifier::external_body]
fn pop_char(s: &mut String) -> (r: Option<char>)
    ensures
        old(s)@.len() == 0 ==> r is None && final(s)@ == old(s)@,
        old(s)@.len() > 0 ==> r == Some(old(s)@.last()) && final(s)@ == old(s)@.drop_last(),
{
    s.pop()
}

/// `s` without leading and trailing white space: empty if all of `s` is
/// white space, otherwise the span from its first to its last non-white
/// character.
pub open spec fn trim_spec(s: Seq<char>) -> Seq<char> {
    let a = scan_ws(s, 0);
    if a == s.len() {
        Seq::empty()
    } else {
        s.subrange(a as int, scan_ws_back(s, s.len()) as int)
    }
}

/// A copy of `s` without leading and trailing white space; see `trim_spec`.
fn trim_string(s: &String) -> (r: String)
    ensures
        r@ == trim_spec(s@),
{
    let st = s.as_str();
    let n = st.unicode_len();
    let mut a: usize = 0;
    while a < n && is_whitespace_char(st.get_char(a))
        invariant
            a <= n,
            n == st@.len(),
            st@ == s@,
            forall|m: int| 0 <= m < a ==> is_word_whitespace(st@[m]),
        decreases n - a,
    {
        a += 1;
    }
    proof {
        lemma_scan_ws_unique(s@, 0, a as nat);
    }
    if a == n {
        return String::new();
    }
    let mut b: usize = n;
    while b > a && is_whitespace_char(st.get_char(b - 1))
        invariant
            a <= b <= n,
            n == st@.len(),
            st@ == s@,
            a < n,
            !is_word_whitespace(st@[a as int]),
            forall|m: int| b <= m < n ==> is_word_whitespace(st@[m]),
        decreases b,
    {
        b -= 1;
    }
    proof {
        assert(b > a);
        lemma_scan_ws_back_unique(s@, n as nat, b as nat);
    }
    let trimmed = st.substring_char(a, b);
    trimmed.to_owned()
}

/// Whether `prefix` is a prefix of `s`.
pub open spec fn starts_with_spec(s: Seq<char>, prefix: Seq<char>) -> bool {
    prefix.len() <= s.len() && s.subrange(0, prefix.len() as int) == prefix
}

/// Whether the name `s` starts with the characters of `prefix`.
fn string_starts_with(s: &String, prefix: &String) -> (r: bool)
    ensures
        r == starts_with_spec(s@, prefix@),
{
    let st = s.as_str();
    let pf = prefix.as_str();
    let n = st.unicode_len();
    let p = pf.unicode_len();
    if p > n {
        assert(!starts_with_spec(s@, prefix@));
        return false;
    }
    let mut i: usize = 0;
    while i < p
        invariant
            i <= p <= n,
            n == st@.len(),
            p == pf@.len(),
            st@ == s@,
            pf@ == prefix@,
            forall|m: int| 0 <= m < i ==> st@[m] == pf@[m],
        decreases p - i,
    {
        if st.get_char(i) != pf.get_char(i) {
            proof {
                assert(s@.subrange(0, prefix@.len() as int)[i as int] == s@[i as int]);
            }
            return false;
        }
        i += 1;
    }
    proof {
        assert(s@.subrange(0, prefix@.len() as int) =~= prefix@);
    }
    true
}

/// The last of the given names that starts with `query`, or `dflt` if none
/// does.
pub open spec fn last_match(files: Seq<Seq<char>>, query: Seq<char>, dflt: Seq<char>) -> Seq<char>
    decreases files.len(),
{
    if files.len() == 0 {
        dflt
    } else if starts_with_spec(files.last(), query) {
        files.last()
    } else {
        last_match(files.drop_last(), query, dflt)
    }
}

/// The handler state after the fuzzy-open suggestion is refreshed against
/// the given file names: an empty query clears the suggestion; otherwise the
/// last matching name replaces it, and a query with no match leaves the old
/// suggestion standing.
pub open spec fn update_suggestions_spec(m: NormalModeView, files: Seq<Seq<char>>) -> NormalModeView {
    if m.fuzzy_open_search.len() == 0 {
        NormalModeView { fuzzy_open_suggestion: Seq::empty(), ..m }
    } else {
        NormalModeView {
            fuzzy_open_suggestion: last_match(files, m.fuzzy_open_search, m.fuzzy_open_suggestion),
            ..m
        }
    }
}

/// A fresh document named "untitled" with one empty line.
pub open spec fn untitled_doc() -> DocView {
    DocView {
        name: "untitled"@,
        lines: seq![Seq::<char>::empty()],
        cursor_line: 0,
        cursor_position: 0,
        modified: false,
        scroll_offset: 0,
        selection_start: None,
        selection_end: None,
    }
}

/// The registry after the "new buffer" command: a fresh document named
/// "untitled" is appended and becomes active.
pub open spec fn new_buffer_spec(s: RegistryView) -> RegistryView {
    RegistryView { buffers: s.buffers.push(untitled_doc()), current: s.buffers.len(), ..s }
}

/// The registry after the "close buffer" command: the active document is
/// removed and the active index steps back by one, stopping at zero.
pub open spec fn close_buffer_spec(s: RegistryView) -> RegistryView {
    RegistryView {
        buffers: s.buffers.remove(s.current as int),
        current: if s.current == 0 {
            0
        } else {
            (s.current - 1) as nat
        },
        ..s
    }
}

/// Safety: closing the last remaining document leaves an empty, well-formed
/// registry, with the active index back at zero.
pub proof fn lemma_close_last_buffer(s: RegistryView)
    requires
        s.wf(),
        s.buffers.len() == 1,
    ensures
        close_buffer_spec(s).buffers.len() == 0,
        close_buffer_spec(s).current == 0,
        close_buffer_spec(s).wf(),
{
}

/// Appends a fresh document named "untitled" and makes it active.
pub fn new_buffer(app_state: &mut ApplicationState)
    requires
        old(app_state)@.wf(),
    ensures
        final(app_state)@ == new_buffer_spec(old(app_state)@),
        final(app_state)@.wf(),
{
    let mut buff = BufferEntry::default();
    buff.name = String::from_str("untitled");
    let ghost bv = buff@;
    app_state.buffers.push(buff);
    app_state.current_buffer = app_state.buffers.len() - 1;
    proof {
        assert(bv.lines =~= seq![Seq::<char>::empty()]);
        assert(bv =~~= untitled_doc());
        assert(final(app_state)@ =~~= new_buffer_spec(old(app_state)@));
    }
}

/// Removes the active document; the active index steps back by one. The
/// registry must not be empty. Closing a modified document loses its changes.
pub fn close_buffer(app_state: &mut ApplicationState)
    requires
        old(app_state)@.wf(),
        old(app_state)@.buffers.len() > 0,
    ensures
        final(app_state)@ == close_buffer_spec(old(app_state)@),
        final(app_state)@.wf(),
{
    app_state.buffers.remove(app_state.current_buffer);
    app_state.current_buffer = if app_state.current_buffer > 0 {
        app_state.current_buffer - 1
    } else {
        0
    };
    proof {
        assert(final(app_state)@ =~~= close_buffer_spec(old(app_state)@));
        assert forall|i: int|
            0 <= i < final(app_state)@.buffers.len() implies final(app_state)@.buffers[i].wf() by {
            if i < old(app_state)@.current {
                assert(old(app_state)@.buffers[i].wf());
            } else {
                assert(old(app_state)@.buffers[i + 1].wf());
            }
        }
    }
}

/// The registry after the "write buffer" command: the active document's
/// modification flag is cleared; its serialized content is handed out as a
/// write action.
pub open spec fn write_buffer_spec(s: RegistryView) -> RegistryView {
    s.with_cur_doc(DocView { modified: false, ..s.cur_doc() })
}

/// Clears the active document's modification flag and returns the action
/// that writes its serialized content to the file named after the document.
/// The registry must not be empty.
pub fn write_buffer(app_state: &mut ApplicationState) -> (r: Option<EditorAction>)
    requires
        old(app_state)@.wf(),
        old(app_state)@.buffers.len() > 0,
    ensures
        final(app_state)@ == write_buffer_spec(old(app_state)@),
        final(app_state)@.wf(),
        (r matches Some(EditorAction::WriteFile { name, content }) && name@ == old(app_state)@.cur_doc().name
            && content@ == join_lines(old(app_state)@.cur_doc().lines)),
{
    let idx = app_state.current_buffer;
    let buffer = &mut app_state.buffers[idx];
    buffer.modified = false;
    let name = buffer.name.clone();
    let content = buffer.buffer.to_text();
    proof {
        assert(final(app_state)@ =~~= write_buffer_spec(old(app_state)@));
    }
    Some(EditorAction::WriteFile { name, content })
}

impl NormalMode {
    /// The name shown for this mode in the header.
    pub fn mode_name(&self) -> (r: &'static str)
        ensures
            r@ == "NORMAL"@,
    {
        "NORMAL"
    }

    /// Opens the rename popup, unless the registry is empty.
    pub fn rename_buffer(&mut self, app_state: &ApplicationState)
        ensures
            final(self)@ == if app_state@.buffers.len() == 0 {
                old(self)@
            } else {
                (NormalModeView { active_popup: ActivePopup::RenameBuffer, ..old(self)@ })
            },
    {
        if app_state.buffers.is_empty() {
            return;
        }
        self.active_popup = ActivePopup::RenameBuffer;
    }

    /// Opens the fuzzy file-open popup.
    pub fn open_file(&mut self, _app_state: &ApplicationState)
        ensures
            final(self)@ == (NormalModeView { active_popup: ActivePopup::OpenFile, ..old(self)@ }),
    {
        self.active_popup = ActivePopup::OpenFile;
    }

    /// Refreshes the fuzzy-open suggestion against the given file names; see
    /// `update_suggestions_spec`.
    pub fn update_suggestions(&mut self, files: &Vec<String>)
        ensures
            final(self)@ == update_suggestions_spec(old(self)@, files.deep_view()),
    {
        if self.fuzzy_open_search.as_str().is_empty() {
            self.fuzzy_open_suggestion = String::new();
            return;
        }
        let mut i: usize = 0;
        while i < files.len()
            invariant
                i <= files@.len(),
                self.fuzzy_open_search == old(self).fuzzy_open_search,
                self.active_popup == old(self).active_popup,
                self.fuzzy_open_suggestion@ == last_match(
                    files.deep_view().take(i as int),
                    old(self)@.fuzzy_open_search,
                    old(self)@.fuzzy_open_suggestion,
                ),
            decreases files@.len() - i,
        {
            let ghost prefix = files.deep_view().take(i as int);
            if string_starts_with(&files[i], &self.fuzzy_open_search) {
                self.fuzzy_open_suggestion = files[i].clone();
            }
            i += 1;
            proof {
                let next = files.deep_view().take(i as int);
                assert(next.drop_last() =~= prefix);
                assert(next.last() == files@[i - 1]@);
            }
        }
        proof {
            assert(files.deep_view().take(files@.len() as int) =~= files.deep_view());
        }
    }
}

/// The handler and registry after normal mode, with no popup open, handles
/// `key`: letters run the registry commands, the arrow keys rotate buffers,
/// and enter dismisses any popup state.
pub open spec fn normal_default_step(m: NormalModeView, s: RegistryView, key: KeyInput) -> (
    NormalModeView,
    RegistryView,
    Option<ActionView>,
) {
    match key.code {
        Key::Char(c) => if c == 'n' {
            (m, new_buffer_spec(s), None)
        } else if c == 'c' {
            if s.buffers.len() > 0 {
                (m, close_buffer_spec(s), None)
            } else {
                (m, s, None)
            }
        } else if c == 'a' {
            (
                if s.buffers.len() == 0 {
                    m
                } else {
                    NormalModeView { active_popup: ActivePopup::RenameBuffer, ..m }
                },
                s,
                None,
            )
        } else if c == 'w' {
            if s.buffers.len() > 0 {
                (
                    m,
                    write_buffer_spec(s),
                    Some(
                        ActionView::Write {
                            name: s.cur_doc().name,
                            content: join_lines(s.cur_doc().lines),
                        },
                    ),
                )
            } else {
                (m, s, None)
            }
        } else if c == 'o' {
            (NormalModeView { active_popup: ActivePopup::OpenFile, ..m }, s, None)
        } else {
            (m, s, None)
        },
        Key::Left => if s.buffers.len() > 0 {
            (m, rotate_spec(s, -1), None)
        } else {
            (m, s, None)
        },
        Key::Right => if s.buffers.len() > 0 {
            (m, rotate_spec(s, 1), None)
        } else {
            (m, s, None)
        },
        Key::Enter => (NormalModeView { active_popup: ActivePopup::Closed, ..m }, s, None),
        _ => (m, s, None),
    }
}

/// The handler and registry after the rename popup handles `key`: typing
/// edits the active document's name, and enter commits it trimmed — unless
/// the trimmed name is empty, in which case the popup stays open.
pub open spec fn normal_rename_step(
    m: NormalModeView,
    s: RegistryView,
    key: KeyInput,
    files: Seq<Seq<char>>,
) -> (NormalModeView, RegistryView) {
    if s.buffers.len() == 0 {
        (m, s)
    } else {
        match key.code {
            Key::Enter => {
                let trimmed = trim_spec(s.cur_doc().name);
                let s1 = s.with_cur_doc(DocView { name: trimmed, ..s.cur_doc() });
                if trimmed.len() == 0 {
                    (m, s1)
                } else {
                    (
                        NormalModeView {
                            active_popup: ActivePopup::Closed,
                            fuzzy_open_search: Seq::empty(),
                            fuzzy_open_suggestion: Seq::empty(),
                        },
                        s1,
                    )
                }
            },
            Key::Char(c) => (
                update_suggestions_spec(m, files),
                s.with_cur_doc(DocView { name: s.cur_doc().name.push(c), ..s.cur_doc() }),
            ),
            Key::Backspace => (
                update_suggestions_spec(m, files),
                s.with_cur_doc(
                    DocView {
                        name: if s.cur_doc().name.len() > 0 {
                            s.cur_doc().name.drop_last()
                        } else {
                            s.cur_doc().name
                        },
                        ..s.cur_doc()
                    },
                ),
            ),
            _ => (m, s),
        }
    }
}

/// The handler after the fuzzy-open popup handles `key`: typing edits the
/// query and refreshes the suggestion; enter, with a suggestion at hand,
/// closes the popup and asks for that file to be opened.
pub open spec fn normal_open_file_step(
    m: NormalModeView,
    key: KeyInput,
    files: Seq<Seq<char>>,
) -> (NormalModeView, Option<ActionView>) {
    match key.code {
        Key::Enter => if m.fuzzy_open_suggestion.len() == 0 {
            (m, None)
        } else {
            (
                NormalModeView { active_popup: ActivePopup::Closed, ..m },
                Some(ActionView::Open { name: m.fuzzy_open_suggestion }),
            )
        },
        Key::Char(c) => (
            update_suggestions_spec(
                NormalModeView { fuzzy_open_search: m.fuzzy_open_search.push(c), ..m },
                files,
            ),
            None,
        ),
        Key::Backspace => (
            update_suggestions_spec(
                NormalModeView {
                    fuzzy_open_search: if m.fuzzy_open_search.len() > 0 {
                        m.fuzzy_open_search.drop_last()
                    } else {
                        m.fuzzy_open_search
                    },
                    ..m
                },
                files,
            ),
            None,
        ),
        _ => (m, None),
    }
}

/// The handler and registry after normal mode handles `key`: a control-
/// modified key is ignored here (mode switching happens above this handler);
/// otherwise the key goes to whichever popup sub-state is open.
pub open spec fn normal_mode_step(
    m: NormalModeView,
    s: RegistryView,
    key: KeyInput,
    files: Seq<Seq<char>>,
) -> (NormalModeView, RegistryView, Option<ActionView>) {
    if key.ctrl {
        (m, s, None)
    } else {
        match m.active_popup {
            ActivePopup::Closed => normal_default_step(m, s, key),
            ActivePopup::RenameBuffer => {
                let st = normal_rename_step(m, s, key, files);
                (st.0, st.1, None)
            },
            ActivePopup::OpenFile => {
                let st = normal_open_file_step(m, key, files);
                (st.0, s, st.1)
            },
        }
    }
}

impl NormalMode {
    /// Handles one key press with no popup open; see `normal_default_step`.
    fn handle_keys_default(&mut self, key_event: KeyInput, app_state: &mut ApplicationState) -> (r:
        Option<EditorAction>)
        requires
            old(app_state)@.wf(),
        ensures
            ({
                let step = normal_default_step(old(self)@, old(app_state)@, key_event);
                final(self)@ == step.0 && final(app_state)@ == step.1 && action_view(r) == step.2
            }),
            final(app_state)@.wf(),
    {
        match key_event.code {
            Key::Char(c) => {
                if c == 'n' {
                    new_buffer(app_state);
                    None
                } else if c == 'c' {
                    if app_state.buffers.len() > 0 {
                        close_buffer(app_state);
                    }
                    None
                } else if c == 'a' {
                    self.rename_buffer(app_state);
                    None
                } else if c == 'w' {
                    if app_state.buffers.len() > 0 {
                        write_buffer(app_state)
                    } else {
                        None
                    }
                } else if c == 'o' {
                    self.open_file(app_state);
                    None
                } else {
                    None
                }
            },
            Key::Left => {
                if app_state.buffers.len() > 0 {
                    rotate_buffer(app_state, -1);
                }
                None
            },
            Key::Right => {
                if app_state.buffers.len() > 0 {
                    rotate_buffer(app_state, 1);
                }
                None
            },
            Key::Enter => {
                self.active_popup = ActivePopup::Closed;
                None
            },
            _ => None,
        }
    }

    /// Handles one key press in the rename popup; see `normal_rename_step`.
    fn handle_keys_rename(
        &mut self,
        key_event: KeyInput,
        app_state: &mut ApplicationState,
        files: &Vec<String>,
    )
        requires
            old(app_state)@.wf(),
        ensures
            ({
                let step = normal_rename_step(
                    old(self)@,
                    old(app_state)@,
                    key_event,
                    files.deep_view(),
                );
                final(self)@ == step.0 && final(app_state)@ == step.1
            }),
            final(app_state)@.wf(),
    {
        if app_state.buffers.len() == 0 {
            return;
        }
        let idx = app_state.current_buffer;
        match key_event.code {
            Key::Enter => {
                let buffer = &mut app_state.buffers[idx];
                let trimmed = trim_string(&buffer.name);
                buffer.name = trimmed;
                let stays_open = buffer.name.as_str().is_empty();
                if !stays_open {
                    self.active_popup = ActivePopup::Closed;
                    self.fuzzy_open_suggestion = String::new();
                    self.fuzzy_open_search = String::new();
                }
                proof {
                    assert(final(app_state)@ =~~= normal_rename_step(
                        old(self)@,
                        old(app_state)@,
                        key_event,
                        files.deep_view(),
                    ).1);
                }
            },
            Key::Char(c) => {
                let buffer = &mut app_state.buffers[idx];
                push_char(&mut buffer.name, c);
                self.update_suggestions(files);
                proof {
                    assert(final(app_state)@ =~~= normal_rename_step(
                        old(self)@,
                        old(app_state)@,
                        key_event,
                        files.deep_view(),
                    ).1);
                }
            },
            Key::Backspace => {
                let buffer = &mut app_state.buffers[idx];
                let _ = pop_char(&mut buffer.name);
                self.update_suggestions(files);
                proof {
                    assert(final(app_state)@ =~~= normal_rename_step(
                        old(self)@,
                        old(app_state)@,
                        key_event,
                        files.deep_view(),
                    ).1);
                }
            },
            _ => {},
        }
    }

    /// Handles one key press in the fuzzy-open popup; see
    /// `normal_open_file_step`.
    fn handle_keys_open_file(&mut self, key_event: KeyInput, files: &Vec<String>) -> (r: Option<
        EditorAction,
    >)
        ensures
            ({
                let step = normal_open_file_step(old(self)@, key_event, files.deep_view());
                final(self)@ == step.0 && action_view(r) == step.1
            }),
    {
        match key_event.code {
            Key::Enter => {
                if self.fuzzy_open_suggestion.as_str().is_empty() {
                    return None;
                }
                let name = self.fuzzy_open_suggestion.clone();
                self.active_popup = ActivePopup::Closed;
                Some(EditorAction::OpenFile { name })
            },
            Key::Char(c) => {
                push_char(&mut self.fuzzy_open_search, c);
                self.update_suggestions(files);
                None
            },
            Key::Backspace => {
                let _ = pop_char(&mut self.fuzzy_open_search);
                self.update_suggestions(files);
                None
            },
            _ => None,
        }
    }

    /// Handles one key press in normal mode, routing it to whichever popup
    /// sub-state is open; see `normal_mode_step`. `files` is the caller's
    /// listing of the working directory, against which the fuzzy-open
    /// suggestion is refreshed.
    pub fn handle_key_event(
        &mut self,
        key_event: KeyInput,
        app_state: &mut ApplicationState,
        files: &Vec<String>,
    ) -> (r: Option<EditorAction>)
        requires
            old(app_state)@.wf(),
        ensures
            ({
                let step = normal_mode_step(
                    old(self)@,
                    old(app_state)@,
                    key_event,
                    files.deep_view(),
                );
                final(self)@ == step.0 && final(app_state)@ == step.1 && action_view(r) == step.2
            }),
            final(app_state)@.wf(),
    {
        if key_event.ctrl {
            return None;
        }
        match self.active_popup {
            ActivePopup::Closed => self.handle_keys_default(key_event, app_state),
            ActivePopup::RenameBuffer => {
                self.handle_keys_rename(key_event, app_state, files);
                None
            },
            ActivePopup::OpenFile => self.handle_keys_open_file(key_event, files),
        }
    }
}

impl Default for NormalMode {
    /// Normal mode starts with no popup open and an empty fuzzy query.
    fn default() -> (m: NormalMode)
        ensures
            m@.active_popup == ActivePopup::Closed,
            m@.fuzzy_open_search == Seq::<char>::empty(),
            m@.fuzzy_open_suggestion == Seq::<char>::empty(),
    {
        NormalMode {
            active_popup: ActivePopup::Closed,
            fuzzy_open_search: String::new(),
            fuzzy_open_suggestion: String::new(),
        }
    }
}

} // verus!
