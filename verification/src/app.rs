//! The document registry and the editor's top-level state: the ordered
//! collection of open documents, the active-document index, the viewport
//! size, and the mode dispatcher.

use vstd::prelude::*;

use crate::bufferentry::{BufferEntry, DocView};
use crate::insertmode::{insert_mode_step, InsertMode};
use crate::mode::{action_view, ActionView, EditorAction, Key, KeyInput, Mode};
use crate::navigationmode::{navigation_mode_step, NavigationMode};
use crate::normalmode::{normal_mode_step, NormalMode, NormalModeView};
use crate::selectmode::{select_mode_step, SelectMode};

verus! {

/// The mathematical state of the document registry.
#[verifier::ext_equal]
pub ghost struct RegistryView {
    pub buffers: Seq<DocView>,
    pub current: nat,
    pub window_size: (u16, u16),
    pub ctrl_active: bool,
}

impl RegistryView {
    /// The active index points at an existing document (or is zero while the
    /// registry is empty), and every document is well formed.
    pub open spec fn wf(self) -> bool {
        &&& (self.buffers.len() == 0 ==> self.current == 0)
        &&& (self.buffers.len() > 0 ==> self.current < self.buffers.len())
        &&& (forall|i: int| 0 <= i < self.buffers.len() ==> self.buffers[i].wf())
    }

    /// The active document.
    pub open spec fn cur_doc(self) -> DocView {
        self.buffers[self.current as int]
    }

    /// The registry with the active document replaced by `d`.
    pub open spec fn with_cur_doc(self, d: DocView) -> RegistryView {
        RegistryView { buffers: self.buffers.update(self.current as int, d), ..self }
    }
}

/// The document registry: the open documents, which one is active, and the
/// viewport size the renderer reported last.
pub struct ApplicationState {
    pub buffers: Vec<BufferEntry>,
    pub current_buffer: usize,
    pub window_size: (u16, u16),
    pub ctrl_active: bool,
}

impl View for ApplicationState {
    type V = RegistryView;

    open spec fn view(&self) -> RegistryView {
        RegistryView {
            buffers: Seq::new(self.buffers@.len(), |i: int| self.buffers@[i]@),
            current: self.current_buffer as nat,
            window_size: self.window_size,
            ctrl_active: self.ctrl_active,
        }
    }
}

/// The registry after a file's lines are opened as a new document: the
/// document is appended and becomes active.
pub open spec fn open_file_spec(s: RegistryView, name: Seq<char>, lines: Seq<Seq<char>>) -> RegistryView {
    RegistryView {
        buffers: s.buffers.push(
            DocView {
                name: name,
                lines: lines,
                cursor_line: 0,
                cursor_position: 0,
                modified: false,
                scroll_offset: 0,
                selection_start: None,
                selection_end: None,
            },
        ),
        current: s.buffers.len(),
        ..s
    }
}

impl ApplicationState {
    /// An empty registry: no documents, the active index at zero.
    pub fn new() -> (s: ApplicationState)
        ensures
            s@.buffers == Seq::<DocView>::empty(),
            s@.current == 0,
            s@.window_size == (0u16, 0u16),
            !s@.ctrl_active,
            s@.wf(),
    {
        let s = ApplicationState {
            buffers: Vec::new(),
            current_buffer: 0,
            window_size: (0, 0),
            ctrl_active: false,
        };
        proof {
            assert(s@.buffers =~= Seq::<DocView>::empty());
        }
        s
    }

    /// Opens the given lines, read from the file called `name`, as a new
    /// document at the end of the registry and makes it active.
    pub fn open_file(&mut self, name: String, lines: &Vec<String>)
        requires
            old(self)@.wf(),
        ensures
            final(self)@ == open_file_spec(old(self)@, name@, lines.deep_view()),
            final(self)@.wf(),
    {
        let ghost name_view = name@;
        let entry = BufferEntry::from_lines(name, lines);
        let ghost entry_view = entry@;
        self.buffers.push(entry);
        self.current_buffer = self.buffers.len() - 1;
        proof {
            assert(entry_view.lines =~~= lines.deep_view());
            assert(final(self)@ =~~= open_file_spec(old(self)@, name_view, lines.deep_view()));
        }
    }
}

/// The mathematical state of the whole editor core.
#[verifier::ext_equal]
pub ghost struct AppView {
    pub exit: bool,
    pub current_mode: Mode,
    pub state: RegistryView,
    pub normal: NormalModeView,
}

impl AppView {
    /// The registry is well formed; the stateless mode handlers add nothing.
    pub open spec fn wf(self) -> bool {
        self.state.wf()
    }
}

/// The whole editor core: the registry, the active mode, the per-mode
/// handlers, and the exit flag. The renderer reads this state; one key event
/// at a time mutates it through `handle_key`.
pub struct App {
    pub exit: bool,
    pub current_mode: Mode,
    pub app_state: ApplicationState,
    pub normal_mode: NormalMode,
    pub insert_mode: InsertMode,
    pub navigation_mode: NavigationMode,
    pub select_mode: SelectMode,
}

impl View for App {
    type V = AppView;

    open spec fn view(&self) -> AppView {
        AppView {
            exit: self.exit,
            current_mode: self.current_mode,
            state: self.app_state@,
            normal: self.normal_mode@,
        }
    }
}

/// The editor after one key event: the control flag is recorded; a
/// control-modified letter switches mode (insert only with a document open)
/// or, for other letters, runs the navigate keymap; escape requests exit;
/// and the event is then routed to the handler of the (possibly new) active
/// mode, whose answer is the action handed back.
pub open spec fn app_step(a: AppView, key: KeyInput, files: Seq<Seq<char>>) -> (
    AppView,
    Option<ActionView>,
) {
    let a1 = AppView { state: RegistryView { ctrl_active: key.ctrl, ..a.state }, ..a };
    let a2 = if key.ctrl {
        match key.code {
            Key::Char(c) => if c == 'e' {
                if a1.state.buffers.len() > 0 {
                    AppView { current_mode: Mode::Insert, ..a1 }
                } else {
                    a1
                }
            } else if c == 'w' {
                AppView { current_mode: Mode::Select, ..a1 }
            } else if c == 'q' {
                AppView { current_mode: Mode::Normal, ..a1 }
            } else {
                AppView { state: navigation_mode_step(a1.state, key), ..a1 }
            },
            _ => a1,
        }
    } else {
        a1
    };
    let a3 = if key.code is Esc {
        AppView { exit: true, ..a2 }
    } else {
        a2
    };
    match a3.current_mode {
        Mode::Normal => {
            let st = normal_mode_step(a3.normal, a3.state, key, files);
            (AppView { normal: st.0, state: st.1, ..a3 }, st.2)
        },
        Mode::Insert => (AppView { state: insert_mode_step(a3.state, key), ..a3 }, None),
        Mode::Navigate => (AppView { state: navigation_mode_step(a3.state, key), ..a3 }, None),
        Mode::Select => (AppView { state: select_mode_step(a3.state, key), ..a3 }, None),
    }
}

impl App {
    /// A fresh editor: normal mode, an empty registry, no popup open, not
    /// about to exit.
    pub fn new() -> (app: App)
        ensures
            !app@.exit,
            app@.current_mode == Mode::Normal,
            app@.state.buffers == Seq::<DocView>::empty(),
            app@.state.current == 0,
            app@.normal.active_popup == crate::normalmode::ActivePopup::Closed,
            app@.normal.fuzzy_open_search == Seq::<char>::empty(),
            app@.normal.fuzzy_open_suggestion == Seq::<char>::empty(),
            app@.wf(),
    {
        App {
            exit: false,
            current_mode: Mode::Normal,
            app_state: ApplicationState::new(),
            normal_mode: NormalMode::default(),
            insert_mode: InsertMode,
            navigation_mode: NavigationMode {},
            select_mode: SelectMode {},
        }
    }

    /// Handles one key event to completion; see `app_step`. `files` is the
    /// caller's listing of the working directory, used by the fuzzy-open
    /// popup. The returned action, if any, is outside work for the caller.
    pub fn handle_key(&mut self, key_event: KeyInput, files: &Vec<String>) -> (r: Option<
        EditorAction,
    >)
        requires
            old(self)@.wf(),
        ensures
            ({
                let step = app_step(old(self)@, key_event, files.deep_view());
                final(self)@ == step.0 && action_view(r) == step.1
            }),
            final(self)@.wf(),
    {
        self.app_state.ctrl_active = key_event.ctrl;
        if key_event.ctrl {
            match key_event.code {
                Key::Char(c) => {
                    if c == 'e' {
                        if self.app_state.buffers.len() > 0 {
                            self.current_mode = Mode::Insert;
                        }
                    } else if c == 'w' {
                        self.current_mode = Mode::Select;
                    } else if c == 'q' {
                        self.current_mode = Mode::Normal;
                    } else {
                        self.navigation_mode.handle_key_event(key_event, &mut self.app_state);
                    }
                },
                _ => {},
            }
        }
        match key_event.code {
            Key::Esc => {
                self.exit = true;
            },
            _ => {},
        }
        match self.current_mode {
            Mode::Normal => self.normal_mode.handle_key_event(
                key_event,
                &mut self.app_state,
                files,
            ),
            Mode::Insert => {
                self.insert_mode.handle_key_event(key_event, &mut self.app_state);
                None
            },
            Mode::Navigate => {
                self.navigation_mode.handle_key_event(key_event, &mut self.app_state);
                None
            },
            Mode::Select => {
                self.select_mode.handle_key_event(key_event, &mut self.app_state);
                None
            },
        }
    }
}

impl Default for ApplicationState {
    /// The default registry is empty, like `ApplicationState::new`.
    fn default() -> (s: ApplicationState)
        ensures
            s@.buffers == Seq::<DocView>::empty(),
            s@.current == 0,
            s@.window_size == (0u16, 0u16),
            !s@.ctrl_active,
            s@.wf(),
    {
        ApplicationState::new()
    }
}

} // verus!
