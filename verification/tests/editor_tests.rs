use moo::app::{App, ApplicationState};
use moo::mode::{EditorAction, Key, KeyInput, Mode};
use moo::modeutil::{header_buffers_to_skip, rotate_buffer};
use moo::normalmode::{close_buffer, new_buffer, write_buffer, ActivePopup, NormalMode};

fn state_with_buffers(n: usize) -> ApplicationState {
    let mut s = ApplicationState::new();
    for _ in 0..n {
        new_buffer(&mut s);
    }
    s
}

fn no_files() -> Vec<String> {
    Vec::new()
}

#[test]
pub fn rotate_backward_wraps_to_last() {
    // a registry of three documents with the first one active: one step
    // backward wraps around to the last
    let mut s = state_with_buffers(3);
    s.current_buffer = 0;
    rotate_buffer(&mut s, -1);
    assert_eq!(s.current_buffer, 2);
}

#[test]
pub fn rotate_full_cycle_returns_to_start() {
    let mut s = state_with_buffers(3);
    s.current_buffer = 1;
    rotate_buffer(&mut s, 1);
    rotate_buffer(&mut s, 1);
    rotate_buffer(&mut s, 1);
    assert_eq!(s.current_buffer, 1);
}

#[test]
pub fn new_buffer_appends_untitled_and_activates_it() {
    let mut s = ApplicationState::new();
    new_buffer(&mut s);
    assert_eq!(s.buffers.len(), 1);
    assert_eq!(s.current_buffer, 0);
    assert_eq!(s.buffers[0].name, "untitled");
    assert_eq!(s.buffers[0].buffer.num_lines(), 1);
    assert!(!s.buffers[0].modified);
}

#[test]
pub fn close_last_buffer_leaves_empty_registry() {
    let mut s = state_with_buffers(1);
    close_buffer(&mut s);
    assert_eq!(s.buffers.len(), 0);
    assert_eq!(s.current_buffer, 0);
}

#[test]
pub fn close_buffer_steps_active_index_back() {
    let mut s = state_with_buffers(3);
    assert_eq!(s.current_buffer, 2);
    close_buffer(&mut s);
    assert_eq!(s.buffers.len(), 2);
    assert_eq!(s.current_buffer, 1);
}

#[test]
pub fn write_buffer_clears_modified_and_serializes() {
    let mut s = state_with_buffers(1);
    s.buffers[0].add_character('h');
    s.buffers[0].add_character('i');
    assert!(s.buffers[0].modified);
    let action = write_buffer(&mut s);
    assert!(!s.buffers[0].modified);
    match action {
        Some(EditorAction::WriteFile { name, content }) => {
            assert_eq!(name, "untitled");
            let text: String = content.iter().collect();
            assert_eq!(text, "hi\n");
        },
        _ => panic!("expected a write action"),
    }
}

#[test]
pub fn open_file_appends_document_and_activates_it() {
    let mut s = state_with_buffers(1);
    let lines = vec!["a".to_string(), "b".to_string(), "c".to_string()];
    s.open_file("notes.txt".to_string(), &lines);
    assert_eq!(s.buffers.len(), 2);
    assert_eq!(s.current_buffer, 1);
    assert_eq!(s.buffers[1].name, "notes.txt");
    assert_eq!(s.buffers[1].buffer.num_lines(), 3);
    let ln: String = s.buffers[1].buffer.line_at(1).unwrap().iter().collect();
    assert_eq!(ln, "b");
}

#[test]
pub fn update_suggestions_takes_last_match() {
    let files = vec!["abc".to_string(), "b".to_string(), "ab".to_string()];
    let mut m = NormalMode::default();
    m.fuzzy_open_search = "ab".to_string();
    m.update_suggestions(&files);
    assert_eq!(m.fuzzy_open_suggestion, "ab");

    // no matching name leaves the previous suggestion standing
    m.fuzzy_open_search = "zz".to_string();
    m.update_suggestions(&files);
    assert_eq!(m.fuzzy_open_suggestion, "ab");

    // an empty query clears the suggestion
    m.fuzzy_open_search = String::new();
    m.update_suggestions(&files);
    assert_eq!(m.fuzzy_open_suggestion, "");
}

#[test]
pub fn escape_requests_exit() {
    let mut app = App::new();
    app.handle_key(KeyInput::plain(Key::Esc), &no_files());
    assert!(app.exit);
}

#[test]
pub fn control_keys_switch_modes() {
    let mut app = App::new();
    assert_eq!(app.current_mode, Mode::Normal);
    // insert mode is not reachable while no document is open
    app.handle_key(KeyInput::control(Key::Char('e')), &no_files());
    assert_eq!(app.current_mode, Mode::Normal);
    app.handle_key(KeyInput::plain(Key::Char('n')), &no_files());
    app.handle_key(KeyInput::control(Key::Char('e')), &no_files());
    assert_eq!(app.current_mode, Mode::Insert);
    app.handle_key(KeyInput::control(Key::Char('w')), &no_files());
    assert_eq!(app.current_mode, Mode::Select);
    app.handle_key(KeyInput::control(Key::Char('q')), &no_files());
    assert_eq!(app.current_mode, Mode::Normal);
}

#[test]
pub fn typing_in_insert_mode_edits_active_document() {
    let mut app = App::new();
    app.handle_key(KeyInput::plain(Key::Char('n')), &no_files());
    app.handle_key(KeyInput::control(Key::Char('e')), &no_files());
    app.handle_key(KeyInput::plain(Key::Char('h')), &no_files());
    app.handle_key(KeyInput::plain(Key::Char('i')), &no_files());
    let doc = &app.app_state.buffers[0];
    let ln: String = doc.buffer.line_at(0).unwrap().iter().collect();
    assert_eq!(ln, "hi");
    assert_eq!(doc.cursor_position, 2);
    assert!(doc.modified);
}

#[test]
pub fn control_arrows_rotate_in_insert_mode() {
    let mut app = App::new();
    app.handle_key(KeyInput::plain(Key::Char('n')), &no_files());
    app.handle_key(KeyInput::plain(Key::Char('n')), &no_files());
    app.handle_key(KeyInput::plain(Key::Char('n')), &no_files());
    app.handle_key(KeyInput::control(Key::Char('e')), &no_files());
    assert_eq!(app.app_state.current_buffer, 2);
    app.handle_key(KeyInput::control(Key::Right), &no_files());
    assert_eq!(app.app_state.current_buffer, 0);
    app.handle_key(KeyInput::control(Key::Left), &no_files());
    assert_eq!(app.app_state.current_buffer, 2);
}

#[test]
pub fn select_mode_extends_and_clears_selection() {
    let mut app = App::new();
    app.handle_key(KeyInput::plain(Key::Char('n')), &no_files());
    app.handle_key(KeyInput::control(Key::Char('e')), &no_files());
    for c in "argh foo".chars() {
        app.handle_key(KeyInput::plain(Key::Char(c)), &no_files());
    }
    let doc = &mut app.app_state.buffers[0];
    doc.goto_line_start();
    app.handle_key(KeyInput::control(Key::Char('w')), &no_files());
    assert_eq!(app.current_mode, Mode::Select);
    app.handle_key(KeyInput::plain(Key::Char('k')), &no_files());
    let doc = &app.app_state.buffers[0];
    assert_eq!(doc.selection_start, Some((0, 4)));
    assert_eq!(doc.selection_end, Some((0, 4)));
    app.handle_key(KeyInput::plain(Key::Char('j')), &no_files());
    let doc = &app.app_state.buffers[0];
    assert_eq!(doc.selection_end, Some((0, 5)));
    app.handle_key(KeyInput::plain(Key::Char('q')), &no_files());
    let doc = &app.app_state.buffers[0];
    assert_eq!(doc.selection_start, None);
    assert_eq!(doc.selection_end, None);
}

#[test]
pub fn navigate_mode_moves_without_selecting() {
    let mut app = App::new();
    app.handle_key(KeyInput::plain(Key::Char('n')), &no_files());
    app.handle_key(KeyInput::control(Key::Char('e')), &no_files());
    for c in "one two".chars() {
        app.handle_key(KeyInput::plain(Key::Char(c)), &no_files());
    }
    // a control-modified letter that is not a mode switch runs the navigate
    // keymap from any mode
    app.handle_key(KeyInput::control(Key::Char('s')), &no_files());
    let doc = &app.app_state.buffers[0];
    assert_eq!(doc.cursor_position, 0);
    assert_eq!(doc.selection_start, None);
    app.handle_key(KeyInput::control(Key::Char('k')), &no_files());
    let doc = &app.app_state.buffers[0];
    assert_eq!(doc.cursor_position, 3);
}

#[test]
pub fn fuzzy_open_popup_suggests_and_opens() {
    let files = vec!["notes.txt".to_string(), "nachos.txt".to_string()];
    let mut app = App::new();
    app.handle_key(KeyInput::plain(Key::Char('o')), &files);
    assert_eq!(app.normal_mode.active_popup, ActivePopup::OpenFile);
    app.handle_key(KeyInput::plain(Key::Char('n')), &files);
    assert_eq!(app.normal_mode.fuzzy_open_search, "n");
    assert_eq!(app.normal_mode.fuzzy_open_suggestion, "nachos.txt");
    app.handle_key(KeyInput::plain(Key::Char('o')), &files);
    assert_eq!(app.normal_mode.fuzzy_open_search, "no");
    assert_eq!(app.normal_mode.fuzzy_open_suggestion, "notes.txt");
    // backspace drops the last typed character again
    app.handle_key(KeyInput::plain(Key::Backspace), &files);
    assert_eq!(app.normal_mode.fuzzy_open_search, "n");
    assert_eq!(app.normal_mode.fuzzy_open_suggestion, "nachos.txt");
    let action = app.handle_key(KeyInput::plain(Key::Enter), &files);
    match action {
        Some(EditorAction::OpenFile { name }) => assert_eq!(name, "nachos.txt"),
        _ => panic!("expected an open action"),
    }
    assert_eq!(app.normal_mode.active_popup, ActivePopup::Closed);
}

#[test]
pub fn rename_popup_commits_trimmed_name() {
    let mut app = App::new();
    app.handle_key(KeyInput::plain(Key::Char('n')), &no_files());
    app.handle_key(KeyInput::plain(Key::Char('a')), &no_files());
    assert_eq!(app.normal_mode.active_popup, ActivePopup::RenameBuffer);
    app.handle_key(KeyInput::plain(Key::Char(' ')), &no_files());
    app.handle_key(KeyInput::plain(Key::Char('x')), &no_files());
    app.handle_key(KeyInput::plain(Key::Char(' ')), &no_files());
    assert_eq!(app.app_state.buffers[0].name, "untitled x ");
    app.handle_key(KeyInput::plain(Key::Enter), &no_files());
    assert_eq!(app.app_state.buffers[0].name, "untitled x");
    assert_eq!(app.normal_mode.active_popup, ActivePopup::Closed);
}

#[test]
pub fn rename_to_blank_name_keeps_popup_open() {
    let mut app = App::new();
    app.handle_key(KeyInput::plain(Key::Char('n')), &no_files());
    app.handle_key(KeyInput::plain(Key::Char('a')), &no_files());
    for _ in 0.."untitled".len() {
        app.handle_key(KeyInput::plain(Key::Backspace), &no_files());
    }
    app.handle_key(KeyInput::plain(Key::Char(' ')), &no_files());
    app.handle_key(KeyInput::plain(Key::Enter), &no_files());
    assert_eq!(app.app_state.buffers[0].name, "");
    assert_eq!(app.normal_mode.active_popup, ActivePopup::RenameBuffer);
}

#[test]
pub fn normal_mode_arrows_rotate_buffers() {
    let mut app = App::new();
    app.handle_key(KeyInput::plain(Key::Char('n')), &no_files());
    app.handle_key(KeyInput::plain(Key::Char('n')), &no_files());
    app.handle_key(KeyInput::plain(Key::Left), &no_files());
    assert_eq!(app.app_state.current_buffer, 0);
    app.handle_key(KeyInput::plain(Key::Left), &no_files());
    assert_eq!(app.app_state.current_buffer, 1);
    app.handle_key(KeyInput::plain(Key::Right), &no_files());
    assert_eq!(app.app_state.current_buffer, 0);
}

#[test]
pub fn commands_on_empty_registry_do_nothing() {
    let mut app = App::new();
    app.handle_key(KeyInput::plain(Key::Char('c')), &no_files());
    app.handle_key(KeyInput::plain(Key::Char('w')), &no_files());
    app.handle_key(KeyInput::plain(Key::Char('a')), &no_files());
    app.handle_key(KeyInput::plain(Key::Left), &no_files());
    assert_eq!(app.app_state.buffers.len(), 0);
    assert_eq!(app.app_state.current_buffer, 0);
    assert_eq!(app.normal_mode.active_popup, ActivePopup::Closed);
}

#[test]
pub fn header_skips_to_keep_active_buffer_visible() {
    assert_eq!(header_buffers_to_skip(4, 2), 0);
    assert_eq!(header_buffers_to_skip(10, 2), 2);
    assert_eq!(header_buffers_to_skip(10, 9), 4);
}
