//! Insert mode: literal typing, backspace, line breaks and arrow movement on
//! the active document; with control held, the arrow keys rotate buffers.

use vstd::prelude::*;

use crate::app::{ApplicationState, RegistryView};
use crate::bufferentry::{
    add_character_spec, move_cursor_down_spec, move_cursor_left_spec, move_cursor_right_spec,
    move_cursor_up_spec, new_line_spec, remove_character_spec,
};
use crate::mode::{Key, KeyInput};
use crate::modeutil::{rotate_buffer, rotate_spec};

verus! {

/// The insert-mode handler; it carries no state of its own.
pub struct InsertMode;

/// The registry after insert mode handles `key`: with control held the
/// arrow keys rotate buffers; otherwise the key edits the active document.
/// An empty registry is left untouched.
pub open spec fn insert_mode_step(s: RegistryView, key: KeyInput) -> RegistryView {
    if s.buffers.len() == 0 {
        s
    } else if key.ctrl {
        match key.code {
            Key::Left => rotate_spec(s, -1),
            Key::Right => rotate_spec(s, 1),
            _ => s,
        }
    } else {
        let h = s.window_size.1;
        match key.code {
            Key::Char(c) => s.with_cur_doc(add_character_spec(s.cur_doc(), c)),
            Key::Backspace => s.with_cur_doc(remove_character_spec(s.cur_doc(), h)),
            Key::Enter => s.with_cur_doc(new_line_spec(s.cur_doc(), h)),
            Key::Up => s.with_cur_doc(move_cursor_up_spec(s.cur_doc(), h)),
            Key::Down => s.with_cur_doc(move_cursor_down_spec(s.cur_doc(), h)),
            Key::Left => s.with_cur_doc(move_cursor_left_spec(s.cur_doc())),
            Key::Right => s.with_cur_doc(move_cursor_right_spec(s.cur_doc())),
            _ => s,
        }
    }
}

impl InsertMode {
    /// The name shown for this mode in the header.
    pub fn mode_name(&self) -> (r: &'static str)
        ensures
            r@ == "INSERT"@,
    {
        "INSERT"
    }

    /// Handles one key press in insert mode; see `insert_mode_step`.
    pub fn handle_key_event(&mut self, key_event: KeyInput, app_state: &mut ApplicationState)
        requires
            old(app_state)@.wf(),
        ensures
            final(app_state)@ == insert_mode_step(old(app_state)@, key_event),
            final(app_state)@.wf(),
            *final(self) == *old(self),
    {
        if app_state.buffers.len() == 0 {
            return;
        }
        if key_event.ctrl {
            match key_event.code {
                Key::Left => rotate_buffer(app_state, -1),
                Key::Right => rotate_buffer(app_state, 1),
                _ => {},
            }
            return;
        }
        let h = app_state.window_size.1;
        let idx = app_state.current_buffer;
        let buffer = &mut app_state.buffers[idx];
        proof {
            assert(old(app_state)@.buffers[idx as int].wf());
            assert(buffer@ == old(app_state)@.buffers[idx as int]);
        }
        match key_event.code {
            Key::Char(c) => buffer.add_character(c),
            Key::Backspace => buffer.remove_character(h),
            Key::Enter => buffer.new_line(h),
            Key::Up => buffer.move_cursor_up(h),
            Key::Down => buffer.move_cursor_down(h),
            Key::Left => buffer.move_cursor_left(),
            Key::Right => buffer.move_cursor_right(),
            _ => {},
        }
        proof {
            assert(final(app_state)@ =~~= insert_mode_step(old(app_state)@, key_event));
        }
    }
}

} // verus!
