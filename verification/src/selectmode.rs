//! Select mode: the navigate keymap, but every movement drags the selection
//! end along with the cursor; a dedicated key clears the selection.

use vstd::prelude::*;

use crate::app::{ApplicationState, RegistryView};
use crate::bufferentry::{
    clear_selection_spec, extend_selection_spec, goto_line_end_spec, goto_line_start_spec,
    move_cursor_left_spec, move_cursor_right_spec, skip_word_backward_spec, skip_word_forward_spec,
};
use crate::mode::{Key, KeyInput};

verus! {

/// The select-mode handler; it carries no state of its own.
pub struct SelectMode {}

/// The registry after select mode handles `key`: a movement letter moves the
/// cursor of the active document and then extends the selection to it, and
/// `q` clears the selection. An empty registry is left untouched.
pub open spec fn select_mode_step(s: RegistryView, key: KeyInput) -> RegistryView {
    if s.buffers.len() == 0 {
        s
    } else {
        match key.code {
            Key::Char(c) => if c == 'q' {
                s.with_cur_doc(clear_selection_spec(s.cur_doc()))
            } else if c == 's' {
                s.with_cur_doc(extend_selection_spec(goto_line_start_spec(s.cur_doc())))
            } else if c == 'd' {
                s.with_cur_doc(extend_selection_spec(skip_word_backward_spec(s.cur_doc())))
            } else if c == 'f' {
                s.with_cur_doc(extend_selection_spec(move_cursor_left_spec(s.cur_doc())))
            } else if c == 'k' {
                s.with_cur_doc(extend_selection_spec(skip_word_forward_spec(s.cur_doc())))
            } else if c == 'j' {
                s.with_cur_doc(extend_selection_spec(move_cursor_right_spec(s.cur_doc())))
            } else if c == 'l' {
                s.with_cur_doc(extend_selection_spec(goto_line_end_spec(s.cur_doc())))
            } else {
                s
            },
            _ => s,
        }
    }
}

impl SelectMode {
    /// The name shown for this mode in the header.
    pub fn mode_name(&self) -> (r: &'static str)
        ensures
            r@ == "SELECT"@,
    {
        "SELECT"
    }

    /// Handles one key press in select mode; see `select_mode_step`.
    pub fn handle_key_event(&mut self, key: KeyInput, app_state: &mut ApplicationState)
        requires
            old(app_state)@.wf(),
        ensures
            final(app_state)@ == select_mode_step(old(app_state)@, key),
            final(app_state)@.wf(),
            *final(self) == *old(self),
    {
        if app_state.buffers.len() == 0 {
            return;
        }
        let idx = app_state.current_buffer;
        let buffer = &mut app_state.buffers[idx];
        proof {
            assert(old(app_state)@.buffers[idx as int].wf());
            assert(buffer@ == old(app_state)@.buffers[idx as int]);
        }
        match key.code {
            Key::Char(c) => {
                if c == 'q' {
                    buffer.clear_selection();
                } else if c == 's' {
                    buffer.goto_line_start();
                    buffer.extend_selection_to_cursor();
                } else if c == 'd' {
                    buffer.skip_word_backward();
                    buffer.extend_selection_to_cursor();
                } else if c == 'f' {
                    buffer.move_cursor_left();
                    buffer.extend_selection_to_cursor();
                } else if c == 'k' {
                    buffer.skip_word_forward();
                    buffer.extend_selection_to_cursor();
                } else if c == 'j' {
                    buffer.move_cursor_right();
                    buffer.extend_selection_to_cursor();
                } else if c == 'l' {
                    buffer.goto_line_end();
                    buffer.extend_selection_to_cursor();
                }
            },
            _ => {},
        }
        proof {
            assert(final(app_state)@ =~~= select_mode_step(old(app_state)@, key));
        }
    }
}

} // verus!
