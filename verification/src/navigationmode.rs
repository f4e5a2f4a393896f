//! Navigate mode: non-destructive cursor movement on the active document
//! through a single-letter keymap; with control held, the arrow keys rotate
//! buffers.

use vstd::prelude::*;

use crate::app::{ApplicationState, RegistryView};
use crate::bufferentry::{
    goto_line_end_spec, goto_line_start_spec, move_cursor_down_spec, move_cursor_left_spec,
    move_cursor_page_down_spec, move_cursor_page_up_spec, move_cursor_right_spec,
    move_cursor_up_spec, skip_word_backward_spec, skip_word_forward_spec,
};
use crate::mode::{Key, KeyInput};
use crate::modeutil::{rotate_buffer, rotate_spec};

verus! {

/// The navigate-mode handler; it carries no state of its own.
pub struct NavigationMode {}

/// The registry after navigate mode handles `key`: with control held the
/// arrow keys first rotate buffers; a letter key then moves the cursor of
/// the (possibly newly) active document. An empty registry is left
/// untouched.
pub open spec fn navigation_mode_step(s: RegistryView, key: KeyInput) -> RegistryView {
    if s.buffers.len() == 0 {
        s
    } else {
        let s1 = if key.ctrl {
            match key.code {
                Key::Left => rotate_spec(s, -1),
                Key::Right => rotate_spec(s, 1),
                _ => s,
            }
        } else {
            s
        };
        let h = s1.window_size.1;
        match key.code {
            Key::Char(c) => if c == 's' {
                s1.with_cur_doc(goto_line_start_spec(s1.cur_doc()))
            } else if c == 'd' {
                s1.with_cur_doc(skip_word_backward_spec(s1.cur_doc()))
            } else if c == 'f' {
                s1.with_cur_doc(move_cursor_left_spec(s1.cur_doc()))
            } else if c == 'k' {
                s1.with_cur_doc(skip_word_forward_spec(s1.cur_doc()))
            } else if c == 'j' {
                s1.with_cur_doc(move_cursor_right_spec(s1.cur_doc()))
            } else if c == 'l' {
                s1.with_cur_doc(goto_line_end_spec(s1.cur_doc()))
            } else if c == 'v' {
                s1.with_cur_doc(move_cursor_up_spec(s1.cur_doc(), h))
            } else if c == 'b' {
                s1.with_cur_doc(move_cursor_down_spec(s1.cur_doc(), h))
            } else if c == 'c' {
                s1.with_cur_doc(move_cursor_page_up_spec(s1.cur_doc(), h))
            } else if c == 'n' {
                s1.with_cur_doc(move_cursor_page_down_spec(s1.cur_doc(), h))
            } else {
                s1
            },
            _ => s1,
        }
    }
}

impl NavigationMode {
    /// The name shown for this mode in the header.
    pub fn mode_name(&self) -> (r: &'static str)
        ensures
            r@ == "NAV"@,
    {
        "NAV"
    }

    /// Handles one key press in navigate mode; see `navigation_mode_step`.
    pub fn handle_key_event(&mut self, key_event: KeyInput, app_state: &mut ApplicationState)
        requires
            old(app_state)@.wf(),
        ensures
            final(app_state)@ == navigation_mode_step(old(app_state)@, key_event),
            final(app_state)@.wf(),
            *final(self) == *old(self),
    {
        if app_state.buffers.len() == 0 {
            return;
        }
        if key_event.ctrl {
            match key_event.code {
                Key::Left => rotate_buffer(app_state, -1),
                Key::Right => rotate_buffer(app_state, 1),
                _ => {},
            }
        }
        let h = app_state.window_size.1;
        let idx = app_state.current_buffer;
        let ghost s1 = app_state@;
        let buffer = &mut app_state.buffers[idx];
        proof {
            assert(s1.buffers[idx as int].wf());
            assert(buffer@ == s1.buffers[idx as int]);
        }
        match key_event.code {
            Key::Char(c) => {
                if c == 's' {
                    buffer.goto_line_start();
                } else if c == 'd' {
                    buffer.skip_word_backward();
                } else if c == 'f' {
                    buffer.move_cursor_left();
                } else if c == 'k' {
                    buffer.skip_word_forward();
                } else if c == 'j' {
                    buffer.move_cursor_right();
                } else if c == 'l' {
                    buffer.goto_line_end();
                } else if c == 'v' {
                    buffer.move_cursor_up(h);
                } else if c == 'b' {
                    buffer.move_cursor_down(h);
                } else if c == 'c' {
                    buffer.move_cursor_page_up(h);
                } else if c == 'n' {
                    buffer.move_cursor_page_down(h);
                }
            },
            _ => {},
        }
        proof {
            assert(final(app_state)@ =~~= navigation_mode_step(old(app_state)@, key_event));
        }
    }
}

} // verus!
