//! Registry helpers shared by the modes: cyclic buffer rotation and the
//! windowing rule for the header's buffer list.

use vstd::prelude::*;

use crate::app::{ApplicationState, RegistryView};

verus! {

/// How many buffer names fit in the header before an ellipsis is shown.
pub const MAX_BUFFERS_TO_SHOW: usize = 6;

/// The registry with the active index advanced one step forward
/// (`direction == 1`) or backward (`direction == -1`), cyclically: stepping
/// forward off the last document wraps to the first, and stepping backward
/// off the first wraps to the last.
pub open spec fn rotate_spec(s: RegistryView, direction: int) -> RegistryView {
    let len = s.buffers.len();
    let cur: nat = if direction == 1 {
        if s.current + 1 < len {
            s.current + 1
        } else {
            0
        }
    } else {
        if s.current == 0 {
            (len - 1) as nat
        } else {
            (s.current - 1) as nat
        }
    };
    RegistryView { current: cur, ..s }
}

/// The registry after `k` single steps forward.
pub open spec fn rotate_n_spec(s: RegistryView, k: nat) -> RegistryView
    decreases k,
{
    if k == 0 {
        s
    } else {
        rotate_spec(rotate_n_spec(s, (k - 1) as nat), 1)
    }
}

proof fn lemma_rotate_n_current(s: RegistryView, k: nat)
    requires
        s.wf(),
        s.buffers.len() > 0,
        k <= s.buffers.len(),
    ensures
        rotate_n_spec(s, k).buffers == s.buffers,
        rotate_n_spec(s, k).window_size == s.window_size,
        rotate_n_spec(s, k).ctrl_active == s.ctrl_active,
        rotate_n_spec(s, k).current == if s.current + k < s.buffers.len() {
            s.current + k
        } else {
            (s.current + k - s.buffers.len()) as nat
        },
    decreases k,
{
    if k > 0 {
        lemma_rotate_n_current(s, (k - 1) as nat);
    }
}

/// Cyclic: rotating forward once per open document returns the active index
/// to where it started.
pub proof fn lemma_rotate_full_cycle(s: RegistryView)
    requires
        s.wf(),
        s.buffers.len() > 0,
    ensures
        rotate_n_spec(s, s.buffers.len()) == s,
{
    lemma_rotate_n_current(s, s.buffers.len());
}

/// Advances the active buffer cyclically by one step in the given direction.
/// The registry must not be empty.
pub fn rotate_buffer(app_state: &mut ApplicationState, direction: i32)
    requires
        old(app_state)@.wf(),
        old(app_state)@.buffers.len() > 0,
        direction == -1 || direction == 1,
    ensures
        final(app_state)@ == rotate_spec(old(app_state)@, direction as int),
        final(app_state)@.wf(),
{
    let len = app_state.buffers.len();
    if direction == 1 {
        app_state.current_buffer = if app_state.current_buffer + 1 < len {
            app_state.current_buffer + 1
        } else {
            0
        };
    } else {
        app_state.current_buffer = if app_state.current_buffer == 0 {
            len - 1
        } else {
            app_state.current_buffer - 1
        };
    }
    proof {
        assert(final(app_state)@ =~~= rotate_spec(old(app_state)@, direction as int));
    }
}

/// How many leading buffer names the header skips so that the active one is
/// visible among the `MAX_BUFFERS_TO_SHOW` names it has room for.
pub fn header_buffers_to_skip(num_buffers: usize, current_buffer: usize) -> (skip: usize)
    ensures
        skip == if num_buffers > MAX_BUFFERS_TO_SHOW {
            if current_buffer > num_buffers - MAX_BUFFERS_TO_SHOW {
                (num_buffers - MAX_BUFFERS_TO_SHOW) as int
            } else {
                current_buffer as int
            }
        } else {
            0int
        },
{
    if num_buffers > MAX_BUFFERS_TO_SHOW {
        if current_buffer > num_buffers - MAX_BUFFERS_TO_SHOW {
            num_buffers - MAX_BUFFERS_TO_SHOW
        } else {
            current_buffer
        }
    } else {
        0
    }
}

} // verus!
