use moo::buffer::Line;
use moo::bufferentry::BufferEntry;

fn assert_line_equals(l1: &Line, l2: &str) {
    assert_eq!(l1.iter().collect::<String>().as_str(), l2);
}

fn inject_string(b: &mut BufferEntry, s: &str) {
    for c in s.chars() {
        b.add_character(c);
    }
    b.new_line(40);
}

#[test]
pub fn inject_backspace_modifies_buffer() {
    let mut b = BufferEntry::default();
    b.add_character('a');
    b.remove_character(0);

    let ln = b.buffer.line_at(0).unwrap();
    assert_line_equals(ln, "");
}

#[test]
pub fn inject_char_modifies_buffer() {
    let mut b = BufferEntry::default();
    b.add_character('a');

    let ln = b.buffer.line_at(0).unwrap();
    assert_line_equals(ln, "a");
}

#[test]
pub fn inject_enter_modifies_buffer() {
    let mut b = BufferEntry::default();
    b.add_character('a');
    b.new_line(0);

    let ln = b.buffer.line_at(0).unwrap();
    assert_line_equals(ln, "a");

    let ln = b.buffer.line_at(1).unwrap();
    assert_line_equals(ln, "");
}

#[test]
pub fn backspace_on_empty_line_removes_line() {
    let mut b = BufferEntry::default();
    assert_eq!(b.buffer.num_lines(), 1);
    b.remove_character(0);
    assert_eq!(b.buffer.num_lines(), 0);
}

#[test]
pub fn backspace_on_empty_buffer_does_not_crash() {
    let mut b = BufferEntry::default();
    assert_eq!(b.buffer.num_lines(), 1);
    b.remove_character(0);
    b.remove_character(0);
    b.remove_character(0);
    assert_eq!(b.buffer.num_lines(), 0);
}

#[test]
pub fn can_skip_word_forward() {
    let mut b = BufferEntry::default();
    inject_string(&mut b, "argh foo bar");
    b.cursor_line = 0;
    b.goto_line_start();
    b.skip_word_forward();
    assert_eq!(b.cursor_position, 4);
    b.skip_word_forward();
    assert_eq!(b.cursor_position, 8);
    b.skip_word_forward();
    assert_eq!(b.cursor_position, 12);
}

#[test]
pub fn skip_forward_at_line_end_skips_to_next_line_start() {
    let mut b = BufferEntry::default();
    inject_string(&mut b, "argh foo bar");
    inject_string(&mut b, "again");
    b.cursor_line = 0;
    b.cursor_position = 0;
    b.goto_line_end();
    b.skip_word_forward();
    assert_eq!(b.cursor_position, 0);
    assert_eq!(b.cursor_line, 1);
}

#[test]
pub fn can_skip_word_backward() {
    let mut b = BufferEntry::default();
    inject_string(&mut b, "argh foo bar");
    b.cursor_line = 0;
    b.goto_line_end();
    b.skip_word_backward();
    assert_eq!(b.cursor_position, 9);
    b.skip_word_backward();
    assert_eq!(b.cursor_position, 5);
    b.skip_word_backward();
    assert_eq!(b.cursor_position, 0);
    b.skip_word_backward();
    assert_eq!(b.cursor_position, 0);
}

#[test]
pub fn skip_backward_at_line_start_skips_to_prev_line_end() {
    let mut b = BufferEntry::default();
    inject_string(&mut b, "argh foo bar");
    inject_string(&mut b, "again");
    b.cursor_line = 1;
    b.cursor_position = 0;
    b.goto_line_start();
    b.skip_word_backward();
    assert_eq!(b.cursor_position, 12);
    assert_eq!(b.cursor_line, 0);
}

#[test]
pub fn move_cursor_up_into_empty_line() {
    let mut b = BufferEntry::default();
    b.new_line(0);
    inject_string(&mut b, "argh foo bar");
    b.move_cursor_up(32);
    assert_eq!(b.cursor_position, 0);
}

#[test]
pub fn move_cursor_right_skips_to_new_line() {
    let mut b = BufferEntry::default();
    inject_string(&mut b, "argh foo bar");
    b.new_line(0);
    b.cursor_line = 0;
    b.goto_line_end();
    b.move_cursor_right();
    assert_eq!(b.cursor_position, 0);
    assert_eq!(b.cursor_line, 1);
}

#[test]
pub fn move_cursor_left_skips_to_prev_line() {
    let mut b = BufferEntry::default();
    inject_string(&mut b, "argh foo bar");
    b.new_line(0);
    b.cursor_line = 1;
    b.goto_line_start();
    b.move_cursor_left();
    assert_eq!(b.cursor_position, 12);
    assert_eq!(b.cursor_line, 0);
}

#[test]
pub fn can_merge_lines() {
    let mut b = BufferEntry::default();
    inject_string(&mut b, "fnord");
    inject_string(&mut b, "bar");
    assert_eq!(b.buffer.lines.len(), 3);
    assert_eq!(b.cursor_line, 2);
    b.cursor_line = 1;
    b.goto_line_start();
    b.remove_character(0);
    assert_eq!(b.buffer.lines.len(), 2);
    assert_eq!(b.cursor_line, 0);
    // should be right after the fnord!
    assert_eq!(b.cursor_position, 5);

    let ln = b.buffer.line_at(0).unwrap();
    assert_line_equals(ln, "fnordbar");
}

#[test]
pub fn clear_selection_clears_selection() {
    let mut b = BufferEntry::default();
    inject_string(&mut b, "fnord");
    b.selection_start = Some((0, 0));
    b.selection_end = Some((0, 5));
    b.clear_selection();
    assert_eq!(b.selection_start, None);
    assert_eq!(b.selection_end, None);
}

#[test]
pub fn add_character_to_selection() {
    let mut b = BufferEntry::default();
    inject_string(&mut b, "fnorda");
    b.cursor_line = 0;
    b.goto_line_end();
    b.selection_start = Some((0, 0));
    b.selection_end = Some((0, 5));
    b.extend_selection_to_cursor();
    assert_eq!(b.selection_start, Some((0, 0)));
    assert_eq!(b.selection_end, Some((0, 6)));
}

#[test]
pub fn move_word_extend_selection_works_correctly() {
    let mut b = BufferEntry::default();
    inject_string(&mut b, "Foo To The Bar");
    b.cursor_line = 0;
    b.goto_line_start();
    b.selection_start = Some((0, 0));
    b.skip_word_forward();
    b.extend_selection_to_cursor();
    assert_eq!(b.selection_start, Some((0, 0)));
    assert_eq!(b.selection_end, Some((0, 3)));
    b.skip_word_forward();
    b.extend_selection_to_cursor();
    assert_eq!(b.selection_start, Some((0, 0)));
    assert_eq!(b.selection_end, Some((0, 6)));
}

#[test]
pub fn move_word_extend_selection_backwards_shrinks_selection() {
    let mut b = BufferEntry::default();
    inject_string(&mut b, "Foo To The Bar");
    b.cursor_line = 0;
    b.goto_line_start();
    b.selection_start = Some((0, 0));
    b.skip_word_forward();
    b.extend_selection_to_cursor();
    assert_eq!(b.selection_start, Some((0, 0)));
    assert_eq!(b.selection_end, Some((0, 3)));
    b.skip_word_backward();
    b.extend_selection_to_cursor();
    assert_eq!(b.selection_start, Some((0, 0)));
    assert_eq!(b.selection_end, Some((0, 0)));
}

#[test]
pub fn typing_and_backspace_track_cursor() {
    let mut b = BufferEntry::default();
    b.add_character('a');
    assert_line_equals(b.buffer.line_at(0).unwrap(), "a");
    assert_eq!(b.cursor_position, 1);
    b.remove_character(0);
    assert_line_equals(b.buffer.line_at(0).unwrap(), "");
    assert_eq!(b.cursor_position, 0);
}

#[test]
pub fn backspace_at_line_start_merges_to_single_line() {
    let mut b = BufferEntry::default();
    for c in "fnord".chars() {
        b.add_character(c);
    }
    b.new_line(40);
    for c in "bar".chars() {
        b.add_character(c);
    }
    b.goto_line_start();
    b.remove_character(40);
    assert_eq!(b.buffer.num_lines(), 1);
    assert_eq!(b.cursor_line, 0);
    assert_eq!(b.cursor_position, 5);
    assert_line_equals(b.buffer.line_at(0).unwrap(), "fnordbar");
}

#[test]
pub fn add_then_backspace_restores_content_and_cursor() {
    let mut b = BufferEntry::default();
    inject_string(&mut b, "argh foo bar");
    b.cursor_line = 0;
    b.cursor_position = 4;
    b.add_character('x');
    assert_eq!(b.cursor_position, 5);
    b.remove_character(10);
    assert_eq!(b.cursor_line, 0);
    assert_eq!(b.cursor_position, 4);
    let ln = b.buffer.line_at(0).unwrap();
    assert_line_equals(ln, "argh foo bar");
}

#[test]
pub fn skip_forward_on_last_line_stays_at_line_end() {
    // one line only: the cursor walks 4, 8, 12 and then stays at 12
    let mut b = BufferEntry::default();
    b.buffer = moo::buffer::Buffer::from_string("argh foo bar");
    b.cursor_line = 0;
    b.cursor_position = 0;
    b.skip_word_forward();
    assert_eq!(b.cursor_position, 4);
    b.skip_word_forward();
    assert_eq!(b.cursor_position, 8);
    b.skip_word_forward();
    assert_eq!(b.cursor_position, 12);
    b.skip_word_forward();
    assert_eq!(b.cursor_position, 12);
    assert_eq!(b.cursor_line, 0);
}

#[test]
pub fn backspace_at_start_of_first_line_keeps_content() {
    let mut b = BufferEntry::default();
    inject_string(&mut b, "abc");
    b.cursor_line = 0;
    b.cursor_position = 0;
    b.remove_character(0);
    assert_eq!(b.buffer.num_lines(), 2);
    let ln = b.buffer.line_at(0).unwrap();
    assert_line_equals(ln, "abc");
    assert!(b.modified);
}

#[test]
pub fn whitespace_set_matches_std() {
    // the word-separator set is exactly the Unicode White_Space property;
    // every scalar value with that property lies at or below U+3000
    for u in 0..=0x3001u32 {
        if let Some(c) = char::from_u32(u) {
            assert_eq!(moo::bufferentry::is_whitespace_char(c), c.is_whitespace());
        }
    }
}

#[test]
pub fn cursor_counts_scalar_values_not_bytes() {
    let mut b = BufferEntry::default();
    for c in "äöü".chars() {
        b.add_character(c);
    }
    assert_eq!(b.cursor_position, 3);
    assert_eq!(b.buffer.line_char_length(0), Some(3));
    b.move_cursor_left();
    assert_eq!(b.cursor_position, 2);
}

#[test]
pub fn page_moves_clamp_and_scroll_follows_cursor() {
    let mut b = BufferEntry::default();
    b.buffer = moo::buffer::Buffer::from_string("a\nb\nc\nd\ne\nf\ng\nh");
    b.cursor_line = 0;
    b.cursor_position = 0;
    b.move_cursor_page_down(2);
    assert_eq!(b.cursor_line, 2);
    assert_eq!(b.scroll_offset, 0);
    b.move_cursor_page_down(2);
    assert_eq!(b.cursor_line, 4);
    // on-screen row 4 exceeds the viewport height 2: the cursor becomes
    // the last visible row
    assert_eq!(b.scroll_offset, 2);
    b.move_cursor_page_down(2);
    b.move_cursor_page_down(2);
    assert_eq!(b.cursor_line, 7);
    b.move_cursor_page_up(2);
    b.move_cursor_page_up(2);
    b.move_cursor_page_up(2);
    b.move_cursor_page_up(2);
    assert_eq!(b.cursor_line, 0);
    // the cursor went above the viewport: the scroll resets to the top
    assert_eq!(b.scroll_offset, 0);
}

#[test]
pub fn moving_to_shorter_line_clamps_cursor_position() {
    let mut b = BufferEntry::default();
    inject_string(&mut b, "long line here");
    inject_string(&mut b, "ab");
    b.cursor_line = 0;
    b.goto_line_end();
    assert_eq!(b.cursor_position, 14);
    b.move_cursor_down(20);
    assert_eq!(b.cursor_line, 1);
    assert_eq!(b.cursor_position, 2);
}
