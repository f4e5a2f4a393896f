//! One open document: a line store together with its cursor, selection,
//! scroll and modification state. Every operation keeps the cursor inside
//! the document.

use vstd::prelude::*;

use crate::buffer::{break_line_spec, merge_lines_spec, Buffer};

verus! {

/// The mathematical state of one document.
#[verifier::ext_equal]
pub ghost struct DocView {
    pub name: Seq<char>,
    pub lines: Seq<Seq<char>>,
    pub cursor_line: nat,
    pub cursor_position: nat,
    pub modified: bool,
    pub scroll_offset: nat,
    pub selection_start: Option<(nat, nat)>,
    pub selection_end: Option<(nat, nat)>,
}

impl DocView {
    /// The cursor lies on an existing line (or at the origin while the store
    /// is empty) and never past the end of its line.
    pub open spec fn wf(self) -> bool {
        if self.lines.len() == 0 {
            self.cursor_line == 0 && self.cursor_position == 0
        } else {
            self.cursor_line < self.lines.len() && self.cursor_position <= self.lines[
                self.cursor_line as int
            ].len()
        }
    }

    /// The line the cursor is on.
    pub open spec fn cur_line(self) -> Seq<char> {
        self.lines[self.cursor_line as int]
    }
}

/// One open document (a buffer entry of the registry).
pub struct BufferEntry {
    pub name: String,
    pub buffer: Buffer,
    pub cursor_line: usize,
    pub cursor_position: usize,
    pub modified: bool,
    pub scroll_offset: usize,
    pub selection_start: Option<(usize, usize)>,
    pub selection_end: Option<(usize, usize)>,
}

impl View for BufferEntry {
    type V = DocView;

    open spec fn view(&self) -> DocView {
        DocView {
            name: self.name@,
            lines: self.buffer@,
            cursor_line: self.cursor_line as nat,
            cursor_position: self.cursor_position as nat,
            modified: self.modified,
            scroll_offset: self.scroll_offset as nat,
            selection_start: match self.selection_start {
                Some(p) => Some((p.0 as nat, p.1 as nat)),
                None => None,
            },
            selection_end: match self.selection_end {
                Some(p) => Some((p.0 as nat, p.1 as nat)),
                None => None,
            },
        }
    }
}

/// The document after the viewport bookkeeping that follows a cursor move:
/// the cursor line is clamped into the store, the scroll offset is advanced
/// so the cursor row stays visible (or reset to the top when the cursor is
/// above the viewport), and the cursor column is clamped to its line.
pub open spec fn update_scroll_spec(d: DocView, screen_height: u16) -> DocView {
    let n = d.lines.len();
    let cl: nat = if n == 0 {
        0
    } else if d.cursor_line >= n {
        (n - 1) as nat
    } else {
        d.cursor_line
    };
    let so: nat = if cl < d.scroll_offset {
        0
    } else if cl - d.scroll_offset > screen_height {
        (cl - screen_height) as nat
    } else {
        d.scroll_offset
    };
    let cp: nat = if n == 0 {
        0
    } else if d.cursor_position > d.lines[cl as int].len() {
        d.lines[cl as int].len()
    } else {
        d.cursor_position
    };
    DocView { cursor_line: cl, cursor_position: cp, scroll_offset: so, ..d }
}

/// The scroll bookkeeping repairs any cursor: its result is well formed
/// whatever document it is given.
pub proof fn lemma_update_scroll_wf(d: DocView, screen_height: u16)
    ensures
        update_scroll_spec(d, screen_height).wf(),
{
}

/// The document after `c` is typed: `c` is inserted at the cursor, which
/// advances past it; the document counts as modified.
pub open spec fn add_character_spec(d: DocView, c: char) -> DocView {
    if d.cursor_line < d.lines.len() {
        DocView {
            lines: d.lines.update(
                d.cursor_line as int,
                d.cur_line().insert(d.cursor_position as int, c),
            ),
            cursor_position: d.cursor_position + 1,
            modified: true,
            ..d
        }
    } else {
        DocView { modified: true, ..d }
    }
}

/// The document after a backspace: with the cursor inside a line, the
/// character before it is deleted; at column zero with a previous line, the
/// current line is merged onto the previous one and the cursor moves to the
/// join point; at the very start of the only line, that line is removed
/// outright; at the very start of a multi-line document, the content is left
/// alone. The document always counts as modified.
pub open spec fn remove_character_spec(d: DocView, screen_height: u16) -> DocView {
    let d1 = if d.cursor_line >= d.lines.len() {
        d
    } else if d.cursor_position > 0 {
        DocView {
            lines: d.lines.update(
                d.cursor_line as int,
                d.cur_line().remove(d.cursor_position - 1),
            ),
            cursor_position: (d.cursor_position - 1) as nat,
            ..d
        }
    } else if d.cursor_line > 0 {
        DocView {
            lines: merge_lines_spec(d.lines, d.cursor_line - 1),
            cursor_line: (d.cursor_line - 1) as nat,
            cursor_position: d.lines[d.cursor_line - 1].len(),
            ..d
        }
    } else if d.lines.len() == 1 {
        DocView { lines: d.lines.remove(0), cursor_line: 0, cursor_position: 0, ..d }
    } else {
        d
    };
    update_scroll_spec(DocView { modified: true, ..d1 }, screen_height)
}

/// The document after a line break at the cursor: the cursor's line is split
/// there, and the cursor moves to column zero of the new next line.
pub open spec fn new_line_spec(d: DocView, screen_height: u16) -> DocView {
    let d1 = if d.cursor_line < d.lines.len() {
        DocView {
            lines: break_line_spec(d.lines, d.cursor_line as int, d.cursor_position as int),
            cursor_line: d.cursor_line + 1,
            cursor_position: 0,
            ..d
        }
    } else {
        d
    };
    update_scroll_spec(DocView { modified: true, ..d1 }, screen_height)
}

/// One line up, clamped at the first line; the cursor column is clamped to
/// the destination line.
pub open spec fn move_cursor_up_spec(d: DocView, screen_height: u16) -> DocView {
    if d.cursor_line > 0 {
        update_scroll_spec(DocView { cursor_line: (d.cursor_line - 1) as nat, ..d }, screen_height)
    } else {
        d
    }
}

/// One line down, clamped at the last line; the cursor column is clamped to
/// the destination line.
pub open spec fn move_cursor_down_spec(d: DocView, screen_height: u16) -> DocView {
    if d.cursor_line + 1 < d.lines.len() {
        update_scroll_spec(DocView { cursor_line: d.cursor_line + 1, ..d }, screen_height)
    } else {
        d
    }
}

/// One viewport height down, clamped at the last line.
pub open spec fn move_cursor_page_down_spec(d: DocView, screen_height: u16) -> DocView {
    update_scroll_spec(
        DocView { cursor_line: (d.cursor_line + screen_height) as nat, ..d },
        screen_height,
    )
}

/// One viewport height up, clamped at the first line.
pub open spec fn move_cursor_page_up_spec(d: DocView, screen_height: u16) -> DocView {
    let cl: nat = if d.cursor_line >= screen_height {
        (d.cursor_line - screen_height) as nat
    } else {
        0
    };
    update_scroll_spec(DocView { cursor_line: cl, ..d }, screen_height)
}

/// One character left; at column zero the cursor moves to the end of the
/// previous line, if there is one.
pub open spec fn move_cursor_left_spec(d: DocView) -> DocView {
    if d.cursor_position > 0 {
        DocView { cursor_position: (d.cursor_position - 1) as nat, ..d }
    } else if d.cursor_line > 0 {
        DocView {
            cursor_line: (d.cursor_line - 1) as nat,
            cursor_position: d.lines[d.cursor_line - 1].len(),
            ..d
        }
    } else {
        d
    }
}

/// One character right; at the end of a line the cursor moves to column zero
/// of the next line, if there is one.
pub open spec fn move_cursor_right_spec(d: DocView) -> DocView {
    if d.lines.len() == 0 {
        d
    } else if d.cursor_position < d.cur_line().len() {
        DocView { cursor_position: d.cursor_position + 1, ..d }
    } else if d.cursor_line + 1 < d.lines.len() {
        DocView { cursor_line: d.cursor_line + 1, cursor_position: 0, ..d }
    } else {
        d
    }
}

/// The cursor moved to column zero of its line.
pub open spec fn goto_line_start_spec(d: DocView) -> DocView {
    DocView { cursor_position: 0, ..d }
}

/// The cursor moved to the end of its line, if that line exists.
pub open spec fn goto_line_end_spec(d: DocView) -> DocView {
    if d.cursor_line < d.lines.len() {
        DocView { cursor_position: d.cur_line().len(), ..d }
    } else {
        d
    }
}

/// Both selection endpoints dropped.
pub open spec fn clear_selection_spec(d: DocView) -> DocView {
    DocView { selection_start: None, selection_end: None, ..d }
}

/// The selection anchored at the cursor if it was absent, and its end moved
/// to the cursor.
pub open spec fn extend_selection_spec(d: DocView) -> DocView {
    DocView {
        selection_start: if d.selection_start is None {
            Some((d.cursor_line, d.cursor_position))
        } else {
            d.selection_start
        },
        selection_end: Some((d.cursor_line, d.cursor_position)),
        ..d
    }
}

/// The Unicode scalar values with the White_Space property: the separators
/// that word skipping steps over.
pub open spec fn is_word_whitespace(c: char) -> bool {
    let u = c as u32;
    (0x09 <= u && u <= 0x0D) || u == 0x20 || u == 0x85 || u == 0xA0 || u == 0x1680 || (0x2000 <= u
        && u <= 0x200A) || u == 0x2028 || u == 0x2029 || u == 0x202F || u == 0x205F || u == 0x3000
}

/// Whether `c` is a white-space scalar value; see `is_word_whitespace`.
pub fn is_whitespace_char(c: char) -> (r: bool)
    ensures
        r == is_word_whitespace(c),
{
    let u = c as u32;
    (0x09 <= u && u <= 0x0D) || u == 0x20 || u == 0x85 || u == 0xA0 || u == 0x1680 || (0x2000 <= u
        && u <= 0x200A) || u == 0x2028 || u == 0x2029 || u == 0x202F || u == 0x205F || u == 0x3000
}

/// The first position at or after `p` that does not hold white space, or the
/// end of the line.
pub open spec fn scan_ws(line: Seq<char>, p: nat) -> nat
    decreases line.len() - p,
{
    if p < line.len() && is_word_whitespace(line[p as int]) {
        scan_ws(line, p + 1)
    } else {
        p
    }
}

/// The first position at or after `p` that holds white space, or the end of
/// the line.
pub open spec fn scan_word(line: Seq<char>, p: nat) -> nat
    decreases line.len() - p,
{
    if p < line.len() && !is_word_whitespace(line[p as int]) {
        scan_word(line, p + 1)
    } else {
        p
    }
}

/// The last position at or before `p` with no white space just before it.
pub open spec fn scan_ws_back(line: Seq<char>, p: nat) -> nat
    decreases p,
{
    if p > 0 && p <= line.len() && is_word_whitespace(line[p - 1]) {
        scan_ws_back(line, (p - 1) as nat)
    } else {
        p
    }
}

/// The last position at or before `p` with white space (or the line start)
/// just before it.
pub open spec fn scan_word_back(line: Seq<char>, p: nat) -> nat
    decreases p,
{
    if p > 0 && p <= line.len() && !is_word_whitespace(line[p - 1]) {
        scan_word_back(line, (p - 1) as nat)
    } else {
        p
    }
}

/// The document after one forward word skip: within a line, a run of white
/// space and then a run of word characters are stepped over; from the end of
/// a line the cursor moves to the start of the next line, and at the end of
/// the last line it stays put.
pub open spec fn skip_word_forward_spec(d: DocView) -> DocView {
    if d.cursor_line >= d.lines.len() {
        d
    } else if d.cursor_position >= d.cur_line().len() {
        if d.cursor_line + 1 < d.lines.len() {
            DocView { cursor_line: d.cursor_line + 1, cursor_position: 0, ..d }
        } else {
            d
        }
    } else {
        DocView {
            cursor_position: scan_word(d.cur_line(), scan_ws(d.cur_line(), d.cursor_position)),
            ..d
        }
    }
}

/// The document after one backward word skip: within a line, a run of white
/// space and then a run of word characters before the cursor are stepped
/// over; from the start of a line the cursor moves to the end of the
/// previous line, and at the start of the first line it stays put.
pub open spec fn skip_word_backward_spec(d: DocView) -> DocView {
    if d.cursor_line >= d.lines.len() {
        d
    } else if d.cursor_position == 0 {
        if d.cursor_line > 0 {
            DocView {
                cursor_line: (d.cursor_line - 1) as nat,
                cursor_position: d.lines[d.cursor_line - 1].len(),
                ..d
            }
        } else {
            d
        }
    } else {
        DocView {
            cursor_position: scan_word_back(
                d.cur_line(),
                scan_ws_back(d.cur_line(), d.cursor_position),
            ),
            ..d
        }
    }
}

/// `scan_ws` is the one position with white space everywhere between `p0`
/// and it, and no white space (or the line end) at it.
pub proof fn lemma_scan_ws_unique(line: Seq<char>, p0: nat, p: nat)
    requires
        p0 <= p <= line.len(),
        forall|m: int| p0 <= m < p ==> is_word_whitespace(line[m]),
        p == line.len() || !is_word_whitespace(line[p as int]),
    ensures
        scan_ws(line, p0) == p,
    decreases p - p0,
{
    if p0 < p {
        lemma_scan_ws_unique(line, p0 + 1, p);
    }
}

/// The counterpart of `lemma_scan_ws_unique` for `scan_word`.
pub proof fn lemma_scan_word_unique(line: Seq<char>, p0: nat, p: nat)
    requires
        p0 <= p <= line.len(),
        forall|m: int| p0 <= m < p ==> !is_word_whitespace(line[m]),
        p == line.len() || is_word_whitespace(line[p as int]),
    ensures
        scan_word(line, p0) == p,
    decreases p - p0,
{
    if p0 < p {
        lemma_scan_word_unique(line, p0 + 1, p);
    }
}

/// The counterpart of `lemma_scan_ws_unique` for the backward scan.
pub proof fn lemma_scan_ws_back_unique(line: Seq<char>, p0: nat, p: nat)
    requires
        p <= p0 <= line.len(),
        forall|m: int| p <= m < p0 ==> is_word_whitespace(line[m]),
        p == 0 || !is_word_whitespace(line[p - 1]),
    ensures
        scan_ws_back(line, p0) == p,
    decreases p0 - p,
{
    if p < p0 {
        lemma_scan_ws_back_unique(line, (p0 - 1) as nat, p);
    }
}

/// The counterpart of `lemma_scan_word_unique` for the backward scan.
pub proof fn lemma_scan_word_back_unique(line: Seq<char>, p0: nat, p: nat)
    requires
        p <= p0 <= line.len(),
        forall|m: int| p <= m < p0 ==> !is_word_whitespace(line[m]),
        p == 0 || is_word_whitespace(line[p - 1]),
    ensures
        scan_word_back(line, p0) == p,
    decreases p0 - p,
{
    if p < p0 {
        lemma_scan_word_back_unique(line, (p0 - 1) as nat, p);
    }
}

impl BufferEntry {
    /// A document with no content at all: an empty line store, the cursor at
    /// the origin, nothing selected.
    pub fn empty() -> (b: BufferEntry)
        ensures
            b@.name == Seq::<char>::empty(),
            b@.lines == Seq::<Seq<char>>::empty(),
            b@.cursor_line == 0,
            b@.cursor_position == 0,
            !b@.modified,
            b@.scroll_offset == 0,
            b@.selection_start is None,
            b@.selection_end is None,
            b@.wf(),
    {
        BufferEntry {
            name: String::new(),
            buffer: Buffer::empty_buffer(),
            cursor_line: 0,
            cursor_position: 0,
            modified: false,
            scroll_offset: 0,
            selection_start: None,
            selection_end: None,
        }
    }

    /// A document named `file_name` holding the given lines verbatim, one
    /// store line per entry, with the cursor at the origin.
    pub fn from_lines(file_name: String, lines: &Vec<String>) -> (b: BufferEntry)
        ensures
            b@.name == file_name@,
            b@.lines.len() == lines@.len(),
            forall|i: int| 0 <= i < lines@.len() ==> b@.lines[i] == lines@[i]@,
            b@.cursor_line == 0,
            b@.cursor_position == 0,
            !b@.modified,
            b@.scroll_offset == 0,
            b@.selection_start is None,
            b@.selection_end is None,
            b@.wf(),
    {
        let mut b = BufferEntry::empty();
        b.name = file_name;
        b.buffer = Buffer::from_lines(lines);
        b
    }

    /// Skips one word forward: a run of white space and then a run of word
    /// characters; from the end of a line the cursor moves to the start of
    /// the next line, except at the end of the last line, where it stays.
    pub fn skip_word_forward(&mut self)
        requires
            old(self)@.wf(),
        ensures
            final(self)@ == skip_word_forward_spec(old(self)@),
            final(self)@.wf(),
    {
        let n = self.buffer.num_lines();
        if self.cursor_line >= n {
            return;
        }
        let line = match self.buffer.line_at(self.cursor_line) {
            Some(l) => l,
            None => {
                return;
            },
        };
        let len = line.len();
        if self.cursor_position >= len {
            if n - self.cursor_line > 1 {
                self.cursor_line += 1;
                self.cursor_position = 0;
            }
            return;
        }
        let mut pos = self.cursor_position;
        while pos < len && is_whitespace_char(line[pos])
            invariant
                old(self)@.cursor_position <= pos <= len,
                len == line@.len(),
                line@ == old(self)@.cur_line(),
                forall|m: int|
                    old(self)@.cursor_position <= m < pos ==> is_word_whitespace(line@[m]),
            decreases len - pos,
        {
            pos += 1;
        }
        proof {
            lemma_scan_ws_unique(line@, old(self)@.cursor_position, pos as nat);
        }
        let ghost mid = pos as nat;
        while pos < len && !is_whitespace_char(line[pos])
            invariant
                mid <= pos <= len,
                len == line@.len(),
                line@ == old(self)@.cur_line(),
                forall|m: int| mid <= m < pos ==> !is_word_whitespace(line@[m]),
            decreases len - pos,
        {
            pos += 1;
        }
        proof {
            lemma_scan_word_unique(line@, mid, pos as nat);
        }
        self.cursor_position = pos;
    }

    /// Skips one word backward: a run of white space and then a run of word
    /// characters before the cursor; from the start of a line the cursor
    /// moves to the end of the previous line, except at the start of the
    /// first line, where it stays.
    pub fn skip_word_backward(&mut self)
        requires
            old(self)@.wf(),
        ensures
            final(self)@ == skip_word_backward_spec(old(self)@),
            final(self)@.wf(),
    {
        let n = self.buffer.num_lines();
        if self.cursor_line >= n {
            return;
        }
        if self.cursor_position == 0 {
            if self.cursor_line > 0 {
                self.cursor_line -= 1;
                if let Some(l) = self.buffer.line_char_length(self.cursor_line) {
                    self.cursor_position = l;
                }
            }
            return;
        }
        let line = match self.buffer.line_at(self.cursor_line) {
            Some(l) => l,
            None => {
                return;
            },
        };
        let len = line.len();
        let mut pos = self.cursor_position;
        while pos > 0 && is_whitespace_char(line[pos - 1])
            invariant
                pos <= old(self)@.cursor_position <= len,
                len == line@.len(),
                line@ == old(self)@.cur_line(),
                forall|m: int|
                    pos <= m < old(self)@.cursor_position ==> is_word_whitespace(line@[m]),
            decreases pos,
        {
            pos -= 1;
        }
        proof {
            lemma_scan_ws_back_unique(line@, old(self)@.cursor_position, pos as nat);
        }
        let ghost mid = pos as nat;
        while pos > 0 && !is_whitespace_char(line[pos - 1])
            invariant
                pos <= mid <= len,
                len == line@.len(),
                line@ == old(self)@.cur_line(),
                forall|m: int| pos <= m < mid ==> !is_word_whitespace(line@[m]),
            decreases pos,
        {
            pos -= 1;
        }
        proof {
            lemma_scan_word_back_unique(line@, mid, pos as nat);
        }
        self.cursor_position = pos;
    }

    /// Drops both selection endpoints.
    pub fn clear_selection(&mut self)
        ensures
            final(self)@ == clear_selection_spec(old(self)@),
    {
        self.selection_start = None;
        self.selection_end = None;
    }

    /// Anchors the selection at the cursor if nothing was selected yet, and
    /// always moves the selection end to the cursor. The two endpoints are
    /// not order-normalized: the anchor may lie after the end.
    pub fn extend_selection_to_cursor(&mut self)
        ensures
            final(self)@ == extend_selection_spec(old(self)@),
    {
        if self.selection_start.is_none() {
            self.selection_start = Some((self.cursor_line, self.cursor_position));
        }
        self.selection_end = Some((self.cursor_line, self.cursor_position));
    }

    /// Moves the cursor to column zero of its line.
    pub fn goto_line_start(&mut self)
        ensures
            final(self)@ == goto_line_start_spec(old(self)@),
    {
        self.cursor_position = 0;
    }

    /// Moves the cursor to the end of its line, if that line exists.
    pub fn goto_line_end(&mut self)
        ensures
            final(self)@ == goto_line_end_spec(old(self)@),
    {
        if let Some(len) = self.buffer.line_char_length(self.cursor_line) {
            self.cursor_position = len;
        }
    }

    /// Types `c`: inserts it at the cursor and advances the cursor past it.
    pub fn add_character(&mut self, c: char)
        requires
            old(self)@.wf(),
        ensures
            final(self)@ == add_character_spec(old(self)@, c),
            final(self)@.wf(),
    {
        let current_line = self.buffer.line_at_mut(self.cursor_line);
        if let Some(line) = current_line {
            line.insert(self.cursor_position, c);
            let new_len = line.len();
            assert(self.cursor_position < new_len);
            self.cursor_position += 1;
        }
        self.modified = true;
        proof {
            assert(final(self)@ =~~= add_character_spec(old(self)@, c));
        }
    }

    /// Backspace: deletes the character before the cursor, or at column zero
    /// merges the cursor's line onto the previous one; see
    /// `remove_character_spec`.
    pub fn remove_character(&mut self, screen_height: u16)
        requires
            old(self)@.wf(),
        ensures
            final(self)@ == remove_character_spec(old(self)@, screen_height),
            final(self)@.wf(),
    {
        let n = self.buffer.num_lines();
        if self.cursor_line < n {
            if self.cursor_position > 0 {
                if let Some(line) = self.buffer.line_at_mut(self.cursor_line) {
                    line.remove(self.cursor_position - 1);
                }
                self.cursor_position -= 1;
            } else if self.cursor_line > 0 {
                let prev_len = match self.buffer.line_char_length(self.cursor_line - 1) {
                    Some(l) => l,
                    None => 0,
                };
                self.buffer.merge_lines(self.cursor_line - 1, self.cursor_line);
                self.cursor_line -= 1;
                self.cursor_position = prev_len;
            } else if n == 1 {
                self.buffer.remove_line_at(self.cursor_line);
                self.cursor_line = 0;
                self.cursor_position = 0;
            }
        }
        self.update_scroll_position(screen_height);
        self.modified = true;
        proof {
            assert(final(self)@ =~~= remove_character_spec(old(self)@, screen_height));
        }
    }

    /// Splits the cursor's line at the cursor and moves the cursor to the
    /// start of the newly created next line.
    pub fn new_line(&mut self, screen_height: u16)
        requires
            old(self)@.wf(),
        ensures
            final(self)@ == new_line_spec(old(self)@, screen_height),
            final(self)@.wf(),
    {
        let n = self.buffer.num_lines();
        if self.cursor_line < n {
            self.buffer.break_line_at(self.cursor_line, self.cursor_position);
            self.cursor_line += 1;
            self.cursor_position = 0;
        }
        self.update_scroll_position(screen_height);
        self.modified = true;
        proof {
            assert(final(self)@ =~~= new_line_spec(old(self)@, screen_height));
        }
    }

    /// Moves the cursor up one line; at the first line this does nothing.
    pub fn move_cursor_up(&mut self, screen_height: u16)
        requires
            old(self)@.wf(),
        ensures
            final(self)@ == move_cursor_up_spec(old(self)@, screen_height),
            final(self)@.wf(),
    {
        if self.cursor_line > 0 {
            self.cursor_line -= 1;
            self.update_scroll_position(screen_height);
        }
    }

    /// Moves the cursor down one line; at the last line this does nothing.
    pub fn move_cursor_down(&mut self, screen_height: u16)
        requires
            old(self)@.wf(),
        ensures
            final(self)@ == move_cursor_down_spec(old(self)@, screen_height),
            final(self)@.wf(),
    {
        let n = self.buffer.num_lines();
        if self.cursor_line < n && n - self.cursor_line > 1 {
            self.cursor_line += 1;
            self.update_scroll_position(screen_height);
        }
    }

    /// Moves the cursor one viewport height down, clamped at the last line.
    pub fn move_cursor_page_down(&mut self, screen_height: u16)
        requires
            old(self)@.wf(),
        ensures
            final(self)@ == move_cursor_page_down_spec(old(self)@, screen_height),
            final(self)@.wf(),
    {
        let h = screen_height as usize;
        let n = self.buffer.num_lines();
        if n > 0 && self.cursor_line < n - 1 {
            let room = n - 1 - self.cursor_line;
            self.cursor_line += if h < room {
                h
            } else {
                room
            };
        }
        self.update_scroll_position(screen_height);
        proof {
            assert(final(self)@ =~~= move_cursor_page_down_spec(old(self)@, screen_height));
        }
    }

    /// Moves the cursor one viewport height up, clamped at the first line.
    pub fn move_cursor_page_up(&mut self, screen_height: u16)
        requires
            old(self)@.wf(),
        ensures
            final(self)@ == move_cursor_page_up_spec(old(self)@, screen_height),
            final(self)@.wf(),
    {
        let h = screen_height as usize;
        if self.cursor_line >= h {
            self.cursor_line -= h;
        } else {
            self.cursor_line = 0;
        }
        self.update_scroll_position(screen_height);
        proof {
            assert(final(self)@ =~~= move_cursor_page_up_spec(old(self)@, screen_height));
        }
    }

    /// Moves the cursor one character left, crossing to the end of the
    /// previous line at column zero.
    pub fn move_cursor_left(&mut self)
        requires
            old(self)@.wf(),
        ensures
            final(self)@ == move_cursor_left_spec(old(self)@),
            final(self)@.wf(),
    {
        if self.cursor_position > 0 {
            self.cursor_position -= 1;
        } else if self.cursor_line > 0 {
            self.cursor_line -= 1;
            if let Some(len) = self.buffer.line_char_length(self.cursor_line) {
                self.cursor_position = len;
            }
        }
    }

    /// Moves the cursor one character right, crossing to the start of the
    /// next line at the end of a line.
    pub fn move_cursor_right(&mut self)
        requires
            old(self)@.wf(),
        ensures
            final(self)@ == move_cursor_right_spec(old(self)@),
            final(self)@.wf(),
    {
        let n = self.buffer.num_lines();
        if let Some(len) = self.buffer.line_char_length(self.cursor_line) {
            if self.cursor_position < len {
                self.cursor_position += 1;
            } else if self.cursor_line < n && n - self.cursor_line > 1 {
                self.cursor_position = 0;
                self.cursor_line += 1;
            }
        }
    }

    /// Re-clamps the cursor into the store and keeps it visible in a
    /// viewport of `screen_height` rows; see `update_scroll_spec`.
    pub fn update_scroll_position(&mut self, screen_height: u16)
        ensures
            final(self)@ == update_scroll_spec(old(self)@, screen_height),
            final(self)@.wf(),
    {
        let n = self.buffer.num_lines();
        if n == 0 {
            self.cursor_line = 0;
            self.cursor_position = 0;
            self.scroll_offset = 0;
            return;
        }
        if self.cursor_line >= n {
            self.cursor_line = n - 1;
        }
        if self.cursor_line < self.scroll_offset {
            self.scroll_offset = 0;
        } else if self.cursor_line - self.scroll_offset > screen_height as usize {
            self.scroll_offset = self.cursor_line - screen_height as usize;
        }
        if let Some(len) = self.buffer.line_char_length(self.cursor_line) {
            if self.cursor_position > len {
                self.cursor_position = len;
            }
        }
    }
}

/// Identity: typing a character and then backspacing restores the content
/// and the cursor exactly. The backspace never crosses the start-of-line
/// merge boundary here, because typing always leaves the cursor past column
/// zero on a non-empty store.
pub proof fn lemma_add_then_remove(d: DocView, c: char, screen_height: u16)
    requires
        d.wf(),
    ensures
        remove_character_spec(add_character_spec(d, c), screen_height).lines == d.lines,
        remove_character_spec(add_character_spec(d, c), screen_height).cursor_line
            == d.cursor_line,
        remove_character_spec(add_character_spec(d, c), screen_height).cursor_position
            == d.cursor_position,
{
    if d.cursor_line < d.lines.len() {
        let inserted = d.cur_line().insert(d.cursor_position as int, c);
        let d1 = add_character_spec(d, c);
        assert(d1.cur_line() == inserted);
        assert(inserted.remove(d.cursor_position as int) =~= d.cur_line());
        assert(d1.lines.update(d.cursor_line as int, d.cur_line()) =~~= d.lines);
    }
}

/// Boundary: a forward word skip at the end of the last line leaves the
/// document exactly as it is, so repeating it never moves the cursor past
/// the line's length.
pub proof fn lemma_skip_word_forward_stays_at_end(d: DocView)
    requires
        d.wf(),
        d.lines.len() > 0,
        d.cursor_line + 1 == d.lines.len(),
        d.cursor_position == d.cur_line().len(),
    ensures
        skip_word_forward_spec(d) == d,
{
}

/// Boundary: a backward word skip at the start of the first line leaves the
/// document exactly as it is, so repeating it never moves the cursor below
/// zero.
pub proof fn lemma_skip_word_backward_stays_at_start(d: DocView)
    requires
        d.cursor_line == 0,
        d.cursor_position == 0,
    ensures
        skip_word_backward_spec(d) == d,
{
}

impl Default for BufferEntry {
    /// The default document: one empty line, the cursor at the origin.
    fn default() -> (b: BufferEntry)
        ensures
            b@.name == Seq::<char>::empty(),
            b@.lines.len() == 1,
            b@.lines[0] == Seq::<char>::empty(),
            b@.cursor_line == 0,
            b@.cursor_position == 0,
            !b@.modified,
            b@.scroll_offset == 0,
            b@.selection_start is None,
            b@.selection_end is None,
            b@.wf(),
    {
        let mut b = BufferEntry::empty();
        b.buffer = Buffer::new();
        b
    }
}

} // verus!
