//! The line store: one document's contents as an ordered sequence of lines,
//! each line an ordered sequence of Unicode scalar values.

use vstd::prelude::*;

verus! {

/// One line of text: Unicode scalar values, with no line terminator stored.
pub type Line = Vec<char>;

/// The contents of one document as an ordered sequence of lines.
///
/// An empty store (zero lines) is a valid transient state, e.g. after
/// deleting the last remaining line.
pub struct Buffer {
    pub lines: Vec<Line>,
}

impl View for Buffer {
    type V = Seq<Seq<char>>;

    open spec fn view(&self) -> Seq<Seq<char>> {
        Seq::new(self.lines@.len(), |i: int| self.lines@[i]@)
    }
}

/// The store after line `i` is split at character offset `k`: line `i` is
/// replaced by its prefix `[0, k)`, and the suffix `[k, len)` is inserted
/// immediately after it.
pub open spec fn break_line_spec(lines: Seq<Seq<char>>, i: int, k: int) -> Seq<Seq<char>> {
    lines.subrange(0, i)
        + seq![lines[i].subrange(0, k), lines[i].subrange(k, lines[i].len() as int)]
        + lines.subrange(i + 1, lines.len() as int)
}

/// The store after the contents of line `a + 1` are concatenated onto line
/// `a` and line `a + 1` is removed.
pub open spec fn merge_lines_spec(lines: Seq<Seq<char>>, a: int) -> Seq<Seq<char>> {
    lines.subrange(0, a)
        + seq![lines[a] + lines[a + 1]]
        + lines.subrange(a + 2, lines.len() as int)
}

/// Round trip: splitting line `i` at any offset and then merging the two
/// halves back reproduces the original store exactly.
pub proof fn lemma_break_then_merge(lines: Seq<Seq<char>>, i: int, k: int)
    requires
        0 <= i < lines.len(),
        0 <= k <= lines[i].len(),
    ensures
        merge_lines_spec(break_line_spec(lines, i, k), i) == lines,
{
    assert(merge_lines_spec(break_line_spec(lines, i, k), i) =~~= lines);
}

/// `line` without a trailing carriage return, if it has one.
pub open spec fn strip_cr(line: Seq<char>) -> Seq<char> {
    if line.len() > 0 && line.last() == '\r' {
        line.drop_last()
    } else {
        line
    }
}

/// The position of the first line feed at or after `i`, or `s.len()` if
/// there is none.
pub open spec fn line_end(s: Seq<char>, i: int) -> int
    decreases s.len() - i,
{
    if i >= s.len() {
        i
    } else if s[i] == '\n' {
        i
    } else {
        line_end(s, i + 1)
    }
}

proof fn lemma_line_end_bounds(s: Seq<char>, i: int)
    requires
        i <= s.len(),
    ensures
        i <= line_end(s, i) <= s.len(),
    decreases s.len() - i,
{
    if i < s.len() && s[i] != '\n' {
        lemma_line_end_bounds(s, i + 1);
    }
}

/// `line_end` is the one position `j` with no line feed before it (from `i`
/// on) that is itself a line feed or the end of the text.
proof fn lemma_line_end_unique(s: Seq<char>, i: int, j: int)
    requires
        i <= j <= s.len(),
        forall|m: int| i <= m < j ==> s[m] != '\n',
        j == s.len() || s[j] == '\n',
    ensures
        line_end(s, i) == j,
    decreases j - i,
{
    if i < j {
        lemma_line_end_unique(s, i + 1, j);
    }
}

/// The lines of the text `s` from position `i` on: split at line feeds, each
/// terminator removed together with a carriage return just before it, and a
/// final line ending producing no extra empty line.
pub open spec fn split_lines_from(s: Seq<char>, i: int) -> Seq<Seq<char>>
    decreases s.len() - i,
    via split_lines_from_decreases
{
    if i >= s.len() {
        Seq::empty()
    } else {
        let e = line_end(s, i);
        if e == s.len() {
            seq![s.subrange(i, e)]
        } else {
            seq![strip_cr(s.subrange(i, e))] + split_lines_from(s, e + 1)
        }
    }
}

#[via_fn]
proof fn split_lines_from_decreases(s: Seq<char>, i: int) {
    if i < s.len() {
        lemma_line_end_bounds(s, i);
    }
}

/// The lines of the whole text `s`.
pub open spec fn split_lines(s: Seq<char>) -> Seq<Seq<char>> {
    split_lines_from(s, 0)
}

/// The text of the lines from index `i` on, each line followed by one line
/// feed.
pub open spec fn join_lines_from(lines: Seq<Seq<char>>, i: int) -> Seq<char>
    decreases lines.len() - i,
{
    if i < 0 || i >= lines.len() {
        Seq::empty()
    } else {
        lines[i].push('\n') + join_lines_from(lines, i + 1)
    }
}

/// The whole store serialized as one text: each line followed by one line
/// feed, a terminator after the last line included.
pub open spec fn join_lines(lines: Seq<Seq<char>>) -> Seq<char> {
    join_lines_from(lines, 0)
}

/// The line holding the characters of `s`, in order.
pub fn string_to_line(s: &str) -> (line: Line)
    ensures
        line@ == s@,
{
    let n = s.unicode_len();
    let mut line: Line = Vec::new();
    let mut i: usize = 0;
    while i < n
        invariant
            i <= n,
            n == s@.len(),
            line@ == s@.subrange(0, i as int),
        decreases n - i,
    {
        line.push(s.get_char(i));
        i += 1;
        assert(line@ =~= s@.subrange(0, i as int));
    }
    assert(line@ =~= s@);
    line
}

impl Buffer {
    /// A buffer holding a single empty line: the content of a new document.
    pub fn new() -> (b: Buffer)
        ensures
            b@.len() == 1,
            b@[0] == Seq::<char>::empty(),
    {
        let mut b = Buffer { lines: Vec::new() };
        b.lines.push(Vec::new());
        b
    }

    /// The buffer holding the lines of the text `s`, split at line
    /// terminators, one stored line per input line.
    pub fn from_string(s: &str) -> (b: Buffer)
        ensures
            b@ == split_lines(s@),
    {
        let n = s.unicode_len();
        let mut b = Buffer { lines: Vec::new() };
        let mut i: usize = 0;
        while i < n
            invariant
                i <= n,
                n == s@.len(),
                split_lines(s@) =~= b@ + split_lines_from(s@, i as int),
            decreases n - i,
        {
            let ghost prev = b@;
            let mut j: usize = i;
            while j < n && s.get_char(j) != '\n'
                invariant
                    i <= j <= n,
                    n == s@.len(),
                    forall|m: int| i <= m < j ==> s@[m] != '\n',
                decreases n - j,
            {
                j += 1;
            }
            proof {
                lemma_line_end_unique(s@, i as int, j as int);
            }
            let mut end: usize = j;
            if j < n && end > i && s.get_char(end - 1) == '\r' {
                end -= 1;
            }
            let mut line: Line = Vec::new();
            let mut k: usize = i;
            while k < end
                invariant
                    i <= k <= end <= n,
                    n == s@.len(),
                    line@ == s@.subrange(i as int, k as int),
                decreases end - k,
            {
                line.push(s.get_char(k));
                k += 1;
                assert(line@ =~= s@.subrange(i as int, k as int));
            }
            b.lines.push(line);
            proof {
                if j < n {
                    assert(line@ =~= strip_cr(s@.subrange(i as int, j as int)));
                    assert(split_lines_from(s@, i as int) =~= seq![line@] + split_lines_from(
                        s@,
                        j + 1,
                    ));
                } else {
                    assert(line@ =~= s@.subrange(i as int, j as int));
                }
                assert(b@ =~= prev.push(line@));
            }
            i = if j < n {
                j + 1
            } else {
                n
            };
        }
        proof {
            assert(b@ =~= split_lines(s@));
        }
        b
    }

    /// The buffer holding the given lines, one stored line per entry.
    pub fn from_lines(lines: &Vec<String>) -> (b: Buffer)
        ensures
            b@.len() == lines@.len(),
            forall|i: int| 0 <= i < lines@.len() ==> b@[i] == lines@[i]@,
    {
        let mut b = Buffer { lines: Vec::new() };
        let mut i: usize = 0;
        while i < lines.len()
            invariant
                i <= lines@.len(),
                b@.len() == i,
                forall|m: int| 0 <= m < i ==> b@[m] == lines@[m]@,
            decreases lines@.len() - i,
        {
            let ghost prev = b@;
            let line = string_to_line(lines[i].as_str());
            b.lines.push(line);
            proof {
                assert(b@ =~= prev.push(line@));
            }
            i += 1;
        }
        b
    }

    /// A buffer with no lines at all.
    pub fn empty_buffer() -> (b: Buffer)
        ensures
            b@ == Seq::<Seq<char>>::empty(),
    {
        let b = Buffer { lines: Vec::new() };
        assert(b@ =~= Seq::<Seq<char>>::empty());
        b
    }

    /// The number of lines in the store.
    pub fn num_lines(&self) -> (n: usize)
        ensures
            n == self@.len(),
    {
        self.lines.len()
    }

    /// Bounds-checked read access to line `index`.
    pub fn line_at(&self, index: usize) -> (r: Option<&Line>)
        ensures
            index < self@.len() ==> (r matches Some(line) && line@ == self@[index as int]),
            index >= self@.len() ==> r is None,
    {
        if index < self.lines.len() {
            Some(&self.lines[index])
        } else {
            None
        }
    }

    /// Bounds-checked mutable access to line `index`.
    pub fn line_at_mut(&mut self, index: usize) -> (r: Option<&mut Line>)
        ensures
            index < old(self)@.len() ==> (r matches Some(line) && *line == old(self).lines@[index as int]
                && final(self)@ == old(self)@.update(index as int, (*final(line))@)
                && final(self)@.len() == old(self)@.len()),
            index >= old(self)@.len() ==> (r is None && *final(self) == *old(self)),
    {
        if index < self.lines.len() {
            Some(&mut self.lines[index])
        } else {
            None
        }
    }

    /// Inserts `line` before position `index`; an `index` past the end
    /// appends at the end instead of failing (lenient clamp policy).
    pub fn insert_line_at(&mut self, index: usize, line: Line)
        ensures
            index <= old(self)@.len() ==> final(self)@ == old(self)@.insert(index as int, line@),
            index > old(self)@.len() ==> final(self)@ == old(self)@.push(line@),
    {
        if index > self.lines.len() {
            self.lines.push(line);
            assert(final(self)@ =~= old(self)@.push(line@));
            return;
        }
        self.lines.insert(index, line);
        assert(final(self)@ =~= old(self)@.insert(index as int, line@));
    }

    /// Removes line `index`, which must be in range.
    pub fn remove_line_at(&mut self, index: usize)
        requires
            index < old(self)@.len(),
        ensures
            final(self)@ == old(self)@.remove(index as int),
    {
        self.lines.remove(index);
        assert(final(self)@ =~= old(self)@.remove(index as int));
    }

    /// Splits line `line_index` at character offset `char_index` into two
    /// lines: the prefix stays at `line_index` and the suffix is inserted
    /// immediately after. `char_index` counts Unicode scalar values.
    pub fn break_line_at(&mut self, line_index: usize, char_index: usize)
        requires
            line_index < old(self)@.len(),
            char_index <= old(self)@[line_index as int].len(),
        ensures
            final(self)@ == break_line_spec(old(self)@, line_index as int, char_index as int),
    {
        let n = self.lines.len();
        assert(line_index < n);
        let mut line = self.lines.remove(line_index);
        let right = line.split_off(char_index);
        self.lines.insert(line_index, line);
        self.lines.insert(line_index + 1, right);
        assert(final(self)@ =~= break_line_spec(old(self)@, line_index as int, char_index as int));
    }

    /// The number of Unicode scalar values in line `cursor_line`, or `None`
    /// if the index is out of range.
    pub fn line_char_length(&self, cursor_line: usize) -> (r: Option<usize>)
        ensures
            cursor_line < self@.len() ==> (r matches Some(n) && n == self@[cursor_line as int].len()),
            cursor_line >= self@.len() ==> r is None,
    {
        if let Some(line) = self.line_at(cursor_line) {
            return Some(line.len());
        }
        None
    }

    /// Concatenates line `cursor_line_2` onto line `cursor_line_1` and
    /// removes line `cursor_line_2`, which must be the line immediately
    /// after `cursor_line_1`.
    pub fn merge_lines(&mut self, cursor_line_1: usize, cursor_line_2: usize)
        requires
            cursor_line_2 == cursor_line_1 + 1,
            cursor_line_2 < old(self)@.len(),
        ensures
            final(self)@ == merge_lines_spec(old(self)@, cursor_line_1 as int),
    {
        let mut second = self.lines.remove(cursor_line_2);
        let mut first = self.lines.remove(cursor_line_1);
        first.append(&mut second);
        self.lines.insert(cursor_line_1, first);
        assert(final(self)@ =~= merge_lines_spec(old(self)@, cursor_line_1 as int));
    }

    /// The whole store serialized as one text, each line followed by one
    /// line feed; see `join_lines`.
    pub fn to_text(&self) -> (text: Vec<char>)
        ensures
            text@ == join_lines(self@),
    {
        let mut out: Vec<char> = Vec::new();
        let mut i: usize = 0;
        while i < self.lines.len()
            invariant
                i <= self.lines@.len(),
                join_lines(self@) =~= out@ + join_lines_from(self@, i as int),
            decreases self.lines@.len() - i,
        {
            let ghost prev = out@;
            let line = &self.lines[i];
            proof {
                assert(line@ == self@[i as int]);
            }
            let mut k: usize = 0;
            while k < line.len()
                invariant
                    k <= line@.len(),
                    out@ == prev + line@.subrange(0, k as int),
                decreases line@.len() - k,
            {
                out.push(line[k]);
                k += 1;
                assert(out@ =~= prev + line@.subrange(0, k as int));
            }
            out.push('\n');
            proof {
                assert(line@.subrange(0, line@.len() as int) =~= line@);
                assert(out@ =~= prev + self@[i as int].push('\n'));
                assert(join_lines(self@) =~= out@ + join_lines_from(self@, i + 1));
            }
            i += 1;
        }
        proof {
            assert(out@ =~= join_lines(self@));
        }
        out
    }

    /// Appends the characters of `line` as a new last line.
    pub fn add_line(&mut self, line: &str)
        ensures
            final(self)@ == old(self)@.push(line@),
    {
        self.lines.push(string_to_line(line));
        assert(final(self)@ =~= old(self)@.push(line@));
    }
}

impl Default for Buffer {
    /// The default buffer holds a single empty line, like `Buffer::new`.
    fn default() -> (b: Buffer)
        ensures
            b@.len() == 1,
            b@[0] == Seq::<char>::empty(),
    {
        Buffer::new()
    }
}

} // verus!
