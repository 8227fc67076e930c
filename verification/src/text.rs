//! The editable text buffer a form field owns: one or more lines of
//! characters and a cursor, with character insertion and deletion,
//! and conversion to and from the flat text a record field stores
//! (lines joined by newlines).

use vstd::prelude::*;
use crate::chars::{chars_of, string_from_chars};
use crate::event::{KeyCode, KeyEvent};

verus! {

/// The lines a sequence of character vectors stands for.
pub open spec fn seq_lines_view(l: Seq<Vec<char>>) -> Seq<Seq<char>> {
    Seq::new(l.len(), |i: int| l[i]@)
}

/// A line that holds no newline character.
pub open spec fn line_clean(l: Seq<char>) -> bool {
    forall|i: int| 0 <= i < l.len() ==> #[trigger] l[i] != '\n'
}

/// The flat text a list of lines stands for: the lines joined by
/// single newline characters.
pub open spec fn spec_join_lines(ls: Seq<Seq<char>>) -> Seq<char>
    decreases ls.len(),
{
    if ls.len() == 0 {
        Seq::empty()
    } else if ls.len() == 1 {
        ls[0]
    } else {
        spec_join_lines(ls.drop_last()) + seq!['\n'] + ls.last()
    }
}

/// `post` is `pre` with `c` inserted at the cursor and the cursor
/// moved past it.
pub open spec fn inserted_char(pre: TextBuffer, post: TextBuffer, c: char) -> bool {
    &&& post.row == pre.row
    &&& post.col == pre.col + 1
    &&& post.view_lines() == pre.view_lines().update(
        pre.row as int,
        pre.view_lines()[pre.row as int].insert(pre.col as int, c),
    )
}

/// `post` is `pre` with the character before the cursor deleted: in
/// the middle of a line the character goes; at the start of a line
/// the line is joined onto the previous one; at the start of the
/// buffer nothing changes.
pub open spec fn backspaced(pre: TextBuffer, post: TextBuffer) -> bool {
    if pre.col > 0 {
        &&& post.row == pre.row
        &&& post.col == pre.col - 1
        &&& post.view_lines() == pre.view_lines().update(
            pre.row as int,
            pre.view_lines()[pre.row as int].remove(pre.col - 1),
        )
    } else if pre.row > 0 {
        &&& post.row == pre.row - 1
        &&& post.col == pre.view_lines()[pre.row - 1].len()
        &&& post.view_lines() == pre.view_lines().subrange(0, pre.row - 1).push(
            pre.view_lines()[pre.row - 1] + pre.view_lines()[pre.row as int],
        ) + pre.view_lines().subrange(pre.row + 1, pre.view_lines().len() as int)
    } else {
        post == pre
    }
}

/// `post` is `pre` with the cursor one step left within its line,
/// stopping at the line start.
pub open spec fn cursor_moved_left(pre: TextBuffer, post: TextBuffer) -> bool {
    &&& post.lines == pre.lines
    &&& post.row == pre.row
    &&& post.col == if pre.col > 0 {
        pre.col - 1
    } else {
        0
    }
}

/// `post` is `pre` with the cursor one step right within its line,
/// stopping at the line end.
pub open spec fn cursor_moved_right(pre: TextBuffer, post: TextBuffer) -> bool {
    &&& post.lines == pre.lines
    &&& post.row == pre.row
    &&& post.col == if pre.col < pre.view_lines()[pre.row as int].len() {
        pre.col + 1
    } else {
        pre.col as int
    }
}

/// What one key event makes of a buffer: a plain character key
/// inserts, backspace deletes, the horizontal arrows move the
/// cursor, and every other key leaves the buffer unchanged.
pub open spec fn buffer_input(pre: TextBuffer, post: TextBuffer, key: KeyEvent) -> bool {
    match key.code {
        KeyCode::Char(c) => if key.ctrl {
            post == pre
        } else {
            inserted_char(pre, post, c)
        },
        KeyCode::Backspace => backspaced(pre, post),
        KeyCode::Left => cursor_moved_left(pre, post),
        KeyCode::Right => cursor_moved_right(pre, post),
        _ => post == pre,
    }
}

/// A joined text without newlines can only come from a single line,
/// and that line is the text itself.
pub proof fn lemma_one_line_text(ls: Seq<Seq<char>>)
    requires
        ls.len() >= 1,
        line_clean(spec_join_lines(ls)),
    ensures
        ls.len() == 1,
        ls[0] == spec_join_lines(ls),
{
    if ls.len() >= 2 {
        let j = spec_join_lines(ls);
        let k = spec_join_lines(ls.drop_last()).len() as int;
        assert(j[k] == '\n');
        assert(false);
    }
}

/// An editable multi-line text buffer with a cursor. A form field
/// owns one; only the first line takes part in numeric and date
/// parsing.
#[derive(Debug)]
pub struct TextBuffer {
    pub lines: Vec<Vec<char>>,
    pub row: usize,
    pub col: usize,
}

impl TextBuffer {
    /// The buffer's lines as sequences of characters.
    pub open spec fn view_lines(&self) -> Seq<Seq<char>> {
        seq_lines_view(self.lines@)
    }

    /// Well-formed buffer: at least one line, and a cursor inside the
    /// line it points into (possibly one past its end).
    pub open spec fn wf(&self) -> bool {
        &&& self.lines@.len() >= 1
        &&& self.row < self.lines@.len()
        &&& self.col <= self.lines@[self.row as int]@.len()
    }

    /// The flat text the buffer holds.
    pub open spec fn text_view(&self) -> Seq<char> {
        spec_join_lines(self.view_lines())
    }

    /// An empty buffer: a single empty line, cursor at its start.
    pub fn new() -> (b: TextBuffer)
        ensures
            b.wf(),
            b.view_lines() =~= seq![Seq::<char>::empty()],
            b.row == 0,
            b.col == 0,
    {
        let mut lines: Vec<Vec<char>> = Vec::new();
        lines.push(Vec::new());
        TextBuffer { lines, row: 0, col: 0 }
    }

    /// Number of lines in the buffer.
    pub fn line_count(&self) -> (n: usize)
        ensures
            n == self.view_lines().len(),
    {
        self.lines.len()
    }

    /// The line at the given row.
    pub fn line_at(&self, i: usize) -> (s: String)
        requires
            i < self.view_lines().len(),
        ensures
            s@ == self.view_lines()[i as int],
    {
        string_from_chars(&self.lines[i])
    }

    /// The buffer's first line, the one numeric and date parsing read.
    pub fn first_line(&self) -> (l: &Vec<char>)
        requires
            self.wf(),
        ensures
            l@ == self.view_lines()[0],
    {
        &self.lines[0]
    }

    /// A buffer as a freshly opened form field holds it: one empty
    /// line, cursor at its start.
    pub open spec fn is_fresh(&self) -> bool {
        &&& self.view_lines() == seq![Seq::<char>::empty()]
        &&& self.row == 0
        &&& self.col == 0
    }

    /// Insert a character at the cursor and move the cursor past it.
    pub fn insert_char(&mut self, c: char)
        requires
            old(self).wf(),
        ensures
            final(self).wf(),
            inserted_char(*old(self), *final(self), c),
    {
        let mut line = self.lines.remove(self.row);
        line.insert(self.col, c);
        proof {
            vstd::std_specs::vec::axiom_spec_len(&line);
        }
        self.lines.insert(self.row, line);
        self.col = self.col + 1;
        proof {
            assert(final(self).view_lines() =~= old(self).view_lines().update(
                old(self).row as int,
                old(self).view_lines()[old(self).row as int].insert(old(self).col as int, c),
            ));
        }
    }

    /// Delete the character before the cursor. At the start of a line
    /// the line is joined onto the previous one; at the start of the
    /// buffer nothing happens.
    pub fn backspace(&mut self)
        requires
            old(self).wf(),
        ensures
            final(self).wf(),
            backspaced(*old(self), *final(self)),
    {
        if self.col > 0 {
            let mut line = self.lines.remove(self.row);
            line.remove(self.col - 1);
            self.lines.insert(self.row, line);
            self.col = self.col - 1;
            proof {
                assert(final(self).view_lines() =~= old(self).view_lines().update(
                    old(self).row as int,
                    old(self).view_lines()[old(self).row as int].remove(old(self).col - 1),
                ));
            }
        } else if self.row > 0 {
            let mut tail = self.lines.remove(self.row);
            self.row = self.row - 1;
            let mut line = self.lines.remove(self.row);
            self.col = line.len();
            line.append(&mut tail);
            self.lines.insert(self.row, line);
            proof {
                assert(final(self).view_lines() =~= old(self).view_lines().subrange(
                    0,
                    old(self).row - 1,
                ).push(
                    old(self).view_lines()[old(self).row - 1] + old(self).view_lines()[old(
                        self,
                    ).row as int],
                ) + old(self).view_lines().subrange(
                    old(self).row + 1,
                    old(self).view_lines().len() as int,
                ));
            }
        }
    }

    /// Move the cursor one character left within the current line.
    pub fn cursor_left(&mut self)
        requires
            old(self).wf(),
        ensures
            final(self).wf(),
            cursor_moved_left(*old(self), *final(self)),
    {
        if self.col > 0 {
            self.col = self.col - 1;
        }
    }

    /// Move the cursor one character right within the current line.
    pub fn cursor_right(&mut self)
        requires
            old(self).wf(),
        ensures
            final(self).wf(),
            cursor_moved_right(*old(self), *final(self)),
    {
        if self.col < self.lines[self.row].len() {
            self.col = self.col + 1;
        }
    }

    /// Apply one key event to the buffer: a plain character key
    /// inserts, backspace deletes, the horizontal arrows move the
    /// cursor; every other key leaves the buffer unchanged.
    pub fn input(&mut self, key: &KeyEvent)
        requires
            old(self).wf(),
        ensures
            final(self).wf(),
            buffer_input(*old(self), *final(self), *key),
    {
        match key.code {
            KeyCode::Char(c) => {
                if !key.ctrl {
                    self.insert_char(c);
                }
            },
            KeyCode::Backspace => {
                self.backspace();
            },
            KeyCode::Left => {
                self.cursor_left();
            },
            KeyCode::Right => {
                self.cursor_right();
            },
            _ => {},
        }
    }

    /// The flat text of the buffer: its lines joined by newlines.
    pub fn text(&self) -> (s: String)
        requires
            self.wf(),
        ensures
            s@ == self.text_view(),
    {
        let ghost ls = self.view_lines();
        let mut out: Vec<char> = Vec::new();
        let mut i: usize = 0;
        while i < self.lines.len()
            invariant
                i <= self.lines.len(),
                ls == self.view_lines(),
                out@ == spec_join_lines(ls.take(i as int)),
            decreases self.lines.len() - i,
        {
            if i > 0 {
                out.push('\n');
            }
            let mut j: usize = 0;
            let ghost base = out@;
            while j < self.lines[i].len()
                invariant
                    i < self.lines.len(),
                    j <= self.lines@[i as int]@.len(),
                    ls == self.view_lines(),
                    out@ == base + ls[i as int].take(j as int),
                decreases self.lines@[i as int]@.len() - j,
            {
                let c = self.lines[i][j];
                out.push(c);
                proof {
                    assert(out@ =~= base + ls[i as int].take(j + 1));
                }
                j = j + 1;
            }
            proof {
                assert(ls[i as int].take(ls[i as int].len() as int) =~= ls[i as int]);
                if i == 0 {
                    assert(out@ =~= spec_join_lines(ls.take(1)));
                } else {
                    assert(ls.take(i + 1).drop_last() =~= ls.take(i as int));
                    assert(out@ =~= spec_join_lines(ls.take(i as int)) + seq!['\n'] + ls[i as int]);
                    assert(out@ =~= spec_join_lines(ls.take(i + 1)));
                }
            }
            i = i + 1;
        }
        proof {
            assert(ls.take(ls.len() as int) =~= ls);
        }
        string_from_chars(&out)
    }

    /// The buffer holding the given text: the text split at newlines,
    /// cursor at the start.
    pub fn from_text(s: &str) -> (b: TextBuffer)
        ensures
            b.wf(),
            b.text_view() == s@,
            forall|i: int| 0 <= i < b.view_lines().len() ==> line_clean(#[trigger] b.view_lines()[i]),
            b.row == 0,
            b.col == 0,
    {
        let cs = chars_of(s);
        let mut lines: Vec<Vec<char>> = Vec::new();
        let mut cur: Vec<char> = Vec::new();
        let mut i: usize = 0;
        while i < cs.len()
            invariant
                i <= cs.len(),
                cs@ == s@,
                spec_join_lines(seq_lines_view(lines@).push(cur@)) == s@.take(i as int),
                forall|k: int|
                    0 <= k < lines@.len() ==> line_clean(#[trigger] seq_lines_view(lines@)[k]),
                line_clean(cur@),
            decreases cs.len() - i,
        {
            let c = cs[i];
            let ghost pre = seq_lines_view(lines@).push(cur@);
            if c == '\n' {
                let ghost before = lines@;
                lines.push(cur);
                cur = Vec::new();
                proof {
                    let now = seq_lines_view(lines@).push(cur@);
                    assert(now.drop_last() =~= pre);
                    assert(spec_join_lines(now) =~= s@.take(i + 1));
                    assert forall|k: int| 0 <= k < lines@.len() implies line_clean(
                        #[trigger] seq_lines_view(lines@)[k],
                    ) by {
                        if k < before.len() {
                            assert(seq_lines_view(lines@)[k] == seq_lines_view(before)[k]);
                        } else {
                            assert(seq_lines_view(lines@)[k] == pre.last());
                        }
                    }
                }
            } else {
                cur.push(c);
                proof {
                    let now = seq_lines_view(lines@).push(cur@);
                    assert(now.drop_last() =~= pre.drop_last());
                    if lines@.len() == 0 {
                        assert(spec_join_lines(now) =~= s@.take(i + 1));
                    } else {
                        assert(spec_join_lines(pre) == spec_join_lines(pre.drop_last()) + seq![
                            '\n',
                        ] + pre.last());
                        assert(spec_join_lines(now) == spec_join_lines(now.drop_last()) + seq![
                            '\n',
                        ] + now.last());
                        assert(spec_join_lines(now) =~= s@.take(i + 1));
                    }
                }
            }
            i = i + 1;
        }
        let ghost pre = seq_lines_view(lines@).push(cur@);
        let ghost before = lines@;
        lines.push(cur);
        proof {
            assert(seq_lines_view(lines@) =~= pre);
            assert(s@.take(s@.len() as int) =~= s@);
            assert forall|k: int| 0 <= k < lines@.len() implies line_clean(
                #[trigger] seq_lines_view(lines@)[k],
            ) by {
                if k < before.len() {
                    assert(seq_lines_view(lines@)[k] == seq_lines_view(before)[k]);
                } else {
                    assert(seq_lines_view(lines@)[k] == pre.last());
                }
            }
        }
        TextBuffer { lines, row: 0, col: 0 }
    }
}

} // verus!
