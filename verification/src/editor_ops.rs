//! The changes of a buffer, carried out.
use vstd::prelude::*;
use vstd::string::*;
use crate::editor_buffer::{min_index, spec_line_views, EditorBuffer};
use crate::editor_event::{spec_clamp_index, spec_no_text, CaretDirection, EditorEvent};
use crate::unicode_string::UnicodeString;
use crate::units::{spec_min, Position, Size};

verus! {

/// The text that holds one character, made with `String::from`.
#[verifier::external_body]
pub(crate) fn string_of_char(c: char) -> (r: String)
    ensures
        r@ == seq![c],
{
    String::from(c)
}

/// The cell index `base + add`, but no more than `limit` and no more than
/// the largest cell index.
pub fn saturating_index(base: u32, add: usize, limit: usize) -> (r: u32)
    ensures
        r == spec_clamp_index(spec_min(base + add, limit as int)),
{
    let room: u32 = u32::MAX - base;
    let sum: u32 = if add >= room as usize {
        u32::MAX
    } else {
        base + add as u32
    };
    min_index(sum, limit)
}

/// The views of lines of which one was replaced.
proof fn lemma_views_update(lines: Seq<UnicodeString>, at: int, line: UnicodeString)
    requires
        0 <= at < lines.len(),
    ensures
        spec_line_views(lines.update(at, line)) == spec_line_views(lines).take(at) + seq![line@]
            + spec_line_views(lines).skip(at + 1),
{
    assert(spec_line_views(lines.update(at, line)) =~= spec_line_views(lines).take(at) + seq![
        line@,
    ] + spec_line_views(lines).skip(at + 1));
}

/// The views of lines between which one was inserted.
proof fn lemma_views_insert(lines: Seq<UnicodeString>, at: int, line: UnicodeString)
    requires
        0 <= at <= lines.len(),
    ensures
        spec_line_views(lines.insert(at, line)) == spec_line_views(lines).take(at) + seq![line@]
            + spec_line_views(lines).skip(at),
{
    assert(spec_line_views(lines.insert(at, line)) =~= spec_line_views(lines).take(at) + seq![
        line@,
    ] + spec_line_views(lines).skip(at));
}

/// The views of lines of which one was removed.
proof fn lemma_views_remove(lines: Seq<UnicodeString>, at: int)
    requires
        0 <= at < lines.len(),
    ensures
        spec_line_views(lines.remove(at)) == spec_line_views(lines).take(at) + spec_line_views(
            lines,
        ).skip(at + 1),
{
    assert(spec_line_views(lines.remove(at)) =~= spec_line_views(lines).take(at)
        + spec_line_views(lines).skip(at + 1));
}

impl EditorBuffer {
    /// Replaces the line under the caret.
    fn set_current_line(&mut self, line: UnicodeString)
        requires
            old(self)@.lines.len() > 0,
            old(self)@.caret.row_index < old(self)@.lines.len(),
        ensures
            final(self)@.lines == old(self)@.replace_current_line(seq![line@]),
            final(self)@.lines.len() == old(self)@.lines.len(),
            final(self).caret == old(self).caret,
            final(self).scroll_offset == old(self).scroll_offset,
            final(self).file_extension == old(self).file_extension,
            old(self).wf() && line.wf() ==> final(self).wf(),
    {
        let row: usize = self.caret.row_index as usize;
        proof {
            lemma_views_update(self.lines@, row as int, line);
        }
        self.lines.set(row, line);
        assert(old(self).wf() && line.wf() ==> self.wf()) by {
            if old(self).wf() && line.wf() {
                assert forall|i: int| 0 <= i < self@.lines.len() implies (
                #[trigger] self@.lines[i]).wf() by {
                    if i != row {
                        assert(self@.lines[i] == old(self)@.lines[i]);
                    }
                }
            }
        }
    }

    /// Inserts a text before the grapheme cluster under the caret and moves
    /// the caret behind it.
    pub(crate) fn insert_str_at_caret(&mut self, text: &str)
        requires
            old(self)@.caret_in_text(),
        ensures
            final(self)@ == old(self)@.insert_text(text@),
            old(self).wf() ==> final(self).wf(),
    {
        if self.lines.len() == 0 {
            let line = UnicodeString::new(text);
            let added: usize = line.grapheme_count();
            proof {
                let none = spec_no_text();
                assert(none.text_between(0, 0) =~= Seq::<char>::empty());
                assert(none.text_between(0, 0) + text@ + none.text_between(0, 0) =~= text@);
                assert(spec_line_views(self.lines@.push(line)) =~= seq![line@]);
            }
            self.lines.push(line);
            self.caret = Position {
                col_index: saturating_index(0, added, added),
                row_index: self.caret.row_index,
            };
        } else {
            let added: usize = UnicodeString::new(text).grapheme_count();
            let row: usize = self.caret.row_index as usize;
            let col: u32 = self.caret.col_index;
            assert(self@.lines[row as int] == self.lines@[row as int]@);
            let width: usize = self.lines[row].grapheme_count();
            let mut new_text = self.lines[row].text_between(0, col as usize);
            new_text.append(text);
            let tail = self.lines[row].text_between(col as usize, width);
            new_text.append(tail.as_str());
            let line = UnicodeString::new(new_text.as_str());
            let count: usize = line.grapheme_count();
            self.set_current_line(line);
            self.caret = Position {
                col_index: saturating_index(col, added, count),
                row_index: self.caret.row_index,
            };
        }
    }

    /// Breaks the line under the caret in two before the cluster under the
    /// caret.
    pub(crate) fn insert_new_line_at_caret(&mut self)
        requires
            old(self)@.caret_in_text(),
        ensures
            final(self)@ == old(self)@.insert_new_line(),
            old(self).wf() ==> final(self).wf(),
    {
        if self.caret.row_index == u32::MAX {
            return ;
        }
        if self.lines.len() == 0 {
            let left = UnicodeString::new("");
            let right = UnicodeString::new("");
            proof {
                reveal_strlit("");
                let none = spec_no_text();
                assert(""@ =~= Seq::<char>::empty());
                assert(none.text_between(0, 0) =~= Seq::<char>::empty());
                assert(spec_line_views(self.lines@.push(left).push(right)) =~= seq![left@, right@]);
            }
            self.lines.push(left);
            self.lines.push(right);
        } else {
            let row: usize = self.caret.row_index as usize;
            let col: usize = self.caret.col_index as usize;
            assert(self@.lines[row as int] == self.lines@[row as int]@);
            let width: usize = self.lines[row].grapheme_count();
            let left_text = self.lines[row].text_between(0, col);
            let right_text = self.lines[row].text_between(col, width);
            let left = UnicodeString::new(left_text.as_str());
            let right = UnicodeString::new(right_text.as_str());
            let ghost views = self@.lines;
            self.set_current_line(left);
            let ghost middle = self.lines@;
            proof {
                lemma_views_insert(middle, row + 1, right);
                assert(self@.lines.take(row + 1) + seq![right@] + self@.lines.skip(row + 1)
                    =~= views.take(row as int) + seq![left@, right@] + views.skip(row + 1));
            }
            self.lines.insert(row + 1, right);
            assert(old(self).wf() ==> self.wf()) by {
                if old(self).wf() {
                    assert forall|i: int| 0 <= i < self@.lines.len() implies (
                    #[trigger] self@.lines[i]).wf() by {
                        if i < row + 1 {
                            assert(self@.lines[i] == spec_line_views(middle)[i]);
                        } else if i > row + 1 {
                            assert(self@.lines[i] == spec_line_views(middle)[i - 1]);
                        }
                    }
                }
            }
        }
        self.caret = Position { col_index: 0, row_index: self.caret.row_index + 1 };
    }

    /// Removes the cluster under the caret, or joins the next line to this
    /// one where the caret is at the end of the line.
    pub(crate) fn delete_at_caret(&mut self)
        requires
            old(self)@.caret_in_text(),
        ensures
            final(self)@ == old(self)@.delete(),
            old(self).wf() ==> final(self).wf(),
    {
        if self.lines.len() == 0 {
            return ;
        }
        let row: usize = self.caret.row_index as usize;
        let col: usize = self.caret.col_index as usize;
        assert(self@.lines[row as int] == self.lines@[row as int]@);
        let width: usize = self.lines[row].grapheme_count();
        if col < width {
            let mut new_text = self.lines[row].text_between(0, col);
            let tail = self.lines[row].text_between(col + 1, width);
            new_text.append(tail.as_str());
            self.set_current_line(UnicodeString::new(new_text.as_str()));
        } else if row + 1 < self.lines.len() {
            assert(self@.lines[row + 1] == self.lines@[row + 1]@);
            let mut new_text = String::from_str(self.lines[row].as_str());
            new_text.append(self.lines[row + 1].as_str());
            let joined = UnicodeString::new(new_text.as_str());
            self.join_lines(row, joined);
        }
    }

    /// Replaces the line of index `row` and the one behind it by one line.
    fn join_lines(&mut self, row: usize, joined: UnicodeString)
        requires
            row + 1 < old(self)@.lines.len(),
        ensures
            final(self)@.lines == old(self)@.lines.take(row as int) + seq![joined@] + old(
                self,
            )@.lines.skip(row + 2),
            final(self).caret == old(self).caret,
            final(self).scroll_offset == old(self).scroll_offset,
            final(self).file_extension == old(self).file_extension,
            old(self).wf() && joined.wf() ==> final(self).wf(),
    {
        let ghost views = self@.lines;
        proof {
            lemma_views_update(self.lines@, row as int, joined);
        }
        self.lines.set(row, joined);
        let ghost middle = self.lines@;
        proof {
            lemma_views_remove(middle, row + 1);
        }
        self.lines.remove(row + 1);
        assert(self@.lines =~= views.take(row as int) + seq![joined@] + views.skip(row + 2));
        assert(old(self).wf() && joined.wf() ==> self.wf()) by {
            if old(self).wf() && joined.wf() {
                assert forall|i: int| 0 <= i < self@.lines.len() implies (
                #[trigger] self@.lines[i]).wf() by {
                    if i < row {
                        assert(self@.lines[i] == views[i]);
                    } else if i > row {
                        assert(self@.lines[i] == views[i + 1]);
                    }
                }
            }
        }
    }

    /// Removes the cluster before the caret, or joins this line to the one
    /// before it where the caret is at the start of the line.
    pub(crate) fn backspace_at_caret(&mut self)
        requires
            old(self)@.caret_in_text(),
        ensures
            final(self)@ == old(self)@.backspace(),
            old(self).wf() ==> final(self).wf(),
    {
        if self.lines.len() == 0 {
            return ;
        }
        let row: usize = self.caret.row_index as usize;
        let col: usize = self.caret.col_index as usize;
        assert(self@.lines[row as int] == self.lines@[row as int]@);
        let width: usize = self.lines[row].grapheme_count();
        if col > 0 {
            let mut new_text = self.lines[row].text_between(0, col - 1);
            let tail = self.lines[row].text_between(col, width);
            new_text.append(tail.as_str());
            self.set_current_line(UnicodeString::new(new_text.as_str()));
            self.caret = Position {
                col_index: self.caret.col_index - 1,
                row_index: self.caret.row_index,
            };
        } else if row > 0 {
            assert(self@.lines[row - 1] == self.lines@[row - 1]@);
            let previous_width: usize = self.lines[row - 1].grapheme_count();
            let mut new_text = String::from_str(self.lines[row - 1].as_str());
            new_text.append(self.lines[row].as_str());
            let joined = UnicodeString::new(new_text.as_str());
            self.join_lines(row - 1, joined);
            self.caret = Position {
                col_index: saturating_index(0, previous_width, previous_width),
                row_index: self.caret.row_index - 1,
            };
        }
    }

    /// The number of grapheme clusters of a line.
    fn width_of(&self, row: usize) -> (r: usize)
        requires
            row < self@.lines.len(),
        ensures
            r == self@.line_width(row as int),
    {
        assert(self@.lines[row as int] == self.lines@[row as int]@);
        self.lines[row].grapheme_count()
    }

    /// Moves the caret one step.
    pub(crate) fn move_caret(&mut self, direction: CaretDirection)
        requires
            old(self)@.caret_in_text(),
        ensures
            final(self)@ == old(self)@.move_caret(direction),
            final(self).lines == old(self).lines,
    {
        if self.lines.len() == 0 {
            return ;
        }
        let row: u32 = self.caret.row_index;
        let col: u32 = self.caret.col_index;
        let width: usize = self.width_of(row as usize);
        match direction {
            CaretDirection::Left => {
                if col > 0 {
                    self.caret = Position { col_index: col - 1, row_index: row };
                } else if row > 0 {
                    let previous: usize = self.width_of((row - 1) as usize);
                    self.caret = Position {
                        col_index: saturating_index(0, previous, previous),
                        row_index: row - 1,
                    };
                }
            },
            CaretDirection::Right => {
                if (col as usize) < width && col < u32::MAX {
                    self.caret = Position { col_index: col + 1, row_index: row };
                } else if col as usize >= width && (row as usize) + 1 < self.lines.len() && row
                    < u32::MAX {
                    self.caret = Position { col_index: 0, row_index: row + 1 };
                }
            },
            CaretDirection::Up => {
                if row > 0 {
                    let previous: usize = self.width_of((row - 1) as usize);
                    self.caret = Position {
                        col_index: min_index(col, previous),
                        row_index: row - 1,
                    };
                } else {
                    self.caret = Position { col_index: 0, row_index: 0 };
                }
            },
            CaretDirection::Down => {
                if (row as usize) + 1 < self.lines.len() && row < u32::MAX {
                    let next: usize = self.width_of((row + 1) as usize);
                    self.caret = Position { col_index: min_index(col, next), row_index: row + 1 };
                } else {
                    self.caret = Position {
                        col_index: saturating_index(0, width, width),
                        row_index: row,
                    };
                }
            },
        }
    }

    /// Moves the caret to the start of its line.
    pub(crate) fn home(&mut self)
        ensures
            final(self)@ == old(self)@.home(),
            final(self).lines == old(self).lines,
    {
        self.caret = Position { col_index: 0, row_index: self.caret.row_index };
    }

    /// Moves the caret to the end of its line.
    pub(crate) fn end(&mut self)
        requires
            old(self)@.caret_in_text(),
        ensures
            final(self)@ == old(self)@.end(),
            final(self).lines == old(self).lines,
    {
        let width: usize = if self.lines.len() == 0 {
            0
        } else {
            self.width_of(self.caret.row_index as usize)
        };
        self.caret = Position {
            col_index: saturating_index(0, width, width),
            row_index: self.caret.row_index,
        };
    }

    /// Moves the caret up by the height of the viewport.
    pub(crate) fn page_up(&mut self, viewport_height: u32)
        requires
            old(self)@.caret_in_text(),
        ensures
            final(self)@ == old(self)@.page_up(viewport_height),
            final(self).lines == old(self).lines,
    {
        let row: u32 = self.caret.row_index.saturating_sub(viewport_height);
        let width: usize = if (row as usize) < self.lines.len() {
            self.width_of(row as usize)
        } else {
            0
        };
        self.caret = Position { col_index: min_index(self.caret.col_index, width), row_index: row };
    }

    /// Moves the caret down by the height of the viewport.
    pub(crate) fn page_down(&mut self, viewport_height: u32)
        requires
            old(self)@.caret_in_text(),
        ensures
            final(self)@ == old(self)@.page_down(viewport_height),
            final(self).lines == old(self).lines,
    {
        if self.lines.len() == 0 {
            return ;
        }
        let row: u32 = saturating_index(
            self.caret.row_index,
            viewport_height as usize,
            self.lines.len() - 1,
        );
        let width: usize = if (row as usize) < self.lines.len() {
            self.width_of(row as usize)
        } else {
            0
        };
        self.caret = Position { col_index: min_index(self.caret.col_index, width), row_index: row };
    }

    /// Makes one change: brings the caret into the text, makes the change,
    /// and brings caret and scroll offset into line with the text and the
    /// viewport again.
    pub fn apply(&mut self, event: EditorEvent, viewport: Size)
        ensures
            final(self)@ == old(self)@.apply(event@, viewport),
            old(self).wf() ==> final(self).wf(),
            final(self)@.caret_in_text(),
            viewport.row_count >= 1 && viewport.col_count >= 1 ==> final(self)@.caret_in_viewport(
                viewport,
            ),
    {
        self.validate_scroll(viewport);
        proof {
            crate::editor_buffer::law_normalize_establishes_invariants(old(self)@, viewport);
        }
        match event {
            EditorEvent::InsertChar(c) => {
                let text = string_of_char(c);
                self.insert_str_at_caret(text.as_str());
            },
            EditorEvent::InsertString(s) => {
                self.insert_str_at_caret(s.as_str());
            },
            EditorEvent::InsertNewLine => {
                self.insert_new_line_at_caret();
            },
            EditorEvent::Delete => {
                self.delete_at_caret();
            },
            EditorEvent::Backspace => {
                self.backspace_at_caret();
            },
            EditorEvent::Home => {
                self.home();
            },
            EditorEvent::End => {
                self.end();
            },
            EditorEvent::PageDown => {
                self.page_down(viewport.row_count);
            },
            EditorEvent::PageUp => {
                self.page_up(viewport.row_count);
            },
            EditorEvent::MoveCaret(direction) => {
                self.move_caret(direction);
            },
            EditorEvent::Resize(_) => {},
        }
        let ghost edited = self@;
        self.validate_scroll(viewport);
        proof {
            crate::editor_buffer::law_normalize_establishes_invariants(edited, viewport);
        }
    }
}

} // verus!
