//! What can be done to a buffer, and what each of these does to its lines
//! and its caret.
use vstd::prelude::*;
use vstd::string::*;
use crate::editor_buffer::EditorBufferView;
use crate::input_event::{InputEvent, Key, KeyPress, SpecialKey};
use crate::unicode_string::{grapheme_clusters, spec_segmented, UnicodeStringView};
use crate::units::{spec_min, spec_sub_or_zero, Position, Size};

verus! {

/// The way in which the caret moves by one step.
#[derive(Clone, Copy, Debug, PartialEq, Eq, Hash, Structural)]
pub enum CaretDirection {
    Up,
    Down,
    Left,
    Right,
}

/// One change of a buffer.
#[derive(Clone, Debug, PartialEq, Eq)]
pub enum EditorEvent {
    InsertChar(char),
    InsertString(String),
    InsertNewLine,
    Delete,
    Backspace,
    Home,
    End,
    PageDown,
    PageUp,
    MoveCaret(CaretDirection),
    Resize(Size),
}

/// One change of a buffer, with its text as a character sequence.
pub enum EditorEventView {
    InsertChar(char),
    InsertString(Seq<char>),
    InsertNewLine,
    Delete,
    Backspace,
    Home,
    End,
    PageDown,
    PageUp,
    MoveCaret(CaretDirection),
    Resize(Size),
}

impl View for EditorEvent {
    type V = EditorEventView;

    open spec fn view(&self) -> EditorEventView {
        match *self {
            EditorEvent::InsertChar(c) => EditorEventView::InsertChar(c),
            EditorEvent::InsertString(s) => EditorEventView::InsertString(s@),
            EditorEvent::InsertNewLine => EditorEventView::InsertNewLine,
            EditorEvent::Delete => EditorEventView::Delete,
            EditorEvent::Backspace => EditorEventView::Backspace,
            EditorEvent::Home => EditorEventView::Home,
            EditorEvent::End => EditorEventView::End,
            EditorEvent::PageDown => EditorEventView::PageDown,
            EditorEvent::PageUp => EditorEventView::PageUp,
            EditorEvent::MoveCaret(d) => EditorEventView::MoveCaret(d),
            EditorEvent::Resize(s) => EditorEventView::Resize(s),
        }
    }
}

/// The change of a buffer that a report of the terminal asks for, if it asks
/// for one: a character typed without modifier keys is inserted, Enter breaks
/// the line where the editor holds more than one line, Delete, Backspace,
/// Home, End, the page keys and the arrow keys do what they say, and a resize
/// is passed on. Every other report asks for nothing.
pub open spec fn spec_editor_event_of(input: InputEvent, multiline: bool) -> Option<
    EditorEventView,
> {
    match input {
        InputEvent::Keyboard(KeyPress::Plain { key }) => match key {
            Key::Character(c) => Some(EditorEventView::InsertChar(c)),
            Key::SpecialKey(SpecialKey::Enter) => if multiline {
                Some(EditorEventView::InsertNewLine)
            } else {
                None
            },
            Key::SpecialKey(SpecialKey::Delete) => Some(EditorEventView::Delete),
            Key::SpecialKey(SpecialKey::Backspace) => Some(EditorEventView::Backspace),
            Key::SpecialKey(SpecialKey::Home) => Some(EditorEventView::Home),
            Key::SpecialKey(SpecialKey::End) => Some(EditorEventView::End),
            Key::SpecialKey(SpecialKey::PageUp) => Some(EditorEventView::PageUp),
            Key::SpecialKey(SpecialKey::PageDown) => Some(EditorEventView::PageDown),
            Key::SpecialKey(SpecialKey::Up) => Some(
                EditorEventView::MoveCaret(CaretDirection::Up),
            ),
            Key::SpecialKey(SpecialKey::Down) => Some(
                EditorEventView::MoveCaret(CaretDirection::Down),
            ),
            Key::SpecialKey(SpecialKey::Left) => Some(
                EditorEventView::MoveCaret(CaretDirection::Left),
            ),
            Key::SpecialKey(SpecialKey::Right) => Some(
                EditorEventView::MoveCaret(CaretDirection::Right),
            ),
            _ => None,
        },
        InputEvent::Resize(size) => Some(EditorEventView::Resize(size)),
        _ => None,
    }
}

impl EditorEvent {
    /// The change of a buffer that a report of the terminal asks for, if it
    /// asks for one.
    pub fn try_from_input_event(input: &InputEvent, multiline: bool) -> (r: Option<EditorEvent>)
        ensures
            match r {
                Some(event) => spec_editor_event_of(*input, multiline) == Some(event@),
                None => spec_editor_event_of(*input, multiline) is None,
            },
    {
        match input {
            InputEvent::Keyboard(KeyPress::Plain { key }) => match key {
                Key::Character(c) => Some(EditorEvent::InsertChar(*c)),
                Key::SpecialKey(SpecialKey::Enter) => if multiline {
                    Some(EditorEvent::InsertNewLine)
                } else {
                    None
                },
                Key::SpecialKey(SpecialKey::Delete) => Some(EditorEvent::Delete),
                Key::SpecialKey(SpecialKey::Backspace) => Some(EditorEvent::Backspace),
                Key::SpecialKey(SpecialKey::Home) => Some(EditorEvent::Home),
                Key::SpecialKey(SpecialKey::End) => Some(EditorEvent::End),
                Key::SpecialKey(SpecialKey::PageUp) => Some(EditorEvent::PageUp),
                Key::SpecialKey(SpecialKey::PageDown) => Some(EditorEvent::PageDown),
                Key::SpecialKey(SpecialKey::Up) => Some(EditorEvent::MoveCaret(CaretDirection::Up)),
                Key::SpecialKey(SpecialKey::Down) => Some(
                    EditorEvent::MoveCaret(CaretDirection::Down),
                ),
                Key::SpecialKey(SpecialKey::Left) => Some(
                    EditorEvent::MoveCaret(CaretDirection::Left),
                ),
                Key::SpecialKey(SpecialKey::Right) => Some(
                    EditorEvent::MoveCaret(CaretDirection::Right),
                ),
                _ => None,
            },
            InputEvent::Resize(size) => Some(EditorEvent::Resize(*size)),
            _ => None,
        }
    }
}

/// The index `x` as a cell index: itself where it fits, else the largest
/// cell index there is.
pub open spec fn spec_clamp_index(x: int) -> u32 {
    if x > u32::MAX {
        u32::MAX
    } else if x < 0 {
        0
    } else {
        x as u32
    }
}

/// A text without characters and without segments.
pub open spec fn spec_no_text() -> UnicodeStringView {
    UnicodeStringView { string: Seq::empty(), segments: Seq::empty() }
}

impl EditorBufferView {
    /// The row of the caret.
    pub open spec fn row(self) -> int {
        self.caret.row_index as int
    }

    /// The column of the caret.
    pub open spec fn col(self) -> int {
        self.caret.col_index as int
    }

    /// The line under the caret. A buffer without lines counts as one empty
    /// line.
    pub open spec fn current_line(self) -> UnicodeStringView {
        if self.lines.len() == 0 {
            spec_no_text()
        } else {
            self.lines[self.row()]
        }
    }

    /// The buffer with the line under the caret replaced by `lines`.
    pub open spec fn replace_current_line(self, lines: Seq<UnicodeStringView>) -> Seq<
        UnicodeStringView,
    > {
        if self.lines.len() == 0 {
            lines
        } else {
            self.lines.take(self.row()) + lines + self.lines.skip(self.row() + 1)
        }
    }

    /// The text is inserted before the grapheme cluster under the caret, the
    /// line is divided anew, and the caret moves right by the number of
    /// clusters of the text, as far as the line reaches.
    pub open spec fn insert_text(self, text: Seq<char>) -> EditorBufferView {
        let line = self.current_line();
        let col = self.col();
        let new_line = spec_segmented(
            line.text_between(0, col) + text + line.text_between(col, line.segments.len() as int),
        );
        EditorBufferView {
            lines: self.replace_current_line(seq![new_line]),
            caret: Position {
                col_index: spec_clamp_index(
                    spec_min(col + grapheme_clusters(text).len(), new_line.segments.len() as int),
                ),
                row_index: self.caret.row_index,
            },
            ..self
        }
    }

    /// The line under the caret is broken in two before the cluster under
    /// the caret, and the caret moves to the start of the second part. On
    /// the last row that an index can name, nothing happens.
    pub open spec fn insert_new_line(self) -> EditorBufferView {
        if self.caret.row_index == u32::MAX {
            self
        } else {
            let line = self.current_line();
            let col = self.col();
            let left = spec_segmented(line.text_between(0, col));
            let right = spec_segmented(line.text_between(col, line.segments.len() as int));
            EditorBufferView {
                lines: self.replace_current_line(seq![left, right]),
                caret: Position { col_index: 0, row_index: (self.caret.row_index + 1) as u32 },
                ..self
            }
        }
    }

    /// The cluster under the caret is removed; at the end of a line the next
    /// line, if there is one, is joined to it. The caret stays.
    pub open spec fn delete(self) -> EditorBufferView {
        let line = self.current_line();
        let row = self.row();
        let col = self.col();
        let n = line.segments.len() as int;
        if self.lines.len() == 0 {
            self
        } else if col < n {
            EditorBufferView {
                lines: self.replace_current_line(
                    seq![spec_segmented(line.text_between(0, col) + line.text_between(col + 1, n))],
                ),
                ..self
            }
        } else if row + 1 < self.lines.len() {
            EditorBufferView {
                lines: self.lines.take(row) + seq![
                    spec_segmented(line.string + self.lines[row + 1].string),
                ] + self.lines.skip(row + 2),
                ..self
            }
        } else {
            self
        }
    }

    /// The cluster before the caret is removed and the caret moves left; at
    /// the start of a line the line is joined to the one before it, if there
    /// is one, and the caret moves to where that line ended.
    pub open spec fn backspace(self) -> EditorBufferView {
        let line = self.current_line();
        let row = self.row();
        let col = self.col();
        let n = line.segments.len() as int;
        if self.lines.len() == 0 {
            self
        } else if col > 0 {
            EditorBufferView {
                lines: self.replace_current_line(
                    seq![spec_segmented(line.text_between(0, col - 1) + line.text_between(col, n))],
                ),
                caret: Position { col_index: (col - 1) as u32, row_index: self.caret.row_index },
                ..self
            }
        } else if row > 0 {
            let previous = self.lines[row - 1];
            EditorBufferView {
                lines: self.lines.take(row - 1) + seq![
                    spec_segmented(previous.string + line.string),
                ] + self.lines.skip(row + 1),
                caret: Position {
                    col_index: spec_clamp_index(previous.segments.len() as int),
                    row_index: (row - 1) as u32,
                },
                ..self
            }
        } else {
            self
        }
    }

    /// The caret moves one step. Left of the start of a line is the end of
    /// the line before, right of the end of a line is the start of the next
    /// line; above the first line is its start, below the last line is its
    /// end. Where a line is shorter than the one the caret came from, the
    /// caret is at its end.
    pub open spec fn move_caret(self, direction: CaretDirection) -> EditorBufferView {
        let row = self.row();
        let col = self.col();
        let n = self.current_line().segments.len() as int;
        if self.lines.len() == 0 {
            self
        } else {
            let caret = match direction {
                CaretDirection::Left => if col > 0 {
                    Position { col_index: (col - 1) as u32, row_index: self.caret.row_index }
                } else if row > 0 {
                    Position {
                        col_index: spec_clamp_index(self.line_width(row - 1)),
                        row_index: (row - 1) as u32,
                    }
                } else {
                    self.caret
                },
                CaretDirection::Right => if col < n && col < u32::MAX {
                    Position { col_index: (col + 1) as u32, row_index: self.caret.row_index }
                } else if col >= n && row + 1 < self.lines.len() && row < u32::MAX {
                    Position { col_index: 0, row_index: (row + 1) as u32 }
                } else {
                    self.caret
                },
                CaretDirection::Up => if row > 0 {
                    Position {
                        col_index: spec_min(col, self.line_width(row - 1)) as u32,
                        row_index: (row - 1) as u32,
                    }
                } else {
                    Position { col_index: 0, row_index: 0 }
                },
                CaretDirection::Down => if row + 1 < self.lines.len() && row < u32::MAX {
                    Position {
                        col_index: spec_min(col, self.line_width(row + 1)) as u32,
                        row_index: (row + 1) as u32,
                    }
                } else {
                    Position { col_index: spec_clamp_index(n), row_index: self.caret.row_index }
                },
            };
            EditorBufferView { caret, ..self }
        }
    }

    /// The caret moves to the start of its line.
    pub open spec fn home(self) -> EditorBufferView {
        EditorBufferView {
            caret: Position { col_index: 0, row_index: self.caret.row_index },
            ..self
        }
    }

    /// The caret moves to the end of its line.
    pub open spec fn end(self) -> EditorBufferView {
        EditorBufferView {
            caret: Position {
                col_index: spec_clamp_index(self.current_line().segments.len() as int),
                row_index: self.caret.row_index,
            },
            ..self
        }
    }

    /// The caret moves up by the height of the viewport, as far as the
    /// first line.
    pub open spec fn page_up(self, viewport_height: u32) -> EditorBufferView {
        let row = spec_sub_or_zero(self.row(), viewport_height as int);
        EditorBufferView {
            caret: Position {
                col_index: spec_min(self.col(), self.line_width(row)) as u32,
                row_index: row as u32,
            },
            ..self
        }
    }

    /// The caret moves down by the height of the viewport, as far as the
    /// last line.
    pub open spec fn page_down(self, viewport_height: u32) -> EditorBufferView {
        if self.lines.len() == 0 {
            self
        } else {
            let row = spec_clamp_index(
                spec_min(self.row() + viewport_height, self.lines.len() - 1),
            ) as int;
            EditorBufferView {
                caret: Position {
                    col_index: spec_min(self.col(), self.line_width(row)) as u32,
                    row_index: row as u32,
                },
                ..self
            }
        }
    }

    /// What one change makes of the buffer, before the caret is brought back
    /// into the viewport.
    pub open spec fn edit(self, event: EditorEventView, viewport: Size) -> EditorBufferView {
        match event {
            EditorEventView::InsertChar(c) => self.insert_text(seq![c]),
            EditorEventView::InsertString(s) => self.insert_text(s),
            EditorEventView::InsertNewLine => self.insert_new_line(),
            EditorEventView::Delete => self.delete(),
            EditorEventView::Backspace => self.backspace(),
            EditorEventView::Home => self.home(),
            EditorEventView::End => self.end(),
            EditorEventView::PageDown => self.page_down(viewport.row_count),
            EditorEventView::PageUp => self.page_up(viewport.row_count),
            EditorEventView::MoveCaret(d) => self.move_caret(d),
            EditorEventView::Resize(_) => self,
        }
    }

    /// What one change makes of the buffer: the caret is brought into the
    /// text, the change is made, and caret and scroll offset are brought
    /// into line with the text and the viewport again.
    pub open spec fn apply(self, event: EditorEventView, viewport: Size) -> EditorBufferView {
        self.normalize(viewport).edit(event, viewport).normalize(viewport)
    }
}

/// Whatever the buffer and whatever the change: afterwards the caret is on a
/// line of the text and not behind the end of that line, a buffer without
/// lines has caret and scroll offset at the origin, and, where the viewport
/// has at least one row and one column, the viewport shows the caret.
pub proof fn law_apply_establishes_invariants(
    buffer: EditorBufferView,
    event: EditorEventView,
    viewport: Size,
)
    ensures
        buffer.apply(event, viewport).caret_in_text(),
        viewport.row_count >= 1 && viewport.col_count >= 1 ==> buffer.apply(
            event,
            viewport,
        ).caret_in_viewport(viewport),
{
    crate::editor_buffer::law_normalize_establishes_invariants(
        buffer.normalize(viewport).edit(event, viewport),
        viewport,
    );
}

/// A change that only moves the caret, and a resize, leave the lines as
/// they are.
pub proof fn law_moves_keep_the_lines(
    buffer: EditorBufferView,
    event: EditorEventView,
    viewport: Size,
)
    requires
        event is Home || event is End || event is PageUp || event is PageDown || event
            is MoveCaret || event is Resize,
    ensures
        buffer.apply(event, viewport).lines == buffer.lines,
        buffer.apply(event, viewport).file_extension == buffer.file_extension,
{
    crate::editor_buffer::law_normalize_establishes_invariants(buffer, viewport);
    crate::editor_buffer::law_normalize_establishes_invariants(
        buffer.normalize(viewport).edit(event, viewport),
        viewport,
    );
}

} // verus!
