//! The text that an editor works on: lines, a caret and a scroll offset.
use vstd::prelude::*;
use vstd::string::*;
use crate::unicode_string::{
    spec_byte_len, spec_segmented, UnicodeString, UnicodeStringSegmentSliceResult,
    UnicodeStringView,
};
use crate::units::{spec_min, Position, Size};

verus! {

/// From where the caret is measured.
#[derive(Clone, Copy, Debug, PartialEq, Eq, Hash, Structural)]
pub enum CaretKind {
    /// From the top left cell of the viewport.
    Raw,
    /// From the first character of the first line.
    Absolute,
}

/// The lines of a buffer with its caret and scroll offset, as character
/// sequences. Caret and scroll offset are measured from the first character
/// of the first line.
pub struct EditorBufferView {
    pub lines: Seq<UnicodeStringView>,
    pub caret: Position,
    pub scroll_offset: Position,
    pub file_extension: Seq<char>,
}

/// The scroll offset along one axis that shows the caret with the least
/// change. The caret is shown where it is inside the window of `extent`
/// cells that begins at the scroll offset, or one cell behind that window
/// where `may_trail` allows it. A window without extent counts as one cell.
pub open spec fn spec_scroll_to_show(scroll: int, caret: int, extent: int, may_trail: bool) -> int {
    let window = if extent >= 1 {
        extent
    } else {
        1
    };
    let reach = if may_trail {
        window
    } else {
        window - 1
    };
    if caret < scroll {
        caret
    } else if caret - scroll > reach {
        caret - reach
    } else {
        scroll
    }
}

impl EditorBufferView {
    /// Every line is divided into its segments as it should be.
    pub open spec fn wf(self) -> bool {
        forall|i: int| 0 <= i < self.lines.len() ==> (#[trigger] self.lines[i]).wf()
    }

    /// There is no text: no line, or one line without a character.
    pub open spec fn is_empty(self) -> bool {
        self.lines.len() == 0 || (self.lines.len() == 1 && self.lines[0].string.len() == 0)
    }

    /// The number of grapheme clusters of a line; zero where there is no such
    /// line.
    pub open spec fn line_width(self, row: int) -> int {
        if 0 <= row < self.lines.len() {
            self.lines[row].segments.len() as int
        } else {
            0
        }
    }

    /// The caret is on a line of the text and not behind the end of that
    /// line; without lines, caret and scroll offset are at the origin.
    pub open spec fn caret_in_text(self) -> bool {
        &&& self.lines.len() == 0 ==> self.caret == (Position { col_index: 0, row_index: 0 })
            && self.scroll_offset == (Position { col_index: 0, row_index: 0 })
        &&& self.lines.len() > 0 ==> self.caret.row_index < self.lines.len()
        &&& self.lines.len() == 0 ==> self.caret.row_index < 1
        &&& self.caret.col_index <= self.line_width(self.caret.row_index as int)
    }

    /// The caret is inside the viewport of the given size that begins at the
    /// scroll offset; at the end of its line it may stand one column behind
    /// the viewport.
    pub open spec fn caret_in_viewport(self, viewport: Size) -> bool {
        &&& self.scroll_offset.row_index <= self.caret.row_index < self.scroll_offset.row_index
            + viewport.row_count
        &&& self.scroll_offset.col_index <= self.caret.col_index
        &&& self.caret.col_index < self.scroll_offset.col_index + viewport.col_count || (
        self.caret.col_index == self.line_width(self.caret.row_index as int)
            && self.caret.col_index <= self.scroll_offset.col_index + viewport.col_count)
    }

    /// The caret measured from the top left cell of the viewport.
    pub open spec fn caret_raw(self) -> Position {
        self.caret.spec_relative_to(self.scroll_offset)
    }

    /// The buffer with its caret moved into the text and its scroll offset
    /// moved, as little as possible, so that the viewport shows the caret.
    pub open spec fn normalize(self, viewport: Size) -> EditorBufferView {
        if self.lines.len() == 0 {
            EditorBufferView {
                caret: Position { col_index: 0, row_index: 0 },
                scroll_offset: Position { col_index: 0, row_index: 0 },
                ..self
            }
        } else {
            let row = spec_min(self.caret.row_index as int, self.lines.len() - 1);
            let col = spec_min(self.caret.col_index as int, self.line_width(row));
            EditorBufferView {
                caret: Position { col_index: col as u32, row_index: row as u32 },
                scroll_offset: Position {
                    col_index: spec_scroll_to_show(
                        self.scroll_offset.col_index as int,
                        col,
                        viewport.col_count as int,
                        col == self.line_width(row),
                    ) as u32,
                    row_index: spec_scroll_to_show(
                        self.scroll_offset.row_index as int,
                        row,
                        viewport.row_count as int,
                        false,
                    ) as u32,
                },
                ..self
            }
        }
    }

    /// What stands under the caret: the grapheme cluster, its index in the
    /// line, and the number of bytes of the line before it. Nothing where
    /// the caret is behind the end of its line or on no line.
    pub open spec fn string_at_caret(self) -> Option<(Seq<char>, int, nat)> {
        let row = self.caret.row_index as int;
        let col = self.caret.col_index as int;
        if row < self.lines.len() && col < self.lines[row].segments.len() {
            Some(
                (
                    self.lines[row].segments[col],
                    col,
                    spec_byte_len(self.lines[row].text_between(0, col)),
                ),
            )
        } else {
            None
        }
    }
}

/// Moving the caret into the text and the viewport over the caret
/// establishes what holds of every buffer: the caret is on a line and not
/// behind its end, and, where the viewport has at least one row and one
/// column, the viewport shows the caret. The lines stay as they are.
pub proof fn law_normalize_establishes_invariants(buffer: EditorBufferView, viewport: Size)
    ensures
        buffer.normalize(viewport).lines == buffer.lines,
        buffer.normalize(viewport).file_extension == buffer.file_extension,
        buffer.normalize(viewport).caret_in_text(),
        viewport.row_count >= 1 && viewport.col_count >= 1 ==> buffer.normalize(
            viewport,
        ).caret_in_viewport(viewport),
{
}

/// A buffer whose caret is in the text and in the viewport stays as it is.
pub proof fn law_normalize_keeps_valid_buffers(buffer: EditorBufferView, viewport: Size)
    requires
        buffer.caret_in_text(),
        buffer.caret_in_viewport(viewport),
    ensures
        buffer.normalize(viewport) == buffer,
{
}

/// The views of a sequence of lines, in order.
pub open spec fn spec_line_views(lines: Seq<UnicodeString>) -> Seq<UnicodeStringView> {
    lines.map_values(|l: UnicodeString| l@)
}

/// Lines of text with a caret and a scroll offset.
#[derive(Clone, Debug, PartialEq, Eq)]
pub struct EditorBuffer {
    pub lines: Vec<UnicodeString>,
    pub caret: Position,
    pub scroll_offset: Position,
    pub file_extension: String,
}

impl View for EditorBuffer {
    type V = EditorBufferView;

    open spec fn view(&self) -> EditorBufferView {
        EditorBufferView {
            lines: spec_line_views(self.lines@),
            caret: self.caret,
            scroll_offset: self.scroll_offset,
            file_extension: self.file_extension@,
        }
    }
}

/// The smaller of a cell index and a count.
pub fn min_index(index: u32, count: usize) -> (r: u32)
    ensures
        r == spec_min(index as int, count as int),
{
    if (index as usize) < count {
        index
    } else {
        count as u32
    }
}

/// The scroll offset along one axis that shows the caret.
pub fn scroll_to_show(scroll: u32, caret: u32, extent: u32, may_trail: bool) -> (r: u32)
    ensures
        r == spec_scroll_to_show(scroll as int, caret as int, extent as int, may_trail),
{
    let window: u32 = if extent >= 1 {
        extent
    } else {
        1
    };
    let reach: u32 = if may_trail {
        window
    } else {
        window - 1
    };
    if caret < scroll {
        caret
    } else if caret - scroll > reach {
        caret - reach
    } else {
        scroll
    }
}

impl EditorBuffer {
    /// Every line is divided into its segments as it should be.
    pub open spec fn wf(&self) -> bool {
        self@.wf()
    }

    /// A buffer without lines for a file of the given extension.
    pub fn new_empty(file_extension: &str) -> (r: EditorBuffer)
        ensures
            r@.lines == Seq::<UnicodeStringView>::empty(),
            r@.caret == (Position { col_index: 0, row_index: 0 }),
            r@.scroll_offset == (Position { col_index: 0, row_index: 0 }),
            r@.file_extension == file_extension@,
            r.wf(),
            r@.caret_in_text(),
    {
        let r = EditorBuffer {
            lines: Vec::new(),
            caret: Position { col_index: 0, row_index: 0 },
            scroll_offset: Position { col_index: 0, row_index: 0 },
            file_extension: String::from_str(file_extension),
        };
        assert(r@.lines =~= Seq::<UnicodeStringView>::empty());
        r
    }

    /// Replaces the lines by the given texts, each divided into its grapheme
    /// clusters, and moves caret and scroll offset to the origin.
    pub fn set_lines(&mut self, texts: &Vec<String>)
        ensures
            final(self)@.lines.len() == texts@.len(),
            forall|i: int|
                0 <= i < texts@.len() ==> #[trigger] final(self)@.lines[i] == spec_segmented(
                    texts@[i]@,
                ),
            final(self)@.caret == (Position { col_index: 0, row_index: 0 }),
            final(self)@.scroll_offset == (Position { col_index: 0, row_index: 0 }),
            final(self)@.file_extension == old(self)@.file_extension,
            final(self).wf(),
            final(self)@.caret_in_text(),
    {
        let mut lines: Vec<UnicodeString> = Vec::new();
        let mut i: usize = 0;
        while i < texts.len()
            invariant
                i <= texts.len(),
                lines@.len() == i,
                forall|j: int| 0 <= j < i ==> (#[trigger] lines@[j])@ == spec_segmented(texts@[j]@),
                forall|j: int| 0 <= j < i ==> (#[trigger] lines@[j]).wf(),
            decreases texts.len() - i,
        {
            lines.push(UnicodeString::new(texts[i].as_str()));
            i += 1;
        }
        self.lines = lines;
        self.caret = Position { col_index: 0, row_index: 0 };
        self.scroll_offset = Position { col_index: 0, row_index: 0 };
    }

    pub fn get_lines(&self) -> (r: &Vec<UnicodeString>)
        ensures
            spec_line_views(r@) == self@.lines,
    {
        &self.lines
    }

    /// The caret, measured as `kind` says.
    pub fn get_caret(&self, kind: CaretKind) -> (r: Position)
        ensures
            r == match kind {
                CaretKind::Raw => self@.caret_raw(),
                CaretKind::Absolute => self@.caret,
            },
    {
        match kind {
            CaretKind::Raw => self.caret.relative_to(self.scroll_offset),
            CaretKind::Absolute => self.caret,
        }
    }

    pub fn get_scroll_offset(&self) -> (r: Position)
        ensures
            r == self@.scroll_offset,
    {
        self.scroll_offset
    }

    pub fn get_file_extension(&self) -> (r: &str)
        ensures
            r@ == self@.file_extension,
    {
        self.file_extension.as_str()
    }

    /// Whether there is no text: no line, or one line without a character.
    pub fn is_empty(&self) -> (r: bool)
        ensures
            r == self@.is_empty(),
    {
        if self.lines.len() == 0 {
            true
        } else if self.lines.len() == 1 {
            assert(self@.lines[0] == self.lines@[0]@);
            self.lines[0].is_empty()
        } else {
            false
        }
    }

    /// What stands under the caret.
    pub fn string_at_caret(&self) -> (r: Option<UnicodeStringSegmentSliceResult>)
        ensures
            match (r, self@.string_at_caret()) {
                (Some(found), Some((segment, grapheme_index, byte_index))) => found.segment@
                    == segment && found.grapheme_index == grapheme_index && found.byte_index
                    == byte_index,
                (None, None) => true,
                _ => false,
            },
    {
        let row: usize = self.caret.row_index as usize;
        if row < self.lines.len() {
            assert(self@.lines[row as int] == self.lines@[row as int]@);
            self.lines[row].segment_slice_at(self.caret.col_index as usize)
        } else {
            None
        }
    }

    /// Moves the caret into the text and the scroll offset so that a
    /// viewport of the given size shows the caret.
    pub fn validate_scroll(&mut self, viewport: Size)
        ensures
            final(self)@ == old(self)@.normalize(viewport),
            final(self).lines == old(self).lines,
    {
        if self.lines.len() == 0 {
            self.caret = Position { col_index: 0, row_index: 0 };
            self.scroll_offset = Position { col_index: 0, row_index: 0 };
        } else {
            let row: u32 = min_index(self.caret.row_index, self.lines.len() - 1);
            assert(self@.lines[row as int] == self.lines@[row as int]@);
            let width: usize = self.lines[row as usize].grapheme_count();
            let col: u32 = min_index(self.caret.col_index, width);
            self.caret = Position { col_index: col, row_index: row };
            self.scroll_offset = Position {
                col_index: scroll_to_show(
                    self.scroll_offset.col_index,
                    col,
                    viewport.col_count,
                    col as usize == width,
                ),
                row_index: scroll_to_show(
                    self.scroll_offset.row_index,
                    row,
                    viewport.row_count,
                    false,
                ),
            };
        }
    }

    /// A second buffer with the same lines, caret, scroll offset and file
    /// extension.
    pub fn duplicate(&self) -> (r: EditorBuffer)
        ensures
            r@ == self@,
    {
        let mut lines: Vec<UnicodeString> = Vec::new();
        let mut i: usize = 0;
        assert(spec_line_views(lines@) =~= self@.lines.take(0));
        while i < self.lines.len()
            invariant
                i <= self.lines.len(),
                self@.lines.len() == self.lines.len(),
                spec_line_views(lines@) == self@.lines.take(i as int),
            decreases self.lines.len() - i,
        {
            let ghost before = lines@;
            let copy = self.lines[i].duplicate();
            lines.push(copy);
            assert(spec_line_views(lines@) =~= spec_line_views(before).push(copy@));
            assert(self@.lines.take(i as int).push(self@.lines[i as int]) =~= self@.lines.take(
                i + 1,
            ));
            i += 1;
        }
        assert(self@.lines.take(self@.lines.len() as int) =~= self@.lines);
        EditorBuffer {
            lines,
            caret: self.caret,
            scroll_offset: self.scroll_offset,
            file_extension: self.file_extension.clone(),
        }
    }
}

} // verus!
