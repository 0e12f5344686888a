//! Small types and constants that the parts of the library share.
use vstd::prelude::*;
use vstd::std_specs::convert::FromSpecImpl;
use crate::editor_buffer::EditorBuffer;
use crate::layout::FlexBoxId;
use crate::styled_text::List;
use crate::unicode_string::UnicodeString;
use crate::units::Position;

verus! {

/// A scroll offset is a position.
pub type ScrollOffset = Position;

/// The short name of a text with its grapheme clusters.
pub type US = UnicodeString;

/// What fills a cell that holds nothing.
pub const SPACER: &'static str = " ";

/// The file extension that is highlighted where none is given.
pub const DEFAULT_SYN_HI_FILE_EXT: &'static str = "md";

/// The smallest window in which a layout is painted.
#[derive(Clone, Copy, Debug, Eq, PartialEq, Structural)]
pub enum MinSize {
    Col,
    Row,
}

impl MinSize {
    /// The number of columns or rows that the window must have.
    pub open spec fn spec_value(self) -> u8 {
        match self {
            MinSize::Col => 65,
            MinSize::Row => 11,
        }
    }

    pub fn value(self) -> (r: u8)
        ensures
            r == self.spec_value(),
    {
        match self {
            MinSize::Col => 65,
            MinSize::Row => 11,
        }
    }
}

/// Sizes that are taken where none is given.
#[derive(Clone, Copy, Debug, Eq, PartialEq, Structural)]
pub enum DefaultSize {
    GlobalDataCacheSize,
}

impl DefaultSize {
    /// The size in bytes.
    pub open spec fn spec_value(self) -> usize {
        1_000_000
    }

    pub fn value(self) -> (r: usize)
        ensures
            r == self.spec_value(),
    {
        1_000_000
    }
}

/// The pieces that the border of a box is drawn with.
#[derive(Clone, Copy, Debug, Eq, PartialEq, Structural)]
pub enum BorderGlyphCharacter {
    TopRight,
    TopLeft,
    BottomRight,
    BottomLeft,
    Horizontal,
    Vertical,
    LineUpDownLeft,
    LineUpDownRight,
}

impl BorderGlyphCharacter {
    /// The character that draws the piece.
    pub open spec fn spec_glyph(self) -> Seq<char> {
        match self {
            BorderGlyphCharacter::TopRight => "╮"@,
            BorderGlyphCharacter::TopLeft => "╭"@,
            BorderGlyphCharacter::BottomRight => "╯"@,
            BorderGlyphCharacter::BottomLeft => "╰"@,
            BorderGlyphCharacter::Horizontal => "─"@,
            BorderGlyphCharacter::Vertical => "│"@,
            BorderGlyphCharacter::LineUpDownLeft => "┤"@,
            BorderGlyphCharacter::LineUpDownRight => "├"@,
        }
    }

    pub fn as_ref(&self) -> (r: &'static str)
        ensures
            r@ == self.spec_glyph(),
    {
        match self {
            BorderGlyphCharacter::TopRight => "╮",
            BorderGlyphCharacter::TopLeft => "╭",
            BorderGlyphCharacter::BottomRight => "╯",
            BorderGlyphCharacter::BottomLeft => "╰",
            BorderGlyphCharacter::Horizontal => "─",
            BorderGlyphCharacter::Vertical => "│",
            BorderGlyphCharacter::LineUpDownLeft => "┤",
            BorderGlyphCharacter::LineUpDownRight => "├",
        }
    }
}

/// What the user answered to a dialog.
#[derive(Clone, Debug, PartialEq, Eq)]
pub enum DialogChoice {
    Yes(String),
    No,
}

/// What a state must offer so that an editor component can keep its buffers
/// in it, one for each box.
pub trait HasEditorBuffers {
    fn get_mut_editor_buffer(&mut self, id: FlexBoxId) -> Option<&mut EditorBuffer>;

    fn insert_editor_buffer(&mut self, id: FlexBoxId, buffer: EditorBuffer);

    fn contains_editor_buffer(&self, id: FlexBoxId) -> bool;
}

impl<T> List<T> {
    /// Appends the items of a vector, in order.
    pub fn extend(&mut self, other: Vec<T>)
        ensures
            final(self).inner@ == old(self).inner@ + other@,
    {
        let mut other = other;
        self.inner.append(&mut other);
    }
}

impl<T> From<Vec<T>> for List<T> {
    fn from(other: Vec<T>) -> (r: List<T>) {
        List { inner: other }
    }
}

impl<T> FromSpecImpl<Vec<T>> for List<T> {
    open spec fn obeys_from_spec() -> bool {
        true
    }

    open spec fn from_spec(other: Vec<T>) -> List<T> {
        List { inner: other }
    }
}

impl<T> From<List<T>> for Vec<T> {
    fn from(list: List<T>) -> (r: Vec<T>) {
        list.inner
    }
}

impl<T> FromSpecImpl<List<T>> for Vec<T> {
    open spec fn obeys_from_spec() -> bool {
        true
    }

    open spec fn from_spec(list: List<T>) -> Vec<T> {
        list.inner
    }
}

/// The texts of a slice of strings, each as a slice of its own.
pub fn as_str_list<'a>(my_vec: &'a [String]) -> (r: List<&'a str>)
    ensures
        r.inner@.len() == my_vec@.len(),
        forall|i: int| 0 <= i < my_vec@.len() ==> (#[trigger] r.inner@[i])@ == my_vec@[i]@,
{
    let mut items: Vec<&'a str> = Vec::new();
    let mut i: usize = 0;
    while i < my_vec.len()
        invariant
            i <= my_vec.len(),
            items@.len() == i,
            forall|j: int| 0 <= j < i ==> (#[trigger] items@[j])@ == my_vec@[j]@,
        decreases my_vec.len() - i,
    {
        items.push(my_vec[i].as_str());
        i += 1;
    }
    List { inner: items }
}

} // verus!
