//! What the tokenizer produces.
use vstd::prelude::*;

verus! {

/// Why a parser gave up.
#[derive(Clone, Copy, Debug, PartialEq, Eq, Hash, Structural)]
pub enum ParseErrorKind {
    /// A delimiter was expected and something else was found.
    Tag,
    /// A delimited body was expected and it was empty.
    IsNot,
    /// Plain text was expected and a delimiter was found.
    Not,
    /// A character was expected and the input had ended.
    Eof,
}

/// A failed parse: the input at the point of failure, and the reason.
#[derive(Clone, Copy, Debug, PartialEq, Eq)]
pub struct ParseError<'a> {
    pub input: &'a str,
    pub code: ParseErrorKind,
}

/// A failed parse over character sequences.
pub struct ParseErrorView {
    pub input: Seq<char>,
    pub code: ParseErrorKind,
}

impl<'a> View for ParseError<'a> {
    type V = ParseErrorView;

    open spec fn view(&self) -> ParseErrorView {
        ParseErrorView { input: self.input@, code: self.code }
    }
}

/// The two texts of a link or an image.
#[derive(Clone, Copy, Debug, PartialEq, Eq)]
pub struct HyperlinkData<'a> {
    pub text: &'a str,
    pub url: &'a str,
}

/// The two texts of a link or an image, as character sequences.
pub struct HyperlinkDataView {
    pub text: Seq<char>,
    pub url: Seq<char>,
}

impl<'a> View for HyperlinkData<'a> {
    type V = HyperlinkDataView;

    open spec fn view(&self) -> HyperlinkDataView {
        HyperlinkDataView { text: self.text@, url: self.url@ }
    }
}

impl<'a> HyperlinkData<'a> {
    pub fn new(text: &'a str, url: &'a str) -> (r: HyperlinkData<'a>)
        ensures
            r.text@ == text@,
            r.url@ == url@,
    {
        HyperlinkData { text, url }
    }

    /// The link whose text is the first of the pair and whose address is the
    /// second.
    pub fn from(pair: (&'a str, &'a str)) -> (r: HyperlinkData<'a>)
        ensures
            r.text@ == pair.0@,
            r.url@ == pair.1@,
    {
        HyperlinkData { text: pair.0, url: pair.1 }
    }
}

/// One piece of a line of markdown. Each text borrows from the line.
#[derive(Clone, Copy, Debug, PartialEq, Eq)]
pub enum MdLineFragment<'a> {
    Plain(&'a str),
    Italic(&'a str),
    Bold(&'a str),
    BoldItalic(&'a str),
    InlineCode(&'a str),
    Link(HyperlinkData<'a>),
    Image(HyperlinkData<'a>),
    Checkbox(bool),
}

/// One piece of a line of markdown, as character sequences.
pub enum MdLineFragmentView {
    Plain(Seq<char>),
    Italic(Seq<char>),
    Bold(Seq<char>),
    BoldItalic(Seq<char>),
    InlineCode(Seq<char>),
    Link(HyperlinkDataView),
    Image(HyperlinkDataView),
    Checkbox(bool),
}

impl<'a> View for MdLineFragment<'a> {
    type V = MdLineFragmentView;

    open spec fn view(&self) -> MdLineFragmentView {
        match *self {
            MdLineFragment::Plain(s) => MdLineFragmentView::Plain(s@),
            MdLineFragment::Italic(s) => MdLineFragmentView::Italic(s@),
            MdLineFragment::Bold(s) => MdLineFragmentView::Bold(s@),
            MdLineFragment::BoldItalic(s) => MdLineFragmentView::BoldItalic(s@),
            MdLineFragment::InlineCode(s) => MdLineFragmentView::InlineCode(s@),
            MdLineFragment::Link(d) => MdLineFragmentView::Link(d@),
            MdLineFragment::Image(d) => MdLineFragmentView::Image(d@),
            MdLineFragment::Checkbox(b) => MdLineFragmentView::Checkbox(b),
        }
    }
}

} // verus!
