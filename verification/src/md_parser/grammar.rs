//! The inline grammar, stated over character sequences.
//!
//! Every parser maps its input to either what is left of it together with
//! what was recognised, or to a failure that carries the input at the point
//! where recognition stopped.
use vstd::prelude::*;
use crate::md_parser::constants::{
    BACK_TICK, BITALIC_1, BITALIC_2, BOLD_1, BOLD_2, CHECKED, ITALIC_1, ITALIC_2, LEFT_BRACKET,
    LEFT_IMAGE, LEFT_PARENTHESIS, NEW_LINE, RIGHT_BRACKET, RIGHT_PARENTHESIS, UNCHECKED,
};
use crate::md_parser::types::{
    HyperlinkDataView, MdLineFragmentView, ParseErrorKind, ParseErrorView,
};

verus! {

/// A failure of kind `code` at `input`.
pub open spec fn spec_fail(input: Seq<char>, code: ParseErrorKind) -> ParseErrorView {
    ParseErrorView { input, code }
}

/// Recognises the literal `tag` at the start of the input.
pub open spec fn spec_tag(input: Seq<char>, tag: Seq<char>) -> Result<
    (Seq<char>, Seq<char>),
    ParseErrorView,
> {
    if tag.is_prefix_of(input) {
        Ok((input.skip(tag.len() as int), tag))
    } else {
        Err(spec_fail(input, ParseErrorKind::Tag))
    }
}

/// The first index at or after `from` that holds one of `stops`, or the length
/// of the input where there is none.
pub open spec fn spec_run_end(input: Seq<char>, stops: Seq<char>, from: int) -> int
    decreases input.len() - from,
{
    if from >= input.len() || stops.contains(input[from]) {
        from
    } else {
        spec_run_end(input, stops, from + 1)
    }
}

/// Recognises the longest non-empty run of characters that are not in `stops`.
pub open spec fn spec_is_not(input: Seq<char>, stops: Seq<char>) -> Result<
    (Seq<char>, Seq<char>),
    ParseErrorView,
> {
    let n = spec_run_end(input, stops, 0);
    if n <= 0 {
        Err(spec_fail(input, ParseErrorKind::IsNot))
    } else {
        Ok((input.skip(n), input.take(n)))
    }
}

/// Recognises `open`, then a run free of the characters of `stops`, then
/// `close`, and yields the run.
pub open spec fn spec_delimited(
    input: Seq<char>,
    open: Seq<char>,
    stops: Seq<char>,
    close: Seq<char>,
) -> Result<(Seq<char>, Seq<char>), ParseErrorView> {
    match spec_tag(input, open) {
        Err(e) => Err(e),
        Ok((after_open, _)) => match spec_is_not(after_open, stops) {
            Err(e) => Err(e),
            Ok((after_body, body)) => match spec_tag(after_body, close) {
                Err(e) => Err(e),
                Ok((after_close, _)) => Ok((after_close, body)),
            },
        },
    }
}

/// The first of two outcomes that succeeded, or the failure of the second.
pub open spec fn spec_alt<T>(
    first: Result<(Seq<char>, T), ParseErrorView>,
    second: Result<(Seq<char>, T), ParseErrorView>,
) -> Result<(Seq<char>, T), ParseErrorView> {
    if first is Ok {
        first
    } else {
        second
    }
}

/// Bold italic text: `***…***`, else `___…___`. Where the input is neither,
/// the failure is that of the second form.
pub open spec fn spec_parse_element_bold_italic(input: Seq<char>) -> Result<
    (Seq<char>, Seq<char>),
    ParseErrorView,
> {
    spec_alt(
        spec_delimited(input, BITALIC_1@, BITALIC_1@, BITALIC_1@),
        spec_delimited(input, BITALIC_2@, BITALIC_2@, BITALIC_2@),
    )
}

/// Whether a failure is that of an empty body: the body was looked for where
/// the closing delimiter `close` stands, so that nothing is between the two
/// delimiters.
pub open spec fn spec_is_empty_body(failure: ParseErrorView, close: Seq<char>) -> bool {
    failure.code is IsNot && close.is_prefix_of(failure.input)
}

/// The first of two outcomes that succeeded. Where neither did, the failure
/// is that of the first where the first found an empty body before `close`,
/// and that of the second in every other case.
pub open spec fn spec_alt_empty_body<T>(
    first: Result<(Seq<char>, T), ParseErrorView>,
    close: Seq<char>,
    second: Result<(Seq<char>, T), ParseErrorView>,
) -> Result<(Seq<char>, T), ParseErrorView> {
    if first is Ok {
        first
    } else if spec_is_empty_body(first->Err_0, close) {
        first
    } else {
        second
    }
}

/// Bold text: `**…**`, else `__…__`. Two `**` with nothing between them are
/// a bold text without a body, and fail as an empty body does.
pub open spec fn spec_parse_element_bold(input: Seq<char>) -> Result<
    (Seq<char>, Seq<char>),
    ParseErrorView,
> {
    spec_alt_empty_body(
        spec_delimited(input, BOLD_1@, BOLD_1@, BOLD_1@),
        BOLD_1@,
        spec_delimited(input, BOLD_2@, BOLD_2@, BOLD_2@),
    )
}

/// Italic text: `*…*`, else `_…_`. Where the input is neither, the failure
/// is that of the second form: a doubled `*` opens bold text and is no
/// italic text without a body.
pub open spec fn spec_parse_element_italic(input: Seq<char>) -> Result<
    (Seq<char>, Seq<char>),
    ParseErrorView,
> {
    spec_alt(
        spec_delimited(input, ITALIC_1@, ITALIC_1@, ITALIC_1@),
        spec_delimited(input, ITALIC_2@, ITALIC_2@, ITALIC_2@),
    )
}

pub open spec fn spec_parse_element_code(input: Seq<char>) -> Result<
    (Seq<char>, Seq<char>),
    ParseErrorView,
> {
    spec_delimited(input, BACK_TICK@, BACK_TICK@, BACK_TICK@)
}

/// Recognises `open text ] ( url )` and yields the two texts.
pub open spec fn spec_bracket_pair(input: Seq<char>, open: Seq<char>) -> Result<
    (Seq<char>, HyperlinkDataView),
    ParseErrorView,
> {
    match spec_delimited(input, open, RIGHT_BRACKET@, RIGHT_BRACKET@) {
        Err(e) => Err(e),
        Ok((after_text, text)) => match spec_delimited(
            after_text,
            LEFT_PARENTHESIS@,
            RIGHT_PARENTHESIS@,
            RIGHT_PARENTHESIS@,
        ) {
            Err(e) => Err(e),
            Ok((after_url, url)) => Ok((after_url, HyperlinkDataView { text, url })),
        },
    }
}

pub open spec fn spec_parse_element_link(input: Seq<char>) -> Result<
    (Seq<char>, HyperlinkDataView),
    ParseErrorView,
> {
    spec_bracket_pair(input, LEFT_BRACKET@)
}

pub open spec fn spec_parse_element_image(input: Seq<char>) -> Result<
    (Seq<char>, HyperlinkDataView),
    ParseErrorView,
> {
    spec_bracket_pair(input, LEFT_IMAGE@)
}

pub open spec fn spec_parse_element_checkbox(input: Seq<char>) -> Result<
    (Seq<char>, bool),
    ParseErrorView,
> {
    if CHECKED@.is_prefix_of(input) {
        Ok((input.skip(CHECKED@.len() as int), true))
    } else if UNCHECKED@.is_prefix_of(input) {
        Ok((input.skip(UNCHECKED@.len() as int), false))
    } else {
        Err(spec_fail(input, ParseErrorKind::Tag))
    }
}

/// Whether the input begins with a delimiter that ends plain text.
pub open spec fn spec_starts_special(input: Seq<char>) -> bool {
    ||| BITALIC_1@.is_prefix_of(input)
    ||| BITALIC_2@.is_prefix_of(input)
    ||| BOLD_1@.is_prefix_of(input)
    ||| BOLD_2@.is_prefix_of(input)
    ||| ITALIC_1@.is_prefix_of(input)
    ||| ITALIC_2@.is_prefix_of(input)
    ||| BACK_TICK@.is_prefix_of(input)
    ||| LEFT_BRACKET@.is_prefix_of(input)
    ||| LEFT_IMAGE@.is_prefix_of(input)
    ||| NEW_LINE@.is_prefix_of(input)
}

/// The first index at or after `from` where what follows begins with a
/// delimiter, or the length of the input where there is none.
pub open spec fn spec_plain_end(input: Seq<char>, from: int) -> int
    decreases input.len() - from,
{
    if from >= input.len() || spec_starts_special(input.skip(from)) {
        from
    } else {
        spec_plain_end(input, from + 1)
    }
}

pub open spec fn spec_parse_element_plaintext(input: Seq<char>) -> Result<
    (Seq<char>, Seq<char>),
    ParseErrorView,
> {
    if spec_starts_special(input) {
        Err(spec_fail(input, ParseErrorKind::Not))
    } else if input.len() == 0 {
        Err(spec_fail(input, ParseErrorKind::Eof))
    } else {
        let n = spec_plain_end(input, 0);
        Ok((input.skip(n), input.take(n)))
    }
}

/// The next fragment of a line: the first of italic, bold, bold italic,
/// inline code, image, link, checkbox and plain text that is recognised at
/// the start of the input. Where none is, the failure is that of plain text.
pub open spec fn spec_parse_element_markdown_inline(input: Seq<char>) -> Result<
    (Seq<char>, MdLineFragmentView),
    ParseErrorView,
> {
    if let Ok((remaining, text)) = spec_parse_element_italic(input) {
        Ok((remaining, MdLineFragmentView::Italic(text)))
    } else if let Ok((remaining, text)) = spec_parse_element_bold(input) {
        Ok((remaining, MdLineFragmentView::Bold(text)))
    } else if let Ok((remaining, text)) = spec_parse_element_bold_italic(input) {
        Ok((remaining, MdLineFragmentView::BoldItalic(text)))
    } else if let Ok((remaining, text)) = spec_parse_element_code(input) {
        Ok((remaining, MdLineFragmentView::InlineCode(text)))
    } else if let Ok((remaining, data)) = spec_parse_element_image(input) {
        Ok((remaining, MdLineFragmentView::Image(data)))
    } else if let Ok((remaining, data)) = spec_parse_element_link(input) {
        Ok((remaining, MdLineFragmentView::Link(data)))
    } else if let Ok((remaining, checked)) = spec_parse_element_checkbox(input) {
        Ok((remaining, MdLineFragmentView::Checkbox(checked)))
    } else {
        match spec_parse_element_plaintext(input) {
            Ok((remaining, text)) => Ok((remaining, MdLineFragmentView::Plain(text))),
            Err(e) => Err(e),
        }
    }
}

} // verus!
