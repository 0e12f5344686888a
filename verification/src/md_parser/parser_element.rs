//! The inline parsers. Each takes a line and gives back what is left of it
//! and what was recognised, both as slices of the line.
use vstd::prelude::*;
use vstd::string::*;
use crate::md_parser::constants::{
    BACK_TICK, BITALIC_1, BITALIC_2, BOLD_1, BOLD_2, CHECKED, ITALIC_1, ITALIC_2, LEFT_BRACKET,
    LEFT_IMAGE, LEFT_PARENTHESIS, NEW_LINE, RIGHT_BRACKET, RIGHT_PARENTHESIS, UNCHECKED,
};
use crate::md_parser::grammar::{
    spec_alt, spec_alt_empty_body, spec_bracket_pair, spec_delimited, spec_fail,
    spec_parse_element_bold,
    spec_parse_element_bold_italic, spec_parse_element_checkbox, spec_parse_element_code,
    spec_parse_element_image, spec_parse_element_italic, spec_parse_element_link,
    spec_parse_element_markdown_inline, spec_parse_element_plaintext, spec_plain_end,
    spec_run_end, spec_starts_special,
};
use crate::md_parser::types::{
    HyperlinkData, HyperlinkDataView, MdLineFragment, MdLineFragmentView, ParseError,
    ParseErrorKind, ParseErrorView,
};

verus! {

/// Where a text parser stopped, as offsets into the characters of the line:
/// the recognised text lies between `start` and `end`, and what is left of
/// the line begins at `remaining`.
pub struct TextOffsets {
    pub remaining: usize,
    pub start: usize,
    pub end: usize,
}

/// Where a parser gave up, as an offset into the characters of the line.
pub struct FailOffset {
    pub at: usize,
    pub code: ParseErrorKind,
}

/// Where a link or image parser stopped.
pub struct PairOffsets {
    pub remaining: usize,
    pub text_start: usize,
    pub text_end: usize,
    pub url_start: usize,
    pub url_end: usize,
}

/// The outcome that `r` stands for on the line `chars`.
pub open spec fn text_outcome_at(chars: Seq<char>, r: Result<TextOffsets, FailOffset>) -> Result<
    (Seq<char>, Seq<char>),
    ParseErrorView,
> {
    match r {
        Ok(o) => Ok((chars.skip(o.remaining as int), chars.subrange(o.start as int, o.end as int))),
        Err(f) => Err(spec_fail(chars.skip(f.at as int), f.code)),
    }
}

/// Whether the offsets of `r` lie inside the line and in order.
pub open spec fn text_offsets_ok(chars: Seq<char>, r: Result<TextOffsets, FailOffset>) -> bool {
    match r {
        Ok(o) => o.start <= o.end <= o.remaining <= chars.len(),
        Err(f) => f.at <= chars.len(),
    }
}

/// The outcome that `r` stands for on the line `chars`.
pub open spec fn pair_outcome_at(chars: Seq<char>, r: Result<PairOffsets, FailOffset>) -> Result<
    (Seq<char>, HyperlinkDataView),
    ParseErrorView,
> {
    match r {
        Ok(o) => Ok(
            (
                chars.skip(o.remaining as int),
                HyperlinkDataView {
                    text: chars.subrange(o.text_start as int, o.text_end as int),
                    url: chars.subrange(o.url_start as int, o.url_end as int),
                },
            ),
        ),
        Err(f) => Err(spec_fail(chars.skip(f.at as int), f.code)),
    }
}

/// Whether the offsets of `r` lie inside the line and in order.
pub open spec fn pair_offsets_ok(chars: Seq<char>, r: Result<PairOffsets, FailOffset>) -> bool {
    match r {
        Ok(o) => o.text_start <= o.text_end <= o.url_start <= o.url_end <= o.remaining
            <= chars.len(),
        Err(f) => f.at <= chars.len(),
    }
}

/// The outcome of a text parser, with each slice replaced by its characters.
pub open spec fn text_outcome_view(r: Result<(&str, &str), ParseError>) -> Result<
    (Seq<char>, Seq<char>),
    ParseErrorView,
> {
    match r {
        Ok((remaining, text)) => Ok((remaining@, text@)),
        Err(e) => Err(e@),
    }
}

/// The outcome of a link or image parser, with each slice replaced by its
/// characters.
pub open spec fn pair_outcome_view(r: Result<(&str, HyperlinkData), ParseError>) -> Result<
    (Seq<char>, HyperlinkDataView),
    ParseErrorView,
> {
    match r {
        Ok((remaining, data)) => Ok((remaining@, data@)),
        Err(e) => Err(e@),
    }
}

/// The outcome of the checkbox parser, with each slice replaced by its
/// characters.
pub open spec fn checkbox_outcome_view(r: Result<(&str, bool), ParseError>) -> Result<
    (Seq<char>, bool),
    ParseErrorView,
> {
    match r {
        Ok((remaining, checked)) => Ok((remaining@, checked)),
        Err(e) => Err(e@),
    }
}

/// The outcome of the dispatcher, with each slice replaced by its characters.
pub open spec fn fragment_outcome_view(r: Result<(&str, MdLineFragment), ParseError>) -> Result<
    (Seq<char>, MdLineFragmentView),
    ParseErrorView,
> {
    match r {
        Ok((remaining, fragment)) => Ok((remaining@, fragment@)),
        Err(e) => Err(e@),
    }
}

/// The characters of a string, in order.
pub fn chars_of(s: &str) -> (v: Vec<char>)
    ensures
        v@ == s@,
{
    let mut v: Vec<char> = Vec::new();
    for c in it: s.chars()
        invariant
            v@ == it.seq().take(it.index@ as int),
    {
        v.push(c);
    }
    v
}

/// Whether `c` is one of the characters of `set`.
fn is_one_of(set: &str, c: char) -> (r: bool)
    ensures
        r == set@.contains(c),
{
    let n: usize = set.unicode_len();
    let mut i: usize = 0;
    while i < n
        invariant
            i <= n,
            n == set@.len(),
            forall|j: int| 0 <= j < i ==> set@[j] != c,
        decreases n - i,
    {
        if set.get_char(i) == c {
            return true;
        }
        i += 1;
    }
    false
}

/// The offset just behind `tag` where the line holds `tag` at `from`.
fn tag_at(chars: &Vec<char>, from: usize, tag: &str) -> (r: Option<usize>)
    requires
        from <= chars.len(),
    ensures
        r is Some <==> tag@.is_prefix_of(chars@.skip(from as int)),
        r is Some ==> r->0 == from + tag@.len(),
{
    let n: usize = tag.unicode_len();
    if n > chars.len() - from {
        return None;
    }
    let mut i: usize = 0;
    while i < n
        invariant
            i <= n,
            n == tag@.len(),
            from + n <= chars.len(),
            forall|j: int| 0 <= j < i ==> tag@[j] == chars@[from + j],
        decreases n - i,
    {
        if tag.get_char(i) != chars[from + i] {
            proof {
                let rest = chars@.skip(from as int);
                assert(rest.subrange(0, n as int)[i as int] == chars@[from + i]);
            }
            return None;
        }
        i += 1;
    }
    proof {
        let rest = chars@.skip(from as int);
        assert(tag@ =~= rest.subrange(0, n as int));
    }
    Some(from + n)
}

/// The end of the run of characters outside `stops` that begins at `from`.
fn run_end_at(chars: &Vec<char>, from: usize, stops: &str) -> (end: usize)
    requires
        from <= chars.len(),
    ensures
        from <= end <= chars.len(),
        end - from == spec_run_end(chars@.skip(from as int), stops@, 0),
{
    let ghost rest = chars@.skip(from as int);
    let mut i: usize = from;
    while i < chars.len()
        invariant
            from <= i <= chars.len(),
            rest == chars@.skip(from as int),
            spec_run_end(rest, stops@, 0) == spec_run_end(rest, stops@, i - from),
        decreases chars.len() - i,
    {
        proof {
            assert(rest[i - from] == chars@[i as int]);
        }
        if is_one_of(stops, chars[i]) {
            return i;
        }
        i += 1;
    }
    i
}

/// Recognises `open`, a run free of `stops` and `close` in the line from
/// `from` on.
fn delimited_at(chars: &Vec<char>, from: usize, open: &str, stops: &str, close: &str) -> (r:
    Result<TextOffsets, FailOffset>)
    requires
        from <= chars.len(),
    ensures
        text_offsets_ok(chars@, r),
        r is Ok ==> from <= r->Ok_0.start,
        r is Err ==> from <= r->Err_0.at,
        text_outcome_at(chars@, r) == spec_delimited(
            chars@.skip(from as int),
            open@,
            stops@,
            close@,
        ),
{
    let ghost rest = chars@.skip(from as int);
    let body_start = match tag_at(chars, from, open) {
        None => {
            return Err(FailOffset { at: from, code: ParseErrorKind::Tag });
        },
        Some(p) => p,
    };
    assert(rest.skip(open@.len() as int) =~= chars@.skip(body_start as int));
    let body_end = run_end_at(chars, body_start, stops);
    if body_end == body_start {
        return Err(FailOffset { at: body_start, code: ParseErrorKind::IsNot });
    }
    let ghost after_open = chars@.skip(body_start as int);
    assert(after_open.skip(body_end - body_start) =~= chars@.skip(body_end as int));
    assert(after_open.take(body_end - body_start) =~= chars@.subrange(
        body_start as int,
        body_end as int,
    ));
    match tag_at(chars, body_end, close) {
        None => Err(FailOffset { at: body_end, code: ParseErrorKind::Tag }),
        Some(p) => {
            assert(chars@.skip(body_end as int).skip(close@.len() as int) =~= chars@.skip(
                p as int,
            ));
            Ok(TextOffsets { remaining: p, start: body_start, end: body_end })
        },
    }
}

/// The first of two delimited forms that the line begins with.
fn delimited_alt_at(chars: &Vec<char>, first: &str, second: &str) -> (r: Result<
    TextOffsets,
    FailOffset,
>)
    ensures
        text_offsets_ok(chars@, r),
        text_outcome_at(chars@, r) == spec_alt(
            spec_delimited(chars@, first@, first@, first@),
            spec_delimited(chars@, second@, second@, second@),
        ),
{
    assert(chars@.skip(0) =~= chars@);
    match delimited_at(chars, 0, first, first, first) {
        Ok(o) => Ok(o),
        Err(_) => delimited_at(chars, 0, second, second, second),
    }
}

/// The first of two delimited forms that the line begins with; where it
/// begins with neither, the failure of the first where that is an empty body
/// before its closing delimiter.
fn delimited_alt_empty_body_at(chars: &Vec<char>, first: &str, second: &str) -> (r: Result<
    TextOffsets,
    FailOffset,
>)
    ensures
        text_offsets_ok(chars@, r),
        text_outcome_at(chars@, r) == spec_alt_empty_body(
            spec_delimited(chars@, first@, first@, first@),
            first@,
            spec_delimited(chars@, second@, second@, second@),
        ),
{
    assert(chars@.skip(0) =~= chars@);
    match delimited_at(chars, 0, first, first, first) {
        Ok(o) => Ok(o),
        Err(f) => {
            let empty_body = match f.code {
                ParseErrorKind::IsNot => tag_at(chars, f.at, first).is_some(),
                _ => false,
            };
            if empty_body {
                Err(f)
            } else {
                delimited_at(chars, 0, second, second, second)
            }
        },
    }
}

/// Recognises `open text ] ( url )` at the start of the line.
fn bracket_pair_at(chars: &Vec<char>, open: &str) -> (r: Result<PairOffsets, FailOffset>)
    ensures
        pair_offsets_ok(chars@, r),
        pair_outcome_at(chars@, r) == spec_bracket_pair(chars@, open@),
{
    assert(chars@.skip(0) =~= chars@);
    let text = match delimited_at(chars, 0, open, RIGHT_BRACKET, RIGHT_BRACKET) {
        Err(f) => {
            return Err(f);
        },
        Ok(o) => o,
    };
    match delimited_at(chars, text.remaining, LEFT_PARENTHESIS, RIGHT_PARENTHESIS, RIGHT_PARENTHESIS) {
        Err(f) => Err(f),
        Ok(url) => Ok(
            PairOffsets {
                remaining: url.remaining,
                text_start: text.start,
                text_end: text.end,
                url_start: url.start,
                url_end: url.end,
            },
        ),
    }
}

/// Whether what follows `from` begins with a delimiter that ends plain text.
fn special_at(chars: &Vec<char>, from: usize) -> (r: bool)
    requires
        from <= chars.len(),
    ensures
        r == spec_starts_special(chars@.skip(from as int)),
{
    tag_at(chars, from, BITALIC_1).is_some() || tag_at(chars, from, BITALIC_2).is_some() || tag_at(
        chars,
        from,
        BOLD_1,
    ).is_some() || tag_at(chars, from, BOLD_2).is_some() || tag_at(chars, from, ITALIC_1).is_some()
        || tag_at(chars, from, ITALIC_2).is_some() || tag_at(chars, from, BACK_TICK).is_some()
        || tag_at(chars, from, LEFT_BRACKET).is_some() || tag_at(chars, from, LEFT_IMAGE).is_some()
        || tag_at(chars, from, NEW_LINE).is_some()
}

/// Recognises plain text at the start of the line.
fn plaintext_at(chars: &Vec<char>) -> (r: Result<TextOffsets, FailOffset>)
    ensures
        text_offsets_ok(chars@, r),
        text_outcome_at(chars@, r) == spec_parse_element_plaintext(chars@),
{
    assert(chars@.skip(0) =~= chars@);
    if special_at(chars, 0) {
        return Err(FailOffset { at: 0, code: ParseErrorKind::Not });
    }
    if chars.len() == 0 {
        return Err(FailOffset { at: 0, code: ParseErrorKind::Eof });
    }
    let mut i: usize = 1;
    assert(spec_plain_end(chars@, 0) == spec_plain_end(chars@, 1));
    while i < chars.len() && !special_at(chars, i)
        invariant
            1 <= i <= chars.len(),
            spec_plain_end(chars@, 0) == spec_plain_end(chars@, i as int),
        decreases chars.len() - i,
    {
        i += 1;
    }
    assert(chars@.take(i as int) =~= chars@.subrange(0, i as int));
    Ok(TextOffsets { remaining: i, start: 0, end: i })
}

/// Recognises a checkbox at the start of the line.
fn checkbox_at(chars: &Vec<char>) -> (r: Result<(usize, bool), FailOffset>)
    ensures
        r is Ok ==> r->Ok_0.0 <= chars.len(),
        r is Err ==> r->Err_0.at <= chars.len(),
        match r {
            Ok((remaining, checked)) => spec_parse_element_checkbox(chars@) == Ok::<
                (Seq<char>, bool),
                ParseErrorView,
            >((chars@.skip(remaining as int), checked)),
            Err(f) => spec_parse_element_checkbox(chars@) == Err::<
                (Seq<char>, bool),
                ParseErrorView,
            >(spec_fail(chars@.skip(f.at as int), f.code)),
        },
{
    assert(chars@.skip(0) =~= chars@);
    match tag_at(chars, 0, CHECKED) {
        Some(p) => Ok((p, true)),
        None => match tag_at(chars, 0, UNCHECKED) {
            Some(p) => Ok((p, false)),
            None => Err(FailOffset { at: 0, code: ParseErrorKind::Tag }),
        },
    }
}

/// The slices of `input` that the offsets of `r` stand for.
fn text_slices<'a>(input: &'a str, chars: &Vec<char>, r: Result<TextOffsets, FailOffset>) -> (out:
    Result<(&'a str, &'a str), ParseError<'a>>)
    requires
        chars@ == input@,
        text_offsets_ok(chars@, r),
    ensures
        text_outcome_view(out) == text_outcome_at(chars@, r),
{
    let n: usize = chars.len();
    match r {
        Ok(o) => {
            let remaining = input.substring_char(o.remaining, n);
            let text = input.substring_char(o.start, o.end);
            assert(remaining@ =~= chars@.skip(o.remaining as int));
            Ok((remaining, text))
        },
        Err(f) => {
            let rest = input.substring_char(f.at, n);
            assert(rest@ =~= chars@.skip(f.at as int));
            Err(ParseError { input: rest, code: f.code })
        },
    }
}

/// The slices of `input` that the offsets of `r` stand for.
fn pair_slices<'a>(input: &'a str, chars: &Vec<char>, r: Result<PairOffsets, FailOffset>) -> (out:
    Result<(&'a str, HyperlinkData<'a>), ParseError<'a>>)
    requires
        chars@ == input@,
        pair_offsets_ok(chars@, r),
    ensures
        pair_outcome_view(out) == pair_outcome_at(chars@, r),
{
    let n: usize = chars.len();
    match r {
        Ok(o) => {
            let remaining = input.substring_char(o.remaining, n);
            let text = input.substring_char(o.text_start, o.text_end);
            let url = input.substring_char(o.url_start, o.url_end);
            assert(remaining@ =~= chars@.skip(o.remaining as int));
            Ok((remaining, HyperlinkData::from((text, url))))
        },
        Err(f) => {
            let rest = input.substring_char(f.at, n);
            assert(rest@ =~= chars@.skip(f.at as int));
            Err(ParseError { input: rest, code: f.code })
        },
    }
}

/// Bold italic text: `***…***` or `___…___`.
pub fn parse_element_bold_italic<'a>(input: &'a str) -> (r: Result<
    (&'a str, &'a str),
    ParseError<'a>,
>)
    ensures
        text_outcome_view(r) == spec_parse_element_bold_italic(input@),
{
    let chars = chars_of(input);
    let offsets = delimited_alt_at(&chars, BITALIC_1, BITALIC_2);
    text_slices(input, &chars, offsets)
}

/// Bold text: `**…**` or `__…__`. Two `**` with nothing between them fail as
/// an empty body.
pub fn parse_element_bold<'a>(input: &'a str) -> (r: Result<(&'a str, &'a str), ParseError<'a>>)
    ensures
        text_outcome_view(r) == spec_parse_element_bold(input@),
{
    let chars = chars_of(input);
    let offsets = delimited_alt_empty_body_at(&chars, BOLD_1, BOLD_2);
    text_slices(input, &chars, offsets)
}

/// Italic text: `*…*` or `_…_`.
pub fn parse_element_italic<'a>(input: &'a str) -> (r: Result<(&'a str, &'a str), ParseError<'a>>)
    ensures
        text_outcome_view(r) == spec_parse_element_italic(input@),
{
    let chars = chars_of(input);
    let offsets = delimited_alt_at(&chars, ITALIC_1, ITALIC_2);
    text_slices(input, &chars, offsets)
}

/// Inline code between two back ticks.
pub fn parse_element_code<'a>(input: &'a str) -> (r: Result<(&'a str, &'a str), ParseError<'a>>)
    ensures
        text_outcome_view(r) == spec_parse_element_code(input@),
{
    let chars = chars_of(input);
    assert(chars@.skip(0) =~= chars@);
    let offsets = delimited_at(&chars, 0, BACK_TICK, BACK_TICK, BACK_TICK);
    text_slices(input, &chars, offsets)
}

/// A link: `[text](url)`.
pub fn parse_element_link<'a>(input: &'a str) -> (r: Result<
    (&'a str, HyperlinkData<'a>),
    ParseError<'a>,
>)
    ensures
        pair_outcome_view(r) == spec_parse_element_link(input@),
{
    let chars = chars_of(input);
    let offsets = bracket_pair_at(&chars, LEFT_BRACKET);
    pair_slices(input, &chars, offsets)
}

/// A checkbox: `[x]` is checked, `[ ]` is not.
pub fn parse_element_checkbox<'a>(input: &'a str) -> (r: Result<(&'a str, bool), ParseError<'a>>)
    ensures
        checkbox_outcome_view(r) == spec_parse_element_checkbox(input@),
{
    let chars = chars_of(input);
    let n: usize = chars.len();
    match checkbox_at(&chars) {
        Ok((remaining, checked)) => {
            let rest = input.substring_char(remaining, n);
            assert(rest@ =~= chars@.skip(remaining as int));
            Ok((rest, checked))
        },
        Err(f) => {
            let rest = input.substring_char(f.at, n);
            assert(rest@ =~= chars@.skip(f.at as int));
            Err(ParseError { input: rest, code: f.code })
        },
    }
}

/// An image: `![alt](url)`.
pub fn parse_element_image<'a>(input: &'a str) -> (r: Result<
    (&'a str, HyperlinkData<'a>),
    ParseError<'a>,
>)
    ensures
        pair_outcome_view(r) == spec_parse_element_image(input@),
{
    let chars = chars_of(input);
    let offsets = bracket_pair_at(&chars, LEFT_IMAGE);
    pair_slices(input, &chars, offsets)
}

/// Plain text: everything up to the next delimiter or line break. There must
/// be at least one character of it.
pub fn parse_element_plaintext<'a>(input: &'a str) -> (r: Result<
    (&'a str, &'a str),
    ParseError<'a>,
>)
    ensures
        text_outcome_view(r) == spec_parse_element_plaintext(input@),
{
    let chars = chars_of(input);
    let offsets = plaintext_at(&chars);
    text_slices(input, &chars, offsets)
}

/// The next fragment of a line of markdown.
pub fn parse_element_markdown_inline<'a>(input: &'a str) -> (r: Result<
    (&'a str, MdLineFragment<'a>),
    ParseError<'a>,
>)
    ensures
        fragment_outcome_view(r) == spec_parse_element_markdown_inline(input@),
{
    let chars = chars_of(input);
    assert(chars@.skip(0) =~= chars@);
    if let Ok((remaining, text)) = text_slices(
        input,
        &chars,
        delimited_alt_at(&chars, ITALIC_1, ITALIC_2),
    ) {
        return Ok((remaining, MdLineFragment::Italic(text)));
    }
    if let Ok((remaining, text)) = text_slices(
        input,
        &chars,
        delimited_alt_empty_body_at(&chars, BOLD_1, BOLD_2),
    ) {
        return Ok((remaining, MdLineFragment::Bold(text)));
    }
    if let Ok((remaining, text)) = text_slices(
        input,
        &chars,
        delimited_alt_at(&chars, BITALIC_1, BITALIC_2),
    ) {
        return Ok((remaining, MdLineFragment::BoldItalic(text)));
    }
    if let Ok((remaining, text)) = text_slices(
        input,
        &chars,
        delimited_at(&chars, 0, BACK_TICK, BACK_TICK, BACK_TICK),
    ) {
        return Ok((remaining, MdLineFragment::InlineCode(text)));
    }
    if let Ok((remaining, data)) = pair_slices(input, &chars, bracket_pair_at(&chars, LEFT_IMAGE)) {
        return Ok((remaining, MdLineFragment::Image(data)));
    }
    if let Ok((remaining, data)) = pair_slices(input, &chars, bracket_pair_at(&chars, LEFT_BRACKET)) {
        return Ok((remaining, MdLineFragment::Link(data)));
    }
    if let Ok((remaining, checked)) = checkbox_at(&chars) {
        let rest = input.substring_char(remaining, chars.len());
        assert(rest@ =~= chars@.skip(remaining as int));
        return Ok((rest, MdLineFragment::Checkbox(checked)));
    }
    match text_slices(input, &chars, plaintext_at(&chars)) {
        Ok((remaining, text)) => Ok((remaining, MdLineFragment::Plain(text))),
        Err(e) => Err(e),
    }
}

} // verus!
