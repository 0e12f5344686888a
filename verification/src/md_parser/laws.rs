//! What holds of the inline grammar for every input.
use vstd::prelude::*;
use crate::md_parser::constants::{
    lemma_delimiters, BACK_TICK, BITALIC_1, BITALIC_2, BOLD_1, BOLD_2, CHECKED, ITALIC_1, ITALIC_2,
    LEFT_BRACKET, LEFT_IMAGE, LEFT_PARENTHESIS, RIGHT_BRACKET, RIGHT_PARENTHESIS, UNCHECKED,
};
use crate::md_parser::grammar::{
    spec_alt, spec_bracket_pair, spec_delimited, spec_fail, spec_parse_element_bold,
    spec_parse_element_bold_italic, spec_parse_element_checkbox, spec_parse_element_code,
    spec_parse_element_image, spec_parse_element_italic, spec_parse_element_link,
    spec_parse_element_markdown_inline, spec_parse_element_plaintext, spec_plain_end, spec_run_end,
    spec_starts_special,
};
use crate::md_parser::types::{
    HyperlinkDataView, MdLineFragmentView, ParseErrorKind, ParseErrorView,
};

verus! {

/// A run ends at `end` where no character before `end` is a stop and the one
/// at `end`, if there is one, is.
pub proof fn lemma_run_end_is(input: Seq<char>, stops: Seq<char>, from: int, end: int)
    requires
        0 <= from <= end <= input.len(),
        forall|j: int| from <= j < end ==> !stops.contains(#[trigger] input[j]),
        end == input.len() || stops.contains(input[end]),
    ensures
        spec_run_end(input, stops, from) == end,
    decreases end - from,
{
    if from < end {
        lemma_run_end_is(input, stops, from + 1, end);
    }
}

/// A run starts no earlier than it ends, stays inside the input, holds no
/// stop, and is followed by a stop or by the end of the input.
pub proof fn lemma_run_end_bounds(input: Seq<char>, stops: Seq<char>, from: int)
    requires
        0 <= from <= input.len(),
    ensures
        from <= spec_run_end(input, stops, from) <= input.len(),
        forall|j: int|
            from <= j < spec_run_end(input, stops, from) ==> !stops.contains(#[trigger] input[j]),
        spec_run_end(input, stops, from) == input.len() || stops.contains(
            input[spec_run_end(input, stops, from)],
        ),
    decreases input.len() - from,
{
    if from < input.len() && !stops.contains(input[from]) {
        lemma_run_end_bounds(input, stops, from + 1);
    }
}

/// A delimited form is recognised wherever the input spells it: the opening
/// delimiter, a non-empty body free of stops, and the closing delimiter,
/// whose first character is a stop.
pub proof fn lemma_delimited_accepts(
    open: Seq<char>,
    stops: Seq<char>,
    close: Seq<char>,
    body: Seq<char>,
    rest: Seq<char>,
)
    requires
        body.len() >= 1,
        forall|j: int| 0 <= j < body.len() ==> !stops.contains(#[trigger] body[j]),
        close.len() >= 1,
        stops.contains(close[0]),
    ensures
        spec_delimited(open + body + close + rest, open, stops, close) == Ok::<
            (Seq<char>, Seq<char>),
            ParseErrorView,
        >((rest, body)),
{
    let input = open + body + close + rest;
    assert(open =~= input.subrange(0, open.len() as int));
    let after_open = input.skip(open.len() as int);
    assert(after_open =~= body + close + rest);
    assert forall|j: int| 0 <= j < body.len() implies !stops.contains(
        #[trigger] after_open[j],
    ) by {
        assert(after_open[j] == body[j]);
    }
    assert(after_open[body.len() as int] == close[0]);
    lemma_run_end_is(after_open, stops, 0, body.len() as int);
    assert(after_open.take(body.len() as int) =~= body);
    let after_body = after_open.skip(body.len() as int);
    assert(after_body =~= close + rest);
    assert(close =~= after_body.subrange(0, close.len() as int));
    assert(after_body.skip(close.len() as int) =~= rest);
}

/// Whatever a delimited form recognises, the input spells it: the opening
/// delimiter, the body, the closing delimiter, and what is left. The body is
/// not empty and holds no stop.
pub proof fn lemma_delimited_spells(
    input: Seq<char>,
    open: Seq<char>,
    stops: Seq<char>,
    close: Seq<char>,
)
    requires
        spec_delimited(input, open, stops, close) is Ok,
    ensures
        ({
            let (remaining, body) = spec_delimited(input, open, stops, close)->Ok_0;
            &&& input == open + body + close + remaining
            &&& body.len() >= 1
            &&& forall|j: int| 0 <= j < body.len() ==> !stops.contains(#[trigger] body[j])
        }),
{
    let after_open = input.skip(open.len() as int);
    assert(input =~= open + after_open);
    lemma_run_end_bounds(after_open, stops, 0);
    let n = spec_run_end(after_open, stops, 0);
    let body = after_open.take(n);
    let after_body = after_open.skip(n);
    assert(after_open =~= body + after_body);
    let remaining = after_body.skip(close.len() as int);
    assert(after_body =~= close + remaining);
    assert(input =~= open + body + close + remaining);
}

/// A delimiter that ends plain text begins with `*`, `_`, a back tick, `[`
/// or a line break, or is `![`.
pub proof fn lemma_starts_special(input: Seq<char>)
    ensures
        spec_starts_special(input) <==> input.len() >= 1 && (input[0] == '*' || input[0] == '_'
            || input[0] == '`' || input[0] == '[' || input[0] == '\n' || (input[0] == '!'
            && input.len() >= 2 && input[1] == '[')),
{
    lemma_delimiters();
    if input.len() >= 1 {
        let c = input[0];
        assert(input.subrange(0, 1)[0] == c);
        if c == '*' {
            assert(ITALIC_1@ =~= input.subrange(0, 1));
        }
        if c == '_' {
            assert(ITALIC_2@ =~= input.subrange(0, 1));
        }
        if c == '`' {
            assert(BACK_TICK@ =~= input.subrange(0, 1));
        }
        if c == '[' {
            assert(LEFT_BRACKET@ =~= input.subrange(0, 1));
        }
        if c == '\n' {
            assert(seq!['\n'] =~= input.subrange(0, 1));
        }
        if input.len() >= 2 {
            assert(input.subrange(0, 2)[0] == c);
            assert(input.subrange(0, 2)[1] == input[1]);
            if c == '!' && input[1] == '[' {
                assert(LEFT_IMAGE@ =~= input.subrange(0, 2));
            }
        }
        if input.len() >= 3 {
            assert(input.subrange(0, 3)[0] == c);
        }
    }
}

/// Plain text that holds none of `*`, `_`, back tick, `[` and line break is
/// recognised whole, with nothing left.
pub proof fn law_plaintext_takes_plain_input(s: Seq<char>)
    requires
        s.len() >= 1,
        forall|i: int|
            0 <= i < s.len() ==> #[trigger] s[i] != '*' && s[i] != '_' && s[i] != '`' && s[i]
                != '[' && s[i] != '\n',
    ensures
        spec_parse_element_plaintext(s) == Ok::<(Seq<char>, Seq<char>), ParseErrorView>(
            (Seq::<char>::empty(), s),
        ),
{
    lemma_plain_end_of_plain_input(s, 0);
    lemma_starts_special(s);
    assert(s.skip(s.len() as int) =~= Seq::<char>::empty());
    assert(s.take(s.len() as int) =~= s);
}

/// Where no character from `from` on is `*`, `_`, back tick, `[` or line
/// break, plain text runs to the end of the input.
pub proof fn lemma_plain_end_of_plain_input(s: Seq<char>, from: int)
    requires
        0 <= from <= s.len(),
        forall|i: int|
            from <= i < s.len() ==> #[trigger] s[i] != '*' && s[i] != '_' && s[i] != '`' && s[i]
                != '[' && s[i] != '\n',
    ensures
        spec_plain_end(s, from) == s.len(),
    decreases s.len() - from,
{
    if from < s.len() {
        let rest = s.skip(from);
        lemma_starts_special(rest);
        assert(rest[0] == s[from]);
        if rest.len() >= 2 {
            assert(rest[1] == s[from + 1]);
        }
        lemma_plain_end_of_plain_input(s, from + 1);
    }
}

/// The only stop of a delimiter made of one repeated character is that
/// character.
proof fn lemma_stops_of_delimiters()
    ensures
        forall|c: char| #[trigger] ITALIC_1@.contains(c) <==> c == '*',
        forall|c: char| #[trigger] ITALIC_2@.contains(c) <==> c == '_',
        forall|c: char| #[trigger] BOLD_1@.contains(c) <==> c == '*',
        forall|c: char| #[trigger] BOLD_2@.contains(c) <==> c == '_',
        forall|c: char| #[trigger] BITALIC_1@.contains(c) <==> c == '*',
        forall|c: char| #[trigger] BITALIC_2@.contains(c) <==> c == '_',
        forall|c: char| #[trigger] BACK_TICK@.contains(c) <==> c == '`',
        forall|c: char| #[trigger] RIGHT_BRACKET@.contains(c) <==> c == ']',
        forall|c: char| #[trigger] RIGHT_PARENTHESIS@.contains(c) <==> c == ')',
{
    lemma_delimiters();
    assert(ITALIC_1@[0] == '*');
    assert(ITALIC_2@[0] == '_');
    assert(BOLD_1@[0] == '*');
    assert(BOLD_2@[0] == '_');
    assert(BITALIC_1@[0] == '*');
    assert(BITALIC_2@[0] == '_');
    assert(BACK_TICK@[0] == '`');
    assert(RIGHT_BRACKET@[0] == ']');
    assert(RIGHT_PARENTHESIS@[0] == ')');
}

/// A non-empty text without `*`, set between two `*`, is recognised as
/// italic, with nothing left.
pub proof fn law_italic_star(t: Seq<char>)
    requires
        t.len() >= 1,
        !t.contains('*'),
    ensures
        spec_parse_element_italic(ITALIC_1@ + t + ITALIC_1@) == Ok::<
            (Seq<char>, Seq<char>),
            ParseErrorView,
        >((Seq::<char>::empty(), t)),
{
    lemma_delimiters();
    lemma_stops_of_delimiters();
    let e = Seq::<char>::empty();
    lemma_delimited_accepts(ITALIC_1@, ITALIC_1@, ITALIC_1@, t, e);
    assert(ITALIC_1@ + t + ITALIC_1@ + e =~= ITALIC_1@ + t + ITALIC_1@);
}

/// A non-empty text without `_`, set between two `_`, is recognised as
/// italic, with nothing left.
pub proof fn law_italic_underscore(t: Seq<char>)
    requires
        t.len() >= 1,
        !t.contains('_'),
    ensures
        spec_parse_element_italic(ITALIC_2@ + t + ITALIC_2@) == Ok::<
            (Seq<char>, Seq<char>),
            ParseErrorView,
        >((Seq::<char>::empty(), t)),
{
    lemma_delimiters();
    lemma_stops_of_delimiters();
    let e = Seq::<char>::empty();
    let input = ITALIC_2@ + t + ITALIC_2@;
    lemma_delimited_accepts(ITALIC_2@, ITALIC_2@, ITALIC_2@, t, e);
    assert(input + e =~= input);
    assert(input[0] == '_');
    assert(input.subrange(0, 1)[0] == '_');
    assert(!ITALIC_1@.is_prefix_of(input));
}

/// A non-empty text without `*`, set between two `**`, is recognised as bold,
/// with nothing left.
pub proof fn law_bold_star(t: Seq<char>)
    requires
        t.len() >= 1,
        !t.contains('*'),
    ensures
        spec_parse_element_bold(BOLD_1@ + t + BOLD_1@) == Ok::<
            (Seq<char>, Seq<char>),
            ParseErrorView,
        >((Seq::<char>::empty(), t)),
{
    lemma_delimiters();
    lemma_stops_of_delimiters();
    let e = Seq::<char>::empty();
    lemma_delimited_accepts(BOLD_1@, BOLD_1@, BOLD_1@, t, e);
    assert(BOLD_1@ + t + BOLD_1@ + e =~= BOLD_1@ + t + BOLD_1@);
}

/// A non-empty text without `_`, set between two `__`, is recognised as bold,
/// with nothing left.
pub proof fn law_bold_underscore(t: Seq<char>)
    requires
        t.len() >= 1,
        !t.contains('_'),
    ensures
        spec_parse_element_bold(BOLD_2@ + t + BOLD_2@) == Ok::<
            (Seq<char>, Seq<char>),
            ParseErrorView,
        >((Seq::<char>::empty(), t)),
{
    lemma_delimiters();
    lemma_stops_of_delimiters();
    let e = Seq::<char>::empty();
    let input = BOLD_2@ + t + BOLD_2@;
    lemma_delimited_accepts(BOLD_2@, BOLD_2@, BOLD_2@, t, e);
    assert(input + e =~= input);
    assert(input[0] == '_');
    assert(input.subrange(0, 2)[0] == '_');
    assert(!BOLD_1@.is_prefix_of(input));
}

/// A non-empty text without `]` in square brackets, followed by a non-empty
/// address without `)` in round brackets, is recognised as a link to that
/// address, with nothing left.
pub proof fn law_link(a: Seq<char>, b: Seq<char>)
    requires
        a.len() >= 1,
        b.len() >= 1,
        !a.contains(']'),
        !b.contains(')'),
    ensures
        spec_parse_element_link(
            LEFT_BRACKET@ + a + RIGHT_BRACKET@ + LEFT_PARENTHESIS@ + b + RIGHT_PARENTHESIS@,
        ) == Ok::<(Seq<char>, HyperlinkDataView), ParseErrorView>(
            (Seq::<char>::empty(), HyperlinkDataView { text: a, url: b }),
        ),
{
    lemma_delimiters();
    lemma_stops_of_delimiters();
    let e = Seq::<char>::empty();
    let tail = LEFT_PARENTHESIS@ + b + RIGHT_PARENTHESIS@;
    let input = LEFT_BRACKET@ + a + RIGHT_BRACKET@ + LEFT_PARENTHESIS@ + b + RIGHT_PARENTHESIS@;
    lemma_delimited_accepts(LEFT_BRACKET@, RIGHT_BRACKET@, RIGHT_BRACKET@, a, tail);
    assert(LEFT_BRACKET@ + a + RIGHT_BRACKET@ + tail =~= input);
    lemma_delimited_accepts(LEFT_PARENTHESIS@, RIGHT_PARENTHESIS@, RIGHT_PARENTHESIS@, b, e);
    assert(tail + e =~= tail);
}

/// Two `**` with nothing between them are no bold text, whatever follows:
/// the parser fails with an empty body, at the second `**`.
pub proof fn law_bold_empty_body(rest: Seq<char>)
    ensures
        spec_parse_element_bold(BOLD_1@ + BOLD_1@ + rest) == Err::<
            (Seq<char>, Seq<char>),
            ParseErrorView,
        >(spec_fail(BOLD_1@ + rest, ParseErrorKind::IsNot)),
{
    lemma_delimiters();
    lemma_stops_of_delimiters();
    let input = BOLD_1@ + BOLD_1@ + rest;
    let after_open = BOLD_1@ + rest;
    assert(BOLD_1@ =~= input.subrange(0, 2));
    assert(input.skip(2) =~= after_open);
    assert(after_open[0] == '*');
    assert(BOLD_1@ =~= after_open.subrange(0, 2));
}

/// A non-empty text without `*`, set between two `***`, is recognised as
/// bold italic, with nothing left.
pub proof fn law_bold_italic_star(t: Seq<char>)
    requires
        t.len() >= 1,
        !t.contains('*'),
    ensures
        spec_parse_element_bold_italic(BITALIC_1@ + t + BITALIC_1@) == Ok::<
            (Seq<char>, Seq<char>),
            ParseErrorView,
        >((Seq::<char>::empty(), t)),
{
    lemma_delimiters();
    lemma_stops_of_delimiters();
    let e = Seq::<char>::empty();
    lemma_delimited_accepts(BITALIC_1@, BITALIC_1@, BITALIC_1@, t, e);
    assert(BITALIC_1@ + t + BITALIC_1@ + e =~= BITALIC_1@ + t + BITALIC_1@);
}

/// A non-empty text without `_`, set between two `___`, is recognised as
/// bold italic, with nothing left.
pub proof fn law_bold_italic_underscore(t: Seq<char>)
    requires
        t.len() >= 1,
        !t.contains('_'),
    ensures
        spec_parse_element_bold_italic(BITALIC_2@ + t + BITALIC_2@) == Ok::<
            (Seq<char>, Seq<char>),
            ParseErrorView,
        >((Seq::<char>::empty(), t)),
{
    lemma_delimiters();
    lemma_stops_of_delimiters();
    let e = Seq::<char>::empty();
    let input = BITALIC_2@ + t + BITALIC_2@;
    lemma_delimited_accepts(BITALIC_2@, BITALIC_2@, BITALIC_2@, t, e);
    assert(input + e =~= input);
    assert(input[0] == '_');
    assert(input.subrange(0, 3)[0] == '_');
    assert(!BITALIC_1@.is_prefix_of(input));
}

/// A non-empty text without back tick, set between two back ticks, is
/// recognised as inline code, with nothing left.
pub proof fn law_code(t: Seq<char>)
    requires
        t.len() >= 1,
        !t.contains('`'),
    ensures
        spec_parse_element_code(BACK_TICK@ + t + BACK_TICK@) == Ok::<
            (Seq<char>, Seq<char>),
            ParseErrorView,
        >((Seq::<char>::empty(), t)),
{
    lemma_delimiters();
    lemma_stops_of_delimiters();
    let e = Seq::<char>::empty();
    lemma_delimited_accepts(BACK_TICK@, BACK_TICK@, BACK_TICK@, t, e);
    assert(BACK_TICK@ + t + BACK_TICK@ + e =~= BACK_TICK@ + t + BACK_TICK@);
}

/// A non-empty text without `]` behind `![`, followed by `]` and a non-empty
/// address without `)` in round brackets, is recognised as an image at that
/// address, with nothing left.
pub proof fn law_image(a: Seq<char>, b: Seq<char>)
    requires
        a.len() >= 1,
        b.len() >= 1,
        !a.contains(']'),
        !b.contains(')'),
    ensures
        spec_parse_element_image(
            LEFT_IMAGE@ + a + RIGHT_BRACKET@ + LEFT_PARENTHESIS@ + b + RIGHT_PARENTHESIS@,
        ) == Ok::<(Seq<char>, HyperlinkDataView), ParseErrorView>(
            (Seq::<char>::empty(), HyperlinkDataView { text: a, url: b }),
        ),
{
    lemma_delimiters();
    lemma_stops_of_delimiters();
    let e = Seq::<char>::empty();
    let tail = LEFT_PARENTHESIS@ + b + RIGHT_PARENTHESIS@;
    let input = LEFT_IMAGE@ + a + RIGHT_BRACKET@ + LEFT_PARENTHESIS@ + b + RIGHT_PARENTHESIS@;
    lemma_delimited_accepts(LEFT_IMAGE@, RIGHT_BRACKET@, RIGHT_BRACKET@, a, tail);
    assert(LEFT_IMAGE@ + a + RIGHT_BRACKET@ + tail =~= input);
    lemma_delimited_accepts(LEFT_PARENTHESIS@, RIGHT_PARENTHESIS@, RIGHT_PARENTHESIS@, b, e);
    assert(tail + e =~= tail);
}

/// The text that a parser consumed where it left `remaining` of `input`.
pub open spec fn spec_consumed(input: Seq<char>, remaining: Seq<char>) -> Seq<char> {
    input.take(input.len() - remaining.len())
}

/// Whether `text` is a way to write `fragment` down.
pub open spec fn spec_spells(text: Seq<char>, fragment: MdLineFragmentView) -> bool {
    match fragment {
        MdLineFragmentView::Plain(t) => text == t,
        MdLineFragmentView::Italic(t) => text == ITALIC_1@ + t + ITALIC_1@ || text == ITALIC_2@ + t
            + ITALIC_2@,
        MdLineFragmentView::Bold(t) => text == BOLD_1@ + t + BOLD_1@ || text == BOLD_2@ + t
            + BOLD_2@,
        MdLineFragmentView::BoldItalic(t) => text == BITALIC_1@ + t + BITALIC_1@ || text
            == BITALIC_2@ + t + BITALIC_2@,
        MdLineFragmentView::InlineCode(t) => text == BACK_TICK@ + t + BACK_TICK@,
        MdLineFragmentView::Link(d) => text == LEFT_BRACKET@ + d.text + RIGHT_BRACKET@
            + LEFT_PARENTHESIS@ + d.url + RIGHT_PARENTHESIS@,
        MdLineFragmentView::Image(d) => text == LEFT_IMAGE@ + d.text + RIGHT_BRACKET@
            + LEFT_PARENTHESIS@ + d.url + RIGHT_PARENTHESIS@,
        MdLineFragmentView::Checkbox(checked) => if checked {
            text == CHECKED@
        } else {
            text == UNCHECKED@
        },
    }
}

/// Plain text ends inside the input, and no sooner than it starts.
pub proof fn lemma_plain_end_bounds(input: Seq<char>, from: int)
    requires
        0 <= from <= input.len(),
    ensures
        from <= spec_plain_end(input, from) <= input.len(),
    decreases input.len() - from,
{
    if from < input.len() && !spec_starts_special(input.skip(from)) {
        lemma_plain_end_bounds(input, from + 1);
    }
}

/// Whatever a link or image parser recognises, the input spells it.
proof fn lemma_bracket_pair_spells(input: Seq<char>, open: Seq<char>)
    requires
        spec_bracket_pair(input, open) is Ok,
    ensures
        ({
            let (remaining, data) = spec_bracket_pair(input, open)->Ok_0;
            &&& input == open + data.text + RIGHT_BRACKET@ + LEFT_PARENTHESIS@ + data.url
                + RIGHT_PARENTHESIS@ + remaining
            &&& remaining.len() < input.len()
        }),
{
    lemma_delimited_spells(input, open, RIGHT_BRACKET@, RIGHT_BRACKET@);
    let (after_text, text) = spec_delimited(input, open, RIGHT_BRACKET@, RIGHT_BRACKET@)->Ok_0;
    lemma_delimited_spells(after_text, LEFT_PARENTHESIS@, RIGHT_PARENTHESIS@, RIGHT_PARENTHESIS@);
    let (remaining, url) = spec_delimited(
        after_text,
        LEFT_PARENTHESIS@,
        RIGHT_PARENTHESIS@,
        RIGHT_PARENTHESIS@,
    )->Ok_0;
    assert(input =~= open + text + RIGHT_BRACKET@ + LEFT_PARENTHESIS@ + url + RIGHT_PARENTHESIS@
        + remaining);
}

/// Whatever a delimited form recognises, what it consumed is the body
/// between the two delimiters, and it is not empty.
proof fn lemma_delimited_consumed(
    input: Seq<char>,
    open: Seq<char>,
    stops: Seq<char>,
    close: Seq<char>,
)
    requires
        spec_delimited(input, open, stops, close) is Ok,
    ensures
        ({
            let (remaining, body) = spec_delimited(input, open, stops, close)->Ok_0;
            &&& spec_consumed(input, remaining) == open + body + close
            &&& remaining.len() < input.len()
            &&& input == spec_consumed(input, remaining) + remaining
        }),
{
    lemma_delimited_spells(input, open, stops, close);
    let (remaining, body) = spec_delimited(input, open, stops, close)->Ok_0;
    assert(spec_consumed(input, remaining) =~= open + body + close);
}

/// Whatever one of two delimited forms recognises, what it consumed is the
/// body between the delimiters of one of the two, and it is not empty.
proof fn lemma_alt_consumed(input: Seq<char>, first: Seq<char>, second: Seq<char>)
    requires
        spec_alt(
            spec_delimited(input, first, first, first),
            spec_delimited(input, second, second, second),
        ) is Ok,
    ensures
        ({
            let (remaining, body) = spec_alt(
                spec_delimited(input, first, first, first),
                spec_delimited(input, second, second, second),
            )->Ok_0;
            &&& remaining.len() < input.len()
            &&& input == spec_consumed(input, remaining) + remaining
            &&& spec_consumed(input, remaining) == first + body + first || spec_consumed(
                input,
                remaining,
            ) == second + body + second
        }),
{
    if spec_delimited(input, first, first, first) is Ok {
        lemma_delimited_consumed(input, first, first, first);
    } else {
        lemma_delimited_consumed(input, second, second, second);
    }
}

/// Whatever a link or image parser recognises, what it consumed spells the
/// two texts in their brackets, and it is not empty.
proof fn lemma_bracket_pair_consumed(input: Seq<char>, open: Seq<char>)
    requires
        spec_bracket_pair(input, open) is Ok,
    ensures
        ({
            let (remaining, data) = spec_bracket_pair(input, open)->Ok_0;
            &&& remaining.len() < input.len()
            &&& input == spec_consumed(input, remaining) + remaining
            &&& spec_consumed(input, remaining) == open + data.text + RIGHT_BRACKET@
                + LEFT_PARENTHESIS@ + data.url + RIGHT_PARENTHESIS@
        }),
{
    lemma_bracket_pair_spells(input, open);
    let (remaining, data) = spec_bracket_pair(input, open)->Ok_0;
    assert(spec_consumed(input, remaining) =~= open + data.text + RIGHT_BRACKET@
        + LEFT_PARENTHESIS@ + data.url + RIGHT_PARENTHESIS@);
    assert(input =~= spec_consumed(input, remaining) + remaining);
}

/// Whatever the checkbox parser recognises, what it consumed is the box.
proof fn lemma_checkbox_consumed(input: Seq<char>)
    requires
        spec_parse_element_checkbox(input) is Ok,
    ensures
        ({
            let (remaining, checked) = spec_parse_element_checkbox(input)->Ok_0;
            &&& remaining.len() < input.len()
            &&& input == spec_consumed(input, remaining) + remaining
            &&& spec_consumed(input, remaining) == if checked {
                CHECKED@
            } else {
                UNCHECKED@
            }
        }),
{
    lemma_delimiters();
    let (remaining, checked) = spec_parse_element_checkbox(input)->Ok_0;
    if checked {
        assert(spec_consumed(input, remaining) =~= CHECKED@);
    } else {
        assert(spec_consumed(input, remaining) =~= UNCHECKED@);
    }
    assert(input =~= spec_consumed(input, remaining) + remaining);
}

/// Whatever the plain text parser recognises, what it consumed is that text,
/// and it is not empty.
proof fn lemma_plaintext_consumed(input: Seq<char>)
    requires
        spec_parse_element_plaintext(input) is Ok,
    ensures
        ({
            let (remaining, text) = spec_parse_element_plaintext(input)->Ok_0;
            &&& remaining.len() < input.len()
            &&& input == spec_consumed(input, remaining) + remaining
            &&& spec_consumed(input, remaining) == text
        }),
{
    lemma_plain_end_bounds(input, 1);
    assert(input.skip(0) =~= input);
    let n = spec_plain_end(input, 0);
    assert(n == spec_plain_end(input, 1));
    let remaining = input.skip(n);
    assert(spec_consumed(input, remaining) =~= input.take(n));
    assert(input =~= spec_consumed(input, remaining) + remaining);
}

/// The dispatcher makes progress and consumes exactly a spelling of what it
/// yields: wherever it recognises a fragment, the input is the text it
/// consumed, which is not empty and is a way to write that fragment down,
/// followed by what it left.
pub proof fn law_inline_consumes_a_spelling(input: Seq<char>)
    requires
        spec_parse_element_markdown_inline(input) is Ok,
    ensures
        ({
            let (remaining, fragment) = spec_parse_element_markdown_inline(input)->Ok_0;
            &&& remaining.len() < input.len()
            &&& input == spec_consumed(input, remaining) + remaining
            &&& spec_spells(spec_consumed(input, remaining), fragment)
        }),
{
    if spec_parse_element_italic(input) is Ok {
        lemma_alt_consumed(input, ITALIC_1@, ITALIC_2@);
    } else if spec_parse_element_bold(input) is Ok {
        if spec_delimited(input, BOLD_1@, BOLD_1@, BOLD_1@) is Ok {
            lemma_delimited_consumed(input, BOLD_1@, BOLD_1@, BOLD_1@);
        } else {
            lemma_delimited_consumed(input, BOLD_2@, BOLD_2@, BOLD_2@);
        }
    } else if spec_parse_element_bold_italic(input) is Ok {
        lemma_alt_consumed(input, BITALIC_1@, BITALIC_2@);
    } else if spec_parse_element_code(input) is Ok {
        lemma_delimited_consumed(input, BACK_TICK@, BACK_TICK@, BACK_TICK@);
    } else if spec_parse_element_image(input) is Ok {
        lemma_bracket_pair_consumed(input, LEFT_IMAGE@);
    } else if spec_parse_element_link(input) is Ok {
        lemma_bracket_pair_consumed(input, LEFT_BRACKET@);
    } else if spec_parse_element_checkbox(input) is Ok {
        lemma_checkbox_consumed(input);
    } else {
        lemma_plaintext_consumed(input);
    }
}

/// The fragments that the dispatcher yields when it is applied to the input,
/// then to what it left, and so on until it fails or nothing is left.
pub open spec fn spec_inline_fragments(input: Seq<char>) -> Seq<MdLineFragmentView>
    decreases input.len(),
{
    match spec_parse_element_markdown_inline(input) {
        Ok((remaining, fragment)) => if remaining.len() < input.len() {
            seq![fragment] + spec_inline_fragments(remaining)
        } else {
            Seq::empty()
        },
        Err(_) => Seq::empty(),
    }
}

/// The texts that the dispatcher consumes, one for each fragment of
/// `spec_inline_fragments`.
pub open spec fn spec_inline_texts(input: Seq<char>) -> Seq<Seq<char>>
    decreases input.len(),
{
    match spec_parse_element_markdown_inline(input) {
        Ok((remaining, fragment)) => if remaining.len() < input.len() {
            seq![spec_consumed(input, remaining)] + spec_inline_texts(remaining)
        } else {
            Seq::empty()
        },
        Err(_) => Seq::empty(),
    }
}

/// What is left of the input where repeated dispatch stops.
pub open spec fn spec_inline_rest(input: Seq<char>) -> Seq<char>
    decreases input.len(),
{
    match spec_parse_element_markdown_inline(input) {
        Ok((remaining, fragment)) => if remaining.len() < input.len() {
            spec_inline_rest(remaining)
        } else {
            input
        },
        Err(_) => input,
    }
}

/// Repeated dispatch partitions the input: the texts it consumes, one after
/// the other and followed by what it leaves, are the input again; each text
/// is a way to write the fragment that was recognised in it; and it leaves
/// something only where the dispatcher fails on what is left.
pub proof fn law_inline_partitions_input(input: Seq<char>)
    ensures
        spec_inline_texts(input).flatten() + spec_inline_rest(input) == input,
        spec_inline_texts(input).len() == spec_inline_fragments(input).len(),
        forall|i: int|
            0 <= i < spec_inline_texts(input).len() ==> spec_spells(
                #[trigger] spec_inline_texts(input)[i],
                spec_inline_fragments(input)[i],
            ),
        spec_inline_rest(input).len() == 0 || spec_parse_element_markdown_inline(
            spec_inline_rest(input),
        ) is Err,
    decreases input.len(),
{
    match spec_parse_element_markdown_inline(input) {
        Ok((remaining, fragment)) => {
            law_inline_consumes_a_spelling(input);
            law_inline_partitions_input(remaining);
            let text = spec_consumed(input, remaining);
            let texts = spec_inline_texts(remaining);
            let all = seq![text] + texts;
            assert(all.first() == text);
            assert(all.drop_first() =~= texts);
            assert(all.flatten() =~= text + texts.flatten());
            assert(all.flatten() + spec_inline_rest(remaining) =~= text + (texts.flatten()
                + spec_inline_rest(remaining)));
            assert forall|i: int| 0 <= i < all.len() implies spec_spells(
                #[trigger] all[i],
                spec_inline_fragments(input)[i],
            ) by {
                if i > 0 {
                    assert(all[i] == texts[i - 1]);
                    assert(spec_inline_fragments(input)[i] == spec_inline_fragments(
                        remaining,
                    )[i - 1]);
                }
            }
        },
        Err(_) => {
            assert(Seq::<Seq<char>>::empty().flatten() + input =~= input);
        },
    }
}

} // verus!
