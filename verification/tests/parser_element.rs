use tui_editor::{
    parse_element_bold, parse_element_bold_italic, parse_element_checkbox, parse_element_code,
    parse_element_image, parse_element_italic, parse_element_link,
    parse_element_markdown_inline, parse_element_plaintext, HyperlinkData, MdLineFragment,
    ParseError, ParseErrorKind,
};

fn fail<T>(input: &str, code: ParseErrorKind) -> Result<T, ParseError<'_>> {
    Err(ParseError { input, code })
}

#[test]
fn test_parse_element_italic() {
    assert_eq!(parse_element_italic("*here is italic*"), Ok(("", "here is italic")));
    assert_eq!(parse_element_italic("_here is italic_"), Ok(("", "here is italic")));
    assert_eq!(
        parse_element_italic("*here is italic"),
        fail("*here is italic", ParseErrorKind::Tag)
    );
    assert_eq!(
        parse_element_italic("here is italic*"),
        fail("here is italic*", ParseErrorKind::Tag)
    );
    assert_eq!(
        parse_element_italic("here is italic"),
        fail("here is italic", ParseErrorKind::Tag)
    );
    assert_eq!(parse_element_italic("*"), fail("*", ParseErrorKind::Tag));
    assert_eq!(parse_element_italic("**"), fail("**", ParseErrorKind::Tag));
    assert_eq!(parse_element_italic(""), fail("", ParseErrorKind::Tag));
    assert_eq!(
        parse_element_italic("**we are doing bold**"),
        fail("**we are doing bold**", ParseErrorKind::Tag)
    );
}

#[test]
fn test_parse_element_bold_italic() {
    assert_eq!(
        parse_element_bold_italic("***here is bitalic***"),
        Ok(("", "here is bitalic"))
    );
    assert_eq!(
        parse_element_bold("***here is bitalic"),
        fail("***here is bitalic", ParseErrorKind::Tag)
    );
    assert_eq!(
        parse_element_bold("here is bitalic***"),
        fail("here is bitalic***", ParseErrorKind::Tag)
    );
    assert_eq!(
        parse_element_bold_italic("___here is bitalic___"),
        Ok(("", "here is bitalic"))
    );
    assert_eq!(
        parse_element_bold_italic("___here is bitalic"),
        fail("", ParseErrorKind::Tag)
    );
    assert_eq!(
        parse_element_bold_italic("here is bitalic___"),
        fail("here is bitalic___", ParseErrorKind::Tag)
    );
}

#[test]
fn test_parse_element_bold() {
    assert_eq!(parse_element_bold("**here is bold**"), Ok(("", "here is bold")));
    assert_eq!(parse_element_bold("__here is bold__"), Ok(("", "here is bold")));
    assert_eq!(
        parse_element_bold("**here is bold"),
        fail("**here is bold", ParseErrorKind::Tag)
    );
    assert_eq!(
        parse_element_bold("here is bold**"),
        fail("here is bold**", ParseErrorKind::Tag)
    );
    assert_eq!(
        parse_element_bold("here is bold"),
        fail("here is bold", ParseErrorKind::Tag)
    );
    assert_eq!(parse_element_bold("****"), fail("**", ParseErrorKind::IsNot));
    assert_eq!(parse_element_bold("**"), fail("**", ParseErrorKind::Tag));
    assert_eq!(parse_element_bold("*"), fail("*", ParseErrorKind::Tag));
    assert_eq!(parse_element_bold(""), fail("", ParseErrorKind::Tag));
    assert_eq!(
        parse_element_bold("*this is italic*"),
        fail("*this is italic*", ParseErrorKind::Tag)
    );
}

#[test]
fn test_parse_element_code() {
    assert_eq!(parse_element_code("`here is code"), fail("", ParseErrorKind::Tag));
    assert_eq!(
        parse_element_code("here is code`"),
        fail("here is code`", ParseErrorKind::Tag)
    );
    assert_eq!(parse_element_code("``"), fail("`", ParseErrorKind::IsNot));
    assert_eq!(parse_element_code("`"), fail("", ParseErrorKind::IsNot));
    assert_eq!(parse_element_code(""), fail("", ParseErrorKind::Tag));
}

#[test]
fn test_parse_element_link() {
    assert_eq!(
        parse_element_link("[title](https://www.example.com)"),
        Ok(("", HyperlinkData::new("title", "https://www.example.com")))
    );
    assert_eq!(parse_element_code(""), fail("", ParseErrorKind::Tag));
}

#[test]
fn test_parse_element_image() {
    assert_eq!(
        parse_element_image("![alt text](image.jpg)"),
        Ok(("", HyperlinkData::new("alt text", "image.jpg")))
    );
    assert_eq!(parse_element_code(""), fail("", ParseErrorKind::Tag));
}

#[test]
fn test_parse_element_plaintext() {
    assert_eq!(parse_element_plaintext("1234567890"), Ok(("", "1234567890")));
    assert_eq!(parse_element_plaintext("oh my gosh!"), Ok(("", "oh my gosh!")));
    assert_eq!(parse_element_plaintext("oh my gosh!["), Ok(("![", "oh my gosh")));
    assert_eq!(parse_element_plaintext("oh my gosh!*"), Ok(("*", "oh my gosh!")));
    assert_eq!(
        parse_element_plaintext("*bold baby bold*"),
        fail("*bold baby bold*", ParseErrorKind::Not)
    );
    assert_eq!(
        parse_element_plaintext("[link baby](and then somewhat)"),
        fail("[link baby](and then somewhat)", ParseErrorKind::Not)
    );
    assert_eq!(
        parse_element_plaintext("`codeblock for bums`"),
        fail("`codeblock for bums`", ParseErrorKind::Not)
    );
    assert_eq!(
        parse_element_plaintext("![ but wait theres more](jk)"),
        fail("![ but wait theres more](jk)", ParseErrorKind::Not)
    );
    assert_eq!(
        parse_element_plaintext("here is plaintext"),
        Ok(("", "here is plaintext"))
    );
    assert_eq!(
        parse_element_plaintext("here is plaintext!"),
        Ok(("", "here is plaintext!"))
    );
    assert_eq!(
        parse_element_plaintext("here is plaintext![image starting"),
        Ok(("![image starting", "here is plaintext"))
    );
    assert_eq!(
        parse_element_plaintext("here is plaintext\n"),
        Ok(("\n", "here is plaintext"))
    );
    assert_eq!(
        parse_element_plaintext("*here is italic*"),
        fail("*here is italic*", ParseErrorKind::Not)
    );
    assert_eq!(
        parse_element_plaintext("**here is bold**"),
        fail("**here is bold**", ParseErrorKind::Not)
    );
    assert_eq!(
        parse_element_plaintext("`here is code`"),
        fail("`here is code`", ParseErrorKind::Not)
    );
    assert_eq!(
        parse_element_plaintext("[title](https://www.example.com)"),
        fail("[title](https://www.example.com)", ParseErrorKind::Not)
    );
    assert_eq!(
        parse_element_plaintext("![alt text](image.jpg)"),
        fail("![alt text](image.jpg)", ParseErrorKind::Not)
    );
    assert_eq!(parse_element_plaintext(""), fail("", ParseErrorKind::Eof));
}

#[test]
fn test_parse_element_markdown_inline() {
    assert_eq!(
        parse_element_markdown_inline("*here is italic*"),
        Ok(("", MdLineFragment::Italic("here is italic")))
    );
    assert_eq!(
        parse_element_markdown_inline("**here is bold**"),
        Ok(("", MdLineFragment::Bold("here is bold")))
    );
    assert_eq!(
        parse_element_markdown_inline("`here is code`"),
        Ok(("", MdLineFragment::InlineCode("here is code")))
    );
    assert_eq!(
        parse_element_markdown_inline("[title](https://www.example.com)"),
        Ok((
            "",
            (MdLineFragment::Link(HyperlinkData::new("title", "https://www.example.com")))
        ))
    );
    assert_eq!(
        parse_element_markdown_inline("![alt text](image.jpg)"),
        Ok((
            "",
            (MdLineFragment::Image(HyperlinkData::new("alt text", "image.jpg")))
        ))
    );
    assert_eq!(
        parse_element_markdown_inline("here is plaintext!"),
        Ok(("", MdLineFragment::Plain("here is plaintext!")))
    );
    assert_eq!(
        parse_element_markdown_inline("here is some plaintext *but what if we italicize?"),
        Ok((
            "*but what if we italicize?",
            MdLineFragment::Plain("here is some plaintext ")
        ))
    );
    assert_eq!(
        parse_element_markdown_inline("here is some plaintext \n*but what if we italicize?"),
        Ok((
            "\n*but what if we italicize?",
            MdLineFragment::Plain("here is some plaintext ")
        ))
    );
    assert_eq!(parse_element_markdown_inline("\n"), fail("\n", ParseErrorKind::Not));
    assert_eq!(parse_element_markdown_inline(""), fail("", ParseErrorKind::Eof));
}

#[test]
fn checkbox_checked_and_unchecked() {
    assert_eq!(parse_element_checkbox("[x] done"), Ok((" done", true)));
    assert_eq!(parse_element_checkbox("[ ] todo"), Ok((" todo", false)));
    assert_eq!(parse_element_checkbox("[y]"), fail("[y]", ParseErrorKind::Tag));
    assert_eq!(
        parse_element_markdown_inline("[x] done"),
        Ok((" done", MdLineFragment::Checkbox(true)))
    );
}
