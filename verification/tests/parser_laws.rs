use tui_editor::{
    parse_element_bold, parse_element_bold_italic, parse_element_checkbox, parse_element_code,
    parse_element_image, parse_element_italic, parse_element_link,
    parse_element_markdown_inline, parse_element_plaintext, HyperlinkData, MdLineFragment,
    ParseError, ParseErrorKind, BACK_TICK, BITALIC_1, BITALIC_2, BOLD_1, BOLD_2, CHECKED,
    ITALIC_1, ITALIC_2, LEFT_BRACKET, LEFT_IMAGE, LEFT_PARENTHESIS, NEW_LINE, RIGHT_BRACKET,
    RIGHT_IMAGE, RIGHT_PARENTHESIS, UNCHECKED,
};

const PLAIN_TEXTS: [&str; 6] =
    ["a", "plain text", "x]y)z(!", "caf\u{e9} \u{1F440}", "1 + 1 = 2", "tabs\tand spaces "];

#[test]
fn delimiters_are_what_the_grammar_says() {
    assert_eq!(
        [BITALIC_1, BITALIC_2, BOLD_1, BOLD_2, ITALIC_1, ITALIC_2, BACK_TICK],
        ["***", "___", "**", "__", "*", "_", "`"]
    );
    assert_eq!(
        [LEFT_BRACKET, RIGHT_BRACKET, LEFT_PARENTHESIS, RIGHT_PARENTHESIS, LEFT_IMAGE, RIGHT_IMAGE],
        ["[", "]", "(", ")", "![", "]"]
    );
    assert_eq!([CHECKED, UNCHECKED, NEW_LINE], ["[x]", "[ ]", "\n"]);
}

#[test]
fn plaintext_takes_plain_input_whole() {
    for text in PLAIN_TEXTS {
        assert_eq!(parse_element_plaintext(text), Ok(("", text)));
    }
}

#[test]
fn italic_takes_text_between_its_delimiters() {
    for text in PLAIN_TEXTS {
        let starred = format!("*{}*", text);
        assert_eq!(parse_element_italic(&starred), Ok(("", text)));
        let underscored = format!("_{}_", text);
        assert_eq!(parse_element_italic(&underscored), Ok(("", text)));
    }
    assert_eq!(parse_element_italic("_a*b_ rest"), Ok((" rest", "a*b")));
}

#[test]
fn bold_and_bold_italic_take_text_between_their_delimiters() {
    for text in PLAIN_TEXTS {
        let starred = format!("**{}**", text);
        assert_eq!(parse_element_bold(&starred), Ok(("", text)));
        let underscored = format!("__{}__", text);
        assert_eq!(parse_element_bold(&underscored), Ok(("", text)));
        let both = format!("***{}***", text);
        assert_eq!(parse_element_bold_italic(&both), Ok(("", text)));
        let code = format!("`{}`", text);
        assert_eq!(parse_element_code(&code), Ok(("", text)));
    }
    assert_eq!(
        parse_element_bold("**a*b**"),
        Err(ParseError { input: "**a*b**", code: ParseErrorKind::Tag })
    );
    assert_eq!(
        parse_element_bold("____"),
        Err(ParseError { input: "__", code: ParseErrorKind::IsNot })
    );
}

#[test]
fn link_and_image_take_both_texts() {
    for text in ["t", "a (b", "caf\u{e9}"] {
        for url in ["u", "https://www.example.com", "[x]"] {
            let link = format!("[{}]({})", text, url);
            assert_eq!(parse_element_link(&link), Ok(("", HyperlinkData::new(text, url))));
            assert_eq!(
                parse_element_markdown_inline(&link),
                Ok(("", MdLineFragment::Link(HyperlinkData::from((text, url)))))
            );
            let image = format!("![{}]({})", text, url);
            assert_eq!(parse_element_image(&image), Ok(("", HyperlinkData::new(text, url))));
        }
    }
    assert_eq!(
        parse_element_link("[t](u"),
        Err(ParseError { input: "", code: ParseErrorKind::Tag })
    );
    assert_eq!(
        parse_element_link("[](u)"),
        Err(ParseError { input: "](u)", code: ParseErrorKind::IsNot })
    );
    assert_eq!(
        parse_element_link("[t]u"),
        Err(ParseError { input: "u", code: ParseErrorKind::Tag })
    );
}

fn spelling(fragment: &MdLineFragment<'_>) -> Vec<String> {
    match fragment {
        MdLineFragment::Plain(t) => vec![t.to_string()],
        MdLineFragment::Italic(t) => vec![format!("*{}*", t), format!("_{}_", t)],
        MdLineFragment::Bold(t) => vec![format!("**{}**", t), format!("__{}__", t)],
        MdLineFragment::BoldItalic(t) => vec![format!("***{}***", t), format!("___{}___", t)],
        MdLineFragment::InlineCode(t) => vec![format!("`{}`", t)],
        MdLineFragment::Link(d) => vec![format!("[{}]({})", d.text, d.url)],
        MdLineFragment::Image(d) => vec![format!("![{}]({})", d.text, d.url)],
        MdLineFragment::Checkbox(true) => vec!["[x]".to_string()],
        MdLineFragment::Checkbox(false) => vec!["[ ]".to_string()],
    }
}

#[test]
fn repeated_dispatch_partitions_the_line() {
    let lines = [
        "here is *italic* and **bold** and ***both*** and `code`",
        "[x] done, [ ] open, [link](url) and ![image](path)",
        "plain only",
        "_under_ __score__ ___all___",
        "ends in an open *delimiter",
        "",
        "caf\u{e9} **\u{1F440}**!",
    ];
    for line in lines {
        let mut rest = line;
        let mut rebuilt = String::new();
        let mut count = 0;
        loop {
            match parse_element_markdown_inline(rest) {
                Ok((remaining, fragment)) => {
                    assert!(remaining.len() < rest.len());
                    let consumed = &rest[..rest.len() - remaining.len()];
                    assert!(rest.ends_with(remaining));
                    assert!(spelling(&fragment).iter().any(|s| s == consumed));
                    rebuilt.push_str(consumed);
                    rest = remaining;
                    count += 1;
                }
                Err(_) => break,
            }
        }
        rebuilt.push_str(rest);
        assert_eq!(rebuilt, line);
        assert!(count <= line.len());
    }
    let mut rest = "a *b* `c`";
    let mut fragments = Vec::new();
    while let Ok((remaining, fragment)) = parse_element_markdown_inline(rest) {
        fragments.push(fragment);
        rest = remaining;
    }
    assert_eq!(rest, "");
    assert_eq!(
        fragments,
        vec![
            MdLineFragment::Plain("a "),
            MdLineFragment::Italic("b"),
            MdLineFragment::Plain(" "),
            MdLineFragment::InlineCode("c"),
        ]
    );
}

fn kind_of(code: nom::error::ErrorKind) -> Option<ParseErrorKind> {
    match code {
        nom::error::ErrorKind::Tag => Some(ParseErrorKind::Tag),
        nom::error::ErrorKind::IsNot => Some(ParseErrorKind::IsNot),
        nom::error::ErrorKind::Not => Some(ParseErrorKind::Not),
        nom::error::ErrorKind::Eof => Some(ParseErrorKind::Eof),
        _ => None,
    }
}

fn by_combinators<'a>(open: &'static str, close: &'static str, input: &'a str)
    -> Result<(&'a str, &'a str), ParseError<'a>> {
    let outcome: nom::IResult<&str, &str> = nom::sequence::delimited(
        nom::bytes::complete::tag(open),
        nom::bytes::complete::is_not(close),
        nom::bytes::complete::tag(close),
    )(input);
    match outcome {
        Ok(found) => Ok(found),
        Err(nom::Err::Error(e)) => Err(ParseError { input: e.input, code: kind_of(e.code).unwrap() }),
        Err(other) => panic!("unexpected outcome {:?}", other),
    }
}

#[test]
fn delimited_forms_agree_with_parser_combinators() {
    let inputs = [
        "", "`", "``", "`a`", "`a", "a`", "`a`b", "``a`", "`caf\u{e9}` rest", "[x]", "`a\nb`",
    ];
    for input in inputs {
        assert_eq!(parse_element_code(input), by_combinators("`", "`", input));
    }
    let emphasis = ["", "*", "**", "***", "****", "*a*", "**a**", "***a***", "*a", "a*", "**a*",
        "*a**", "***a**", "___a___", "__a__", "_a_", "_a*", "*a_"];
    for input in emphasis {
        let italic = by_combinators("*", "*", input).or_else(|_| by_combinators("_", "_", input));
        assert_eq!(parse_element_italic(input), italic);
        let bold = by_combinators("**", "**", input).or_else(|first| {
            if first.code == ParseErrorKind::IsNot && first.input.starts_with("**") {
                Err(first)
            } else {
                by_combinators("__", "__", input)
            }
        });
        assert_eq!(parse_element_bold(input), bold);
        let both =
            by_combinators("***", "***", input).or_else(|_| by_combinators("___", "___", input));
        assert_eq!(parse_element_bold_italic(input), both);
    }
}

#[test]
fn dispatch_prefers_the_earlier_parser() {
    assert_eq!(
        parse_element_markdown_inline("***both***"),
        Ok(("", MdLineFragment::BoldItalic("both")))
    );
    assert_eq!(
        parse_element_markdown_inline("![alt](p) tail"),
        Ok((" tail", MdLineFragment::Image(HyperlinkData::new("alt", "p"))))
    );
    assert_eq!(
        parse_element_markdown_inline("[ ] todo"),
        Ok((" todo", MdLineFragment::Checkbox(false)))
    );
    assert_eq!(
        parse_element_markdown_inline("*open"),
        Err(ParseError { input: "*open", code: ParseErrorKind::Not })
    );
    assert_eq!(parse_element_checkbox(""), Err(ParseError { input: "", code: ParseErrorKind::Tag }));
}

#[test]
fn bold_without_a_body_fails_as_an_empty_body() {
    for rest in ["", " tail", "*", "**", "x**"] {
        let input = format!("****{}", rest);
        let left = format!("**{}", rest);
        assert_eq!(
            parse_element_bold(&input),
            Err(ParseError { input: left.as_str(), code: ParseErrorKind::IsNot })
        );
    }
    assert_eq!(
        parse_element_bold("____"),
        Err(ParseError { input: "__", code: ParseErrorKind::IsNot })
    );
    assert_eq!(parse_element_bold("**"), Err(ParseError { input: "**", code: ParseErrorKind::Tag }));
    assert_eq!(
        parse_element_bold("***a**"),
        Err(ParseError { input: "***a**", code: ParseErrorKind::Tag })
    );
    assert_eq!(
        parse_element_markdown_inline("****"),
        Err(ParseError { input: "****", code: ParseErrorKind::Not })
    );
}
