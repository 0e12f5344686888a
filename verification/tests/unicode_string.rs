use tui_editor::{List, Style, StyleUSSpan, UnicodeString, RenderOp, RenderOps};

fn segments_of(text: &UnicodeString) -> Vec<&str> {
    text.segments.iter().map(|s| s.as_str()).collect()
}

#[test]
fn ascii_text_has_one_cluster_per_character() {
    let text = UnicodeString::new("hello");
    assert_eq!(segments_of(&text), vec!["h", "e", "l", "l", "o"]);
    assert_eq!(text.as_str(), "hello");
    assert_eq!(text.grapheme_count(), 5);
    assert_eq!(text.len(), 5);
    assert!(!text.is_empty());
}

#[test]
fn combining_marks_stay_with_their_base() {
    let text = UnicodeString::new("a\u{310}e\u{301}o\u{308}\u{332}\r\n");
    assert_eq!(
        segments_of(&text),
        vec!["a\u{310}", "e\u{301}", "o\u{308}\u{332}", "\r\n"]
    );
    assert_eq!(text.grapheme_count(), 4);
    assert_eq!(text.len(), 13);
}

#[test]
fn empty_text_has_no_cluster() {
    let text = UnicodeString::new("");
    assert_eq!(text.grapheme_count(), 0);
    assert!(text.is_empty());
    assert_eq!(text.segment_at(0), None);
    assert_eq!(text.segment_slice_at(0), None);
    assert_eq!(text.clip(0, 10).as_str(), "");
}

#[test]
fn clip_cuts_a_window_of_clusters() {
    let text = UnicodeString::new("0123456789");
    assert_eq!(text.clip(3, 4).as_str(), "3456");
    assert_eq!(segments_of(&text.clip(3, 4)), vec!["3", "4", "5", "6"]);
    assert_eq!(text.clip(0, 0).as_str(), "");
    assert_eq!(text.clip(8, 5).as_str(), "89");
    assert_eq!(text.clip(10, 5).as_str(), "");
    assert_eq!(text.clip(50, 5).as_str(), "");
    assert_eq!(text.clip(0, u32::MAX).as_str(), "0123456789");
    assert_eq!(text.clip(u32::MAX, u32::MAX).as_str(), "");
}

#[test]
fn clip_keeps_clusters_whole() {
    let text = UnicodeString::new("a\u{310}e\u{301}o\u{308}\u{332}z");
    let part = text.clip(1, 2);
    assert_eq!(part.as_str(), "e\u{301}o\u{308}\u{332}");
    assert_eq!(part.grapheme_count(), 2);
}

#[test]
fn segment_slice_gives_cluster_index_and_bytes_before_it() {
    let text = UnicodeString::new("a\u{310}e\u{301}o\u{308}\u{332}\r\n");
    let found = text.segment_slice_at(2).unwrap();
    assert_eq!(found.segment, "o\u{308}\u{332}");
    assert_eq!(found.grapheme_index, 2);
    assert_eq!(found.byte_index, 6);
    let first = text.segment_slice_at(0).unwrap();
    assert_eq!(first.byte_index, 0);
    assert_eq!(text.segment_slice_at(4), None);
    assert_eq!(text.segment_at(3).map(|s| s.as_str()), Some("\r\n"));
}

#[test]
fn duplicate_has_the_same_text_and_clusters() {
    let text = UnicodeString::new("hello e\u{301} world");
    assert_eq!(text.duplicate(), text);
}

#[test]
fn a_text_that_is_not_divided_as_it_should_be_is_still_clipped_by_its_segments() {
    let odd = UnicodeString {
        string: "whatever".to_string(),
        segments: vec!["ab".to_string(), "".to_string(), "c".to_string()],
    };
    let part = odd.clip(1, 5);
    assert_eq!(part.segments, vec!["".to_string(), "c".to_string()]);
    assert_eq!(part.as_str(), "c");
    assert!(!odd.is_empty());
}

fn span(style: Style, text: &str) -> StyleUSSpan {
    StyleUSSpan::new(style, UnicodeString::new(text))
}

fn texts_of(spans: &[StyleUSSpan]) -> Vec<(&str, Style)> {
    spans.iter().map(|s| (s.text.as_str(), s.style)).collect()
}

#[test]
fn clip_spans_drops_cuts_and_keeps_styles() {
    let bold = Style { bold: true, ..Style::default() };
    let italic = Style { italic: true, ..Style::default() };
    let plain = Style::default();
    let mut list: List<StyleUSSpan> = List::new();
    list.push(span(bold, "abc"));
    list.push(span(italic, "defg"));
    list.push(span(plain, "hij"));
    assert_eq!(list.len(), 3);

    let all = list.clip(0, 10);
    assert_eq!(texts_of(&all.spans), vec![("abc", bold), ("defg", italic), ("hij", plain)]);

    let window = list.clip(2, 4);
    assert_eq!(texts_of(&window.spans), vec![("c", bold), ("def", italic)]);

    let tail = list.clip(7, 10);
    assert_eq!(texts_of(&tail.spans), vec![("hij", plain)]);

    let middle = list.clip(4, 2);
    assert_eq!(texts_of(&middle.spans), vec![("ef", italic)]);

    assert!(list.clip(10, 5).spans.is_empty());
    assert!(list.clip(0, 0).spans.is_empty());
    assert!(list.clip(u32::MAX, u32::MAX).spans.is_empty());
}

#[test]
fn clipped_spans_are_never_wider_than_the_window() {
    let mut list: List<StyleUSSpan> = List::with_capacity(4);
    list.push(span(Style::default(), "0123456789"));
    list.push(span(Style::reverse(), "abcdefghij"));
    for start in 0..25u32 {
        for max in 0..25u32 {
            let clipped = list.clip(start, max);
            let total: usize = clipped.spans.iter().map(|s| s.text.grapheme_count()).sum();
            assert!(total <= max as usize);
            for s in &clipped.spans {
                assert!(s.text.grapheme_count() >= 1);
            }
            let joined: String = clipped.spans.iter().map(|s| s.text.as_str()).collect();
            let whole = "0123456789abcdefghij";
            let from = (start as usize).min(whole.len());
            let to = (start as usize + max as usize).min(whole.len());
            assert_eq!(joined, &whole[from..to]);
        }
    }
}

#[test]
fn styled_texts_render_into_three_ops_per_span() {
    let bold = Style { bold: true, ..Style::default() };
    let mut list: List<StyleUSSpan> = List::new();
    list.push(span(bold, "ab"));
    list.push(span(Style::default(), "cd"));
    let mut ops = RenderOps::new();
    ops.push(RenderOp::ClearScreen);
    list.clip(1, 2).render_into(&mut ops);
    assert_eq!(
        ops.list,
        vec![
            RenderOp::ClearScreen,
            RenderOp::ApplyColors(Some(bold)),
            RenderOp::PrintTextWithAttributes("b".to_string(), Some(bold)),
            RenderOp::ResetColor,
            RenderOp::ApplyColors(Some(Style::default())),
            RenderOp::PrintTextWithAttributes("c".to_string(), Some(Style::default())),
            RenderOp::ResetColor,
        ]
    );
}

#[test]
fn list_conversions_and_extend() {
    let mut list: List<u32> = List::from(vec![1, 2]);
    list.extend(vec![3, 4]);
    list.push(5);
    let back: Vec<u32> = list.into();
    assert_eq!(back, vec![1, 2, 3, 4, 5]);
    let strings = vec!["a".to_string(), "bc".to_string()];
    assert_eq!(tui_editor::as_str_list(&strings).inner, vec!["a", "bc"]);
}
