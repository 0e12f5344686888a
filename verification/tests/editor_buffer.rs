use tui_editor::{
    CaretDirection, CaretKind, EditorBuffer, EditorEvent, InputEvent, Key, KeyPress,
    ModifierKeysMask, MouseInput, MouseInputKind, FocusEvent, Position, Size, SpecialKey,
    FunctionKey,
};

fn buffer_of(lines: &[&str]) -> EditorBuffer {
    let mut buffer = EditorBuffer::new_empty("md");
    buffer.set_lines(&lines.iter().map(|l| l.to_string()).collect());
    buffer
}

fn lines_of(buffer: &EditorBuffer) -> Vec<&str> {
    buffer.get_lines().iter().map(|l| l.as_str()).collect()
}

fn check_invariants(buffer: &EditorBuffer, viewport: Size) {
    let lines = buffer.get_lines();
    let caret = buffer.get_caret(CaretKind::Absolute);
    let scroll = buffer.get_scroll_offset();
    if lines.is_empty() {
        assert_eq!(caret, Position::new(0, 0));
        assert_eq!(scroll, Position::new(0, 0));
    }
    assert!((caret.row_index as usize) < lines.len().max(1));
    let width = lines.get(caret.row_index as usize).map(|l| l.grapheme_count()).unwrap_or(0);
    assert!(caret.col_index as usize <= width);
    assert!(scroll.row_index <= caret.row_index);
    assert!(caret.row_index < scroll.row_index + viewport.row_count);
    assert!(scroll.col_index <= caret.col_index);
    let at_end = caret.col_index as usize == width;
    assert!(
        caret.col_index < scroll.col_index + viewport.col_count
            || (at_end && caret.col_index <= scroll.col_index + viewport.col_count)
    );
    for line in lines {
        let joined: String = line.segments.concat();
        assert_eq!(joined, line.string);
        assert!(line.segments.iter().all(|s| !s.is_empty()));
    }
}

const VIEWPORT: Size = Size { col_count: 10, row_count: 3 };

#[test]
fn new_buffer_is_empty() {
    let buffer = EditorBuffer::new_empty("rs");
    assert!(buffer.is_empty());
    assert_eq!(buffer.get_file_extension(), "rs");
    assert_eq!(buffer.get_caret(CaretKind::Raw), Position::new(0, 0));
    assert_eq!(buffer.string_at_caret(), None);
    assert!(buffer_of(&[""]).is_empty());
    assert!(!buffer_of(&["", ""]).is_empty());
    assert!(!buffer_of(&["a"]).is_empty());
}

#[test]
fn caret_raw_is_caret_less_scroll_offset() {
    let mut buffer = buffer_of(&["0123456789"]);
    buffer.caret = Position::new(7, 0);
    buffer.scroll_offset = Position::new(3, 0);
    assert_eq!(buffer.get_caret(CaretKind::Raw), Position::new(4, 0));
    assert_eq!(buffer.get_caret(CaretKind::Absolute), Position::new(7, 0));
    assert_eq!(buffer.get_scroll_offset(), Position::new(3, 0));
}

#[test]
fn string_at_caret_gives_the_cluster_under_the_caret() {
    let mut buffer = buffer_of(&["ab", "e\u{301}xy"]);
    buffer.caret = Position::new(1, 1);
    let found = buffer.string_at_caret().unwrap();
    assert_eq!(found.segment, "x");
    assert_eq!(found.grapheme_index, 1);
    assert_eq!(found.byte_index, 3);
    buffer.caret = Position::new(3, 1);
    assert_eq!(buffer.string_at_caret(), None);
    buffer.caret = Position::new(0, 5);
    assert_eq!(buffer.string_at_caret(), None);
}

#[test]
fn typing_into_an_empty_buffer() {
    let mut buffer = EditorBuffer::new_empty("md");
    buffer.apply(EditorEvent::InsertChar('h'), VIEWPORT);
    buffer.apply(EditorEvent::InsertChar('i'), VIEWPORT);
    assert_eq!(lines_of(&buffer), vec!["hi"]);
    assert_eq!(buffer.caret, Position::new(2, 0));
    check_invariants(&buffer, VIEWPORT);
}

#[test]
fn insert_string_in_the_middle_of_a_line() {
    let mut buffer = buffer_of(&["held", "x"]);
    buffer.caret = Position::new(3, 0);
    buffer.apply(EditorEvent::InsertString("lo wor".to_string()), VIEWPORT);
    assert_eq!(lines_of(&buffer), vec!["hello word", "x"]);
    assert_eq!(buffer.caret, Position::new(9, 0));
    check_invariants(&buffer, VIEWPORT);
}

#[test]
fn insert_combining_mark_joins_the_cluster_before_it() {
    let mut buffer = buffer_of(&["e"]);
    buffer.caret = Position::new(1, 0);
    buffer.apply(EditorEvent::InsertChar('\u{301}'), VIEWPORT);
    assert_eq!(lines_of(&buffer), vec!["e\u{301}"]);
    assert_eq!(buffer.get_lines()[0].grapheme_count(), 1);
    assert_eq!(buffer.caret, Position::new(1, 0));
    check_invariants(&buffer, VIEWPORT);
}

#[test]
fn new_line_breaks_the_line_at_the_caret() {
    let mut buffer = buffer_of(&["hello", "world"]);
    buffer.caret = Position::new(2, 0);
    buffer.apply(EditorEvent::InsertNewLine, VIEWPORT);
    assert_eq!(lines_of(&buffer), vec!["he", "llo", "world"]);
    assert_eq!(buffer.caret, Position::new(0, 1));
    check_invariants(&buffer, VIEWPORT);

    let mut at_end = buffer_of(&["ab"]);
    at_end.caret = Position::new(2, 0);
    at_end.apply(EditorEvent::InsertNewLine, VIEWPORT);
    assert_eq!(lines_of(&at_end), vec!["ab", ""]);
    assert_eq!(at_end.caret, Position::new(0, 1));

    let mut empty = EditorBuffer::new_empty("md");
    empty.apply(EditorEvent::InsertNewLine, VIEWPORT);
    assert_eq!(lines_of(&empty), vec!["", ""]);
    assert_eq!(empty.caret, Position::new(0, 1));
    check_invariants(&empty, VIEWPORT);
}

#[test]
fn delete_removes_the_cluster_under_the_caret_or_joins_lines() {
    let mut buffer = buffer_of(&["abc", "def"]);
    buffer.caret = Position::new(1, 0);
    buffer.apply(EditorEvent::Delete, VIEWPORT);
    assert_eq!(lines_of(&buffer), vec!["ac", "def"]);
    assert_eq!(buffer.caret, Position::new(1, 0));
    buffer.caret = Position::new(2, 0);
    buffer.apply(EditorEvent::Delete, VIEWPORT);
    assert_eq!(lines_of(&buffer), vec!["acdef"]);
    assert_eq!(buffer.caret, Position::new(2, 0));
    buffer.caret = Position::new(5, 0);
    buffer.apply(EditorEvent::Delete, VIEWPORT);
    assert_eq!(lines_of(&buffer), vec!["acdef"]);
    check_invariants(&buffer, VIEWPORT);
}

#[test]
fn backspace_removes_the_cluster_before_the_caret_or_joins_lines() {
    let mut buffer = buffer_of(&["abc", "def"]);
    buffer.caret = Position::new(2, 1);
    buffer.apply(EditorEvent::Backspace, VIEWPORT);
    assert_eq!(lines_of(&buffer), vec!["abc", "df"]);
    assert_eq!(buffer.caret, Position::new(1, 1));
    buffer.caret = Position::new(0, 1);
    buffer.apply(EditorEvent::Backspace, VIEWPORT);
    assert_eq!(lines_of(&buffer), vec!["abcdf"]);
    assert_eq!(buffer.caret, Position::new(3, 0));
    buffer.caret = Position::new(0, 0);
    buffer.apply(EditorEvent::Backspace, VIEWPORT);
    assert_eq!(lines_of(&buffer), vec!["abcdf"]);
    assert_eq!(buffer.caret, Position::new(0, 0));
    check_invariants(&buffer, VIEWPORT);
}

#[test]
fn arrows_move_the_caret_and_wrap_at_line_ends() {
    let mut buffer = buffer_of(&["abcd", "xy", "hello"]);
    buffer.caret = Position::new(4, 0);
    buffer.apply(EditorEvent::MoveCaret(CaretDirection::Right), VIEWPORT);
    assert_eq!(buffer.caret, Position::new(0, 1));
    buffer.apply(EditorEvent::MoveCaret(CaretDirection::Left), VIEWPORT);
    assert_eq!(buffer.caret, Position::new(4, 0));
    buffer.apply(EditorEvent::MoveCaret(CaretDirection::Down), VIEWPORT);
    assert_eq!(buffer.caret, Position::new(2, 1));
    buffer.apply(EditorEvent::MoveCaret(CaretDirection::Down), VIEWPORT);
    assert_eq!(buffer.caret, Position::new(2, 2));
    buffer.apply(EditorEvent::MoveCaret(CaretDirection::Down), VIEWPORT);
    assert_eq!(buffer.caret, Position::new(5, 2));
    buffer.apply(EditorEvent::MoveCaret(CaretDirection::Right), VIEWPORT);
    assert_eq!(buffer.caret, Position::new(5, 2));
    buffer.apply(EditorEvent::MoveCaret(CaretDirection::Up), VIEWPORT);
    assert_eq!(buffer.caret, Position::new(2, 1));
    buffer.apply(EditorEvent::MoveCaret(CaretDirection::Up), VIEWPORT);
    assert_eq!(buffer.caret, Position::new(2, 0));
    buffer.apply(EditorEvent::MoveCaret(CaretDirection::Up), VIEWPORT);
    assert_eq!(buffer.caret, Position::new(0, 0));
    buffer.apply(EditorEvent::MoveCaret(CaretDirection::Left), VIEWPORT);
    assert_eq!(buffer.caret, Position::new(0, 0));
    check_invariants(&buffer, VIEWPORT);
}

#[test]
fn home_end_and_pages() {
    let lines: Vec<String> = (0..10).map(|i| format!("line {}", i)).collect();
    let mut buffer = EditorBuffer::new_empty("md");
    buffer.set_lines(&lines);
    buffer.apply(EditorEvent::End, VIEWPORT);
    assert_eq!(buffer.caret, Position::new(6, 0));
    buffer.apply(EditorEvent::Home, VIEWPORT);
    assert_eq!(buffer.caret, Position::new(0, 0));
    buffer.apply(EditorEvent::PageDown, VIEWPORT);
    assert_eq!(buffer.caret, Position::new(0, 3));
    assert_eq!(buffer.scroll_offset, Position::new(0, 1));
    buffer.apply(EditorEvent::PageDown, VIEWPORT);
    buffer.apply(EditorEvent::PageDown, VIEWPORT);
    buffer.apply(EditorEvent::PageDown, VIEWPORT);
    assert_eq!(buffer.caret, Position::new(0, 9));
    assert_eq!(buffer.scroll_offset, Position::new(0, 7));
    check_invariants(&buffer, VIEWPORT);
    buffer.apply(EditorEvent::PageUp, VIEWPORT);
    assert_eq!(buffer.caret, Position::new(0, 6));
    assert_eq!(buffer.scroll_offset, Position::new(0, 6));
    buffer.apply(EditorEvent::PageUp, VIEWPORT);
    buffer.apply(EditorEvent::PageUp, VIEWPORT);
    buffer.apply(EditorEvent::PageUp, VIEWPORT);
    assert_eq!(buffer.caret, Position::new(0, 0));
    assert_eq!(buffer.scroll_offset, Position::new(0, 0));
    check_invariants(&buffer, VIEWPORT);
}

#[test]
fn typing_past_the_viewport_scrolls_sideways() {
    let viewport = Size::new(5, 2);
    let mut buffer = EditorBuffer::new_empty("md");
    for c in "abcde".chars() {
        buffer.apply(EditorEvent::InsertChar(c), viewport);
    }
    assert_eq!(buffer.caret, Position::new(5, 0));
    assert_eq!(buffer.scroll_offset, Position::new(0, 0));
    check_invariants(&buffer, viewport);
    buffer.apply(EditorEvent::InsertChar('f'), viewport);
    assert_eq!(buffer.caret, Position::new(6, 0));
    assert_eq!(buffer.scroll_offset, Position::new(1, 0));
    check_invariants(&buffer, viewport);
    buffer.apply(EditorEvent::MoveCaret(CaretDirection::Left), viewport);
    assert_eq!(buffer.caret, Position::new(5, 0));
    assert_eq!(buffer.scroll_offset, Position::new(1, 0));
    check_invariants(&buffer, viewport);
    buffer.apply(EditorEvent::Home, viewport);
    assert_eq!(buffer.scroll_offset, Position::new(0, 0));
    check_invariants(&buffer, viewport);
}

#[test]
fn resize_brings_a_stray_caret_back() {
    let mut buffer = buffer_of(&["abc", "de"]);
    buffer.caret = Position::new(40, 7);
    buffer.scroll_offset = Position::new(90, 90);
    buffer.apply(EditorEvent::Resize(Size::new(1, 1)), VIEWPORT);
    assert_eq!(lines_of(&buffer), vec!["abc", "de"]);
    assert_eq!(buffer.caret, Position::new(2, 1));
    assert_eq!(buffer.scroll_offset, Position::new(2, 1));
    check_invariants(&buffer, VIEWPORT);
    let before = buffer.duplicate();
    buffer.validate_scroll(VIEWPORT);
    assert_eq!(buffer, before);
}

#[test]
fn every_event_keeps_the_invariants() {
    let events = vec![
        EditorEvent::InsertChar('x'),
        EditorEvent::InsertString("e\u{301}\u{1F440}".to_string()),
        EditorEvent::InsertNewLine,
        EditorEvent::Delete,
        EditorEvent::Backspace,
        EditorEvent::Home,
        EditorEvent::End,
        EditorEvent::PageDown,
        EditorEvent::PageUp,
        EditorEvent::MoveCaret(CaretDirection::Up),
        EditorEvent::MoveCaret(CaretDirection::Down),
        EditorEvent::MoveCaret(CaretDirection::Left),
        EditorEvent::MoveCaret(CaretDirection::Right),
        EditorEvent::Resize(Size::new(4, 4)),
    ];
    let viewport = Size::new(4, 2);
    let mut buffer = buffer_of(&["first line", "", "third"]);
    for round in 0..6usize {
        for (i, event) in events.iter().enumerate() {
            if (i + round) % 3 == 0 {
                buffer.apply(EditorEvent::MoveCaret(CaretDirection::Down), viewport);
            }
            buffer.apply(event.clone(), viewport);
            check_invariants(&buffer, viewport);
        }
    }
}

#[test]
fn input_events_become_editor_events() {
    let plain = |key| InputEvent::Keyboard(KeyPress::Plain { key });
    assert_eq!(
        EditorEvent::try_from_input_event(&plain(Key::Character('a')), true),
        Some(EditorEvent::InsertChar('a'))
    );
    assert_eq!(
        EditorEvent::try_from_input_event(&plain(Key::SpecialKey(SpecialKey::Enter)), true),
        Some(EditorEvent::InsertNewLine)
    );
    assert_eq!(
        EditorEvent::try_from_input_event(&plain(Key::SpecialKey(SpecialKey::Enter)), false),
        None
    );
    assert_eq!(
        EditorEvent::try_from_input_event(&plain(Key::SpecialKey(SpecialKey::Delete)), false),
        Some(EditorEvent::Delete)
    );
    assert_eq!(
        EditorEvent::try_from_input_event(&plain(Key::SpecialKey(SpecialKey::Backspace)), true),
        Some(EditorEvent::Backspace)
    );
    assert_eq!(
        EditorEvent::try_from_input_event(&plain(Key::SpecialKey(SpecialKey::Home)), true),
        Some(EditorEvent::Home)
    );
    assert_eq!(
        EditorEvent::try_from_input_event(&plain(Key::SpecialKey(SpecialKey::End)), true),
        Some(EditorEvent::End)
    );
    assert_eq!(
        EditorEvent::try_from_input_event(&plain(Key::SpecialKey(SpecialKey::PageUp)), true),
        Some(EditorEvent::PageUp)
    );
    assert_eq!(
        EditorEvent::try_from_input_event(&plain(Key::SpecialKey(SpecialKey::PageDown)), true),
        Some(EditorEvent::PageDown)
    );
    assert_eq!(
        EditorEvent::try_from_input_event(&plain(Key::SpecialKey(SpecialKey::Up)), true),
        Some(EditorEvent::MoveCaret(CaretDirection::Up))
    );
    assert_eq!(
        EditorEvent::try_from_input_event(&plain(Key::SpecialKey(SpecialKey::Down)), true),
        Some(EditorEvent::MoveCaret(CaretDirection::Down))
    );
    assert_eq!(
        EditorEvent::try_from_input_event(&plain(Key::SpecialKey(SpecialKey::Left)), true),
        Some(EditorEvent::MoveCaret(CaretDirection::Left))
    );
    assert_eq!(
        EditorEvent::try_from_input_event(&plain(Key::SpecialKey(SpecialKey::Right)), true),
        Some(EditorEvent::MoveCaret(CaretDirection::Right))
    );
    assert_eq!(
        EditorEvent::try_from_input_event(&InputEvent::Resize(Size::new(3, 4)), true),
        Some(EditorEvent::Resize(Size::new(3, 4)))
    );
    assert_eq!(
        EditorEvent::try_from_input_event(&plain(Key::SpecialKey(SpecialKey::Esc)), true),
        None
    );
    assert_eq!(
        EditorEvent::try_from_input_event(&plain(Key::FunctionKey(FunctionKey::F1)), true),
        None
    );
    let with_ctrl = InputEvent::Keyboard(KeyPress::WithModifiers {
        key: Key::Character('a'),
        mask: ModifierKeysMask { shift: false, ctrl: true, alt: false },
    });
    assert_eq!(EditorEvent::try_from_input_event(&with_ctrl, true), None);
    let mouse = InputEvent::Mouse(MouseInput {
        pos: Position::new(1, 1),
        kind: MouseInputKind::MouseDown,
    });
    assert_eq!(EditorEvent::try_from_input_event(&mouse, true), None);
    assert_eq!(
        EditorEvent::try_from_input_event(&InputEvent::Focus(FocusEvent::Gained), true),
        None
    );
}
