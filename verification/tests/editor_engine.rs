use tui_editor::{
    get_syntax_set, try_get_syntax_ref, try_get_syntax_ref_from,
    try_get_syntect_highlighted_line, CaretKind, RenderOps, ShippedSyntaxSet, UnicodeString, ANSIBasicColor, ComponentRegistry,
    EditorBuffer, EditorEngine, EditorEngineApplyResponse, EditorEngineArgs,
    EditorEngineConfigOptions, FlexBox, FlexBoxId, HasFocus, InputEvent, Key, KeyPress,
    PartialFlexBox, Position, RenderArgs, RenderOp, RenderPipeline, Size, SpecialKey, Style,
    TuiColor, ZOrder,
};

const ORIGIN: Position = Position { col_index: 2, row_index: 3 };
const BOX_ID: FlexBoxId = FlexBoxId(1);

fn buffer_of(extension: &str, lines: &[&str]) -> EditorBuffer {
    let mut buffer = EditorBuffer::new_empty(extension);
    buffer.set_lines(&lines.iter().map(|l| l.to_string()).collect());
    buffer
}

fn flex_box(size: Size, style: Option<Style>) -> FlexBox {
    FlexBox {
        id: BOX_ID,
        style_adjusted_origin_pos: ORIGIN,
        style_adjusted_bounds_size: size,
        maybe_computed_style: style,
        ..FlexBox::default()
    }
}

fn registry(focused: bool) -> ComponentRegistry {
    ComponentRegistry {
        has_focus: HasFocus { maybe_id: if focused { Some(BOX_ID) } else { None } },
    }
}

fn engine(syntax_highlight: bool) -> EditorEngine {
    EditorEngine::new(EditorEngineConfigOptions { multiline: true, syntax_highlight })
}

fn render(
    engine: &mut EditorEngine,
    buffer: &EditorBuffer,
    focused: bool,
    current_box: &FlexBox,
) -> RenderPipeline {
    let registry = registry(focused);
    let args = EditorEngineArgs {
        editor_buffer: buffer,
        editor_engine: engine,
        component_registry: &registry,
        shared_global_data: &(),
        self_id: BOX_ID,
    };
    EditorEngine::render_engine(args, current_box)
}

fn normal_ops(pipeline: &RenderPipeline) -> Vec<RenderOp> {
    assert!(pipeline.get_all_at(ZOrder::Deferred).is_empty());
    assert!(pipeline.get_all_at(ZOrder::Glass).is_empty());
    assert!(pipeline.get_all_at(ZOrder::Caret).is_empty());
    pipeline.get_all_at(ZOrder::Normal).iter().flat_map(|ops| ops.list.clone()).collect()
}

fn print(text: &str, style: Option<Style>) -> RenderOp {
    RenderOp::PrintTextWithAttributes(text.to_string(), style)
}

fn move_to(col: u32, row: u32) -> RenderOp {
    RenderOp::MoveCursorPositionRelTo(ORIGIN, Position::new(col, row))
}

#[test]
fn new_engine_has_painted_nothing_yet() {
    let engine = EditorEngine::new(EditorEngineConfigOptions::default());
    assert_eq!(
        engine.config_options,
        EditorEngineConfigOptions { multiline: true, syntax_highlight: true }
    );
    assert_eq!(engine.current_box, PartialFlexBox::default());
    assert_eq!(engine.viewport_width(), 0);
    assert_eq!(engine.viewport_height(), 0);
    assert_eq!(EditorEngine::default().config_options, EditorEngineConfigOptions::default());
}

#[test]
fn plain_text_line() {
    let buffer = buffer_of("no_such_extension", &["hello"]);
    let mut engine = engine(true);
    let pipeline = render(&mut engine, &buffer, false, &flex_box(Size::new(10, 2), None));
    assert_eq!(pipeline.get_all_at(ZOrder::Normal).len(), 1);
    assert_eq!(
        normal_ops(&pipeline),
        vec![move_to(0, 0), RenderOp::ApplyColors(None), print("hello", None), RenderOp::ResetColor]
    );
    assert_eq!(engine.viewport_width(), 10);
    assert_eq!(engine.viewport_height(), 2);
    assert_eq!(engine.current_box.id, BOX_ID);
    assert_eq!(engine.current_box.style_adjusted_origin_pos, ORIGIN);
}

#[test]
fn switched_off_highlighting_paints_plain_lines_in_the_style_of_the_box() {
    let style = Style::fg(TuiColor::Basic(ANSIBasicColor::Green));
    let buffer = buffer_of("rs", &["fn main() {}", "let x = 1;"]);
    let mut engine = engine(false);
    let pipeline = render(&mut engine, &buffer, false, &flex_box(Size::new(6, 5), Some(style)));
    assert_eq!(
        normal_ops(&pipeline),
        vec![
            move_to(0, 0),
            RenderOp::ApplyColors(Some(style)),
            print("fn mai", Some(style)),
            RenderOp::ResetColor,
            move_to(0, 1),
            RenderOp::ApplyColors(Some(style)),
            print("let x ", Some(style)),
            RenderOp::ResetColor,
        ]
    );
}

#[test]
fn horizontal_scroll() {
    let mut buffer = buffer_of("no_such_extension", &["0123456789"]);
    buffer.scroll_offset = Position::new(3, 0);
    buffer.caret = Position::new(3, 0);
    let mut engine = engine(true);
    let pipeline = render(&mut engine, &buffer, false, &flex_box(Size::new(4, 2), None));
    assert_eq!(
        normal_ops(&pipeline),
        vec![move_to(0, 0), RenderOp::ApplyColors(None), print("3456", None), RenderOp::ResetColor]
    );
}

#[test]
fn vertical_scroll_paints_one_row_more_than_the_viewport_has() {
    let mut buffer = buffer_of("no_such_extension", &["a", "b", "c", "d", "e", "f"]);
    buffer.scroll_offset = Position::new(0, 1);
    buffer.caret = Position::new(0, 1);
    let mut engine = engine(true);
    let pipeline = render(&mut engine, &buffer, false, &flex_box(Size::new(4, 2), None));
    let ops = normal_ops(&pipeline);
    let prints: Vec<&RenderOp> =
        ops.iter().filter(|op| matches!(op, RenderOp::PrintTextWithAttributes(_, _))).collect();
    assert_eq!(prints, vec![&print("b", None), &print("c", None), &print("d", None)]);
    let moves: Vec<&RenderOp> =
        ops.iter().filter(|op| matches!(op, RenderOp::MoveCursorPositionRelTo(_, _))).collect();
    assert_eq!(moves, vec![&move_to(0, 0), &move_to(0, 1), &move_to(0, 2)]);

    buffer.scroll_offset = Position::new(0, 9);
    let nothing = render(&mut engine, &buffer, false, &flex_box(Size::new(4, 2), None));
    assert_eq!(normal_ops(&nothing), vec![]);
}

#[test]
fn focused_editor_paints_the_caret_behind_the_content() {
    let mut buffer = buffer_of("no_such_extension", &["hello", "world"]);
    buffer.caret = Position::new(4, 1);
    buffer.scroll_offset = Position::new(1, 0);
    let mut engine = engine(true);
    let pipeline = render(&mut engine, &buffer, true, &flex_box(Size::new(10, 5), None));
    let ops = normal_ops(&pipeline);
    assert_eq!(ops.len(), 12);
    assert_eq!(
        ops[8..].to_vec(),
        vec![
            move_to(3, 1),
            print("d", Some(Style::reverse())),
            move_to(3, 1),
            RenderOp::ResetColor,
        ]
    );
    assert!(Style::reverse().reverse);

    buffer.caret = Position::new(5, 1);
    let at_end = render(&mut engine, &buffer, true, &flex_box(Size::new(10, 5), None));
    let ops = normal_ops(&at_end);
    assert_eq!(ops[9], print("\u{2592}", Some(Style::reverse())));
    let caret_part = &ops[8..];
    assert_eq!(
        caret_part
            .iter()
            .filter(|op| matches!(op, RenderOp::MoveCursorPositionRelTo(_, _)))
            .count(),
        2
    );
    assert_eq!(
        caret_part
            .iter()
            .filter(|op| matches!(op, RenderOp::PrintTextWithAttributes(_, _)))
            .count(),
        1
    );
}

#[test]
fn empty_buffer_focused() {
    let buffer = EditorBuffer::new_empty("md");
    let mut engine = engine(true);
    let pipeline = render(&mut engine, &buffer, true, &flex_box(Size::new(20, 4), None));
    let red = Style::fg(TuiColor::Basic(ANSIBasicColor::Red));
    assert_eq!(pipeline.get_all_at(ZOrder::Normal).len(), 2);
    assert_eq!(
        normal_ops(&pipeline),
        vec![
            move_to(0, 0),
            RenderOp::ApplyColors(Some(red)),
            print("No content added", None),
            RenderOp::ResetColor,
            move_to(0, 1),
            print("\u{1F440}", None),
            RenderOp::ResetColor,
        ]
    );
    let flat = render(&mut engine, &buffer, true, &flex_box(Size::new(20, 0), None));
    assert_eq!(normal_ops(&flat)[4], move_to(0, 0));
}

#[test]
fn empty_buffer_unfocused() {
    let buffer = buffer_of("md", &[""]);
    let mut engine = engine(true);
    let pipeline = render(&mut engine, &buffer, false, &flex_box(Size::new(20, 4), None));
    let red = Style::fg(TuiColor::Basic(ANSIBasicColor::Red));
    assert_eq!(
        normal_ops(&pipeline),
        vec![
            move_to(0, 0),
            RenderOp::ApplyColors(Some(red)),
            print("No content added", None),
            RenderOp::ResetColor,
        ]
    );
    let registry = registry(false);
    let render_args =
        RenderArgs { editor_buffer: &buffer, component_registry: &registry, editor_engine: &engine };
    assert_eq!(EditorEngine::render_empty_state(&render_args), pipeline);
}

#[test]
fn highlighting_cuts_the_line_into_styled_pieces() {
    let line = "fn main() { let x = 1; }";
    let buffer = buffer_of("rs", &[line]);
    let engine = engine(true);
    assert!(try_get_syntax_ref(get_syntax_set(&engine), "rs").is_some());
    assert!(try_get_syntax_ref(get_syntax_set(&engine), "no_such_extension").is_none());
    let pieces = try_get_syntect_highlighted_line(true, &engine, &buffer, line).unwrap();
    assert!(pieces.len() > 1);
    let joined: String = pieces.iter().map(|(_, text)| text.as_str()).collect();
    assert_eq!(joined, line);
    assert_eq!(try_get_syntect_highlighted_line(false, &engine, &buffer, line), None);
    let unknown = buffer_of("no_such_extension", &[line]);
    assert_eq!(try_get_syntect_highlighted_line(true, &engine, &unknown, line), None);
}

#[test]
fn highlighted_line_is_painted_span_by_span_inside_the_viewport() {
    let line = "fn main() { let x = 1; }";
    let mut buffer = buffer_of("rs", &[line]);
    buffer.scroll_offset = Position::new(3, 0);
    buffer.caret = Position::new(3, 0);
    let mut engine = engine(true);
    let pipeline = render(&mut engine, &buffer, false, &flex_box(Size::new(9, 2), None));
    let ops = normal_ops(&pipeline);
    assert_eq!(ops[0], move_to(0, 0));
    assert_eq!(ops[ops.len() - 1], RenderOp::ResetColor);
    let mut painted = String::new();
    let mut spans = 0;
    for triple in ops[1..ops.len() - 1].chunks(3) {
        assert_eq!(triple.len(), 3);
        let style = match &triple[0] {
            RenderOp::ApplyColors(Some(style)) => *style,
            other => panic!("expected colors, found {:?}", other),
        };
        assert!(matches!(style.color_fg, Some(TuiColor::Rgb { .. })));
        assert!(matches!(style.color_bg, Some(TuiColor::Rgb { .. })));
        match &triple[1] {
            RenderOp::PrintTextWithAttributes(text, Some(print_style)) => {
                assert_eq!(*print_style, style);
                assert!(!text.is_empty());
                painted.push_str(text);
            }
            other => panic!("expected a print, found {:?}", other),
        }
        assert_eq!(triple[2], RenderOp::ResetColor);
        spans += 1;
    }
    assert!(spans > 1);
    assert_eq!(painted, &line[3..12]);
}

#[test]
fn style_of_highlighter_style() {
    let style = tui_editor::style_of(tui_editor::HighlightStyle {
        foreground: tui_editor::RgbaColor { r: 1, g: 2, b: 3, a: 255 },
        background: tui_editor::RgbaColor { r: 4, g: 5, b: 6, a: 255 },
        font_style_bits: 5,
    });
    assert_eq!(style.color_fg, Some(TuiColor::Rgb { red: 1, green: 2, blue: 3 }));
    assert_eq!(style.color_bg, Some(TuiColor::Rgb { red: 4, green: 5, blue: 6 }));
    assert!(style.bold);
    assert!(style.italic);
    assert!(!style.underline);
    let underlined = tui_editor::style_of(tui_editor::HighlightStyle {
        foreground: tui_editor::RgbaColor { r: 0, g: 0, b: 0, a: 0 },
        background: tui_editor::RgbaColor { r: 0, g: 0, b: 0, a: 0 },
        font_style_bits: 2,
    });
    assert!(underlined.underline && !underlined.bold && !underlined.italic);
}

fn apply(
    engine: &mut EditorEngine,
    buffer: &EditorBuffer,
    input_event: &InputEvent,
) -> EditorEngineApplyResponse<EditorBuffer> {
    let registry = registry(true);
    let args = EditorEngineArgs {
        editor_buffer: buffer,
        editor_engine: engine,
        component_registry: &registry,
        shared_global_data: &(),
        self_id: BOX_ID,
    };
    EditorEngine::apply_event(args, input_event)
}

#[test]
fn apply_event_with_unrecognized_input() {
    let buffer = buffer_of("md", &["hello"]);
    let before = buffer.clone();
    let mut engine = engine(true);
    let esc = InputEvent::Keyboard(KeyPress::Plain { key: Key::SpecialKey(SpecialKey::Esc) });
    assert_eq!(apply(&mut engine, &buffer, &esc), EditorEngineApplyResponse::NotApplied);
    assert_eq!(buffer, before);
}

#[test]
fn apply_event_returns_a_changed_copy() {
    let mut buffer = buffer_of("md", &["hello"]);
    buffer.caret = Position::new(5, 0);
    let before = buffer.clone();
    let mut engine = engine(true);
    render(&mut engine, &buffer, true, &flex_box(Size::new(10, 2), None));
    let key = InputEvent::Keyboard(KeyPress::Plain { key: Key::Character('!') });
    match apply(&mut engine, &buffer, &key) {
        EditorEngineApplyResponse::Applied(new_buffer) => {
            assert_eq!(new_buffer.get_lines()[0].as_str(), "hello!");
            assert_eq!(new_buffer.caret, Position::new(6, 0));
            assert_eq!(new_buffer.scroll_offset, Position::new(0, 0));
            assert_eq!(new_buffer.get_file_extension(), "md");
        }
        EditorEngineApplyResponse::NotApplied => panic!("the event was not applied"),
    }
    assert_eq!(buffer, before);
    let enter = InputEvent::Keyboard(KeyPress::Plain { key: Key::SpecialKey(SpecialKey::Enter) });
    match apply(&mut engine, &buffer, &enter) {
        EditorEngineApplyResponse::Applied(new_buffer) => {
            assert_eq!(new_buffer.get_lines().len(), 2);
            assert_eq!(new_buffer.caret, Position::new(0, 1));
        }
        EditorEngineApplyResponse::NotApplied => panic!("the event was not applied"),
    }
}

#[test]
fn single_line_editor_rejects_enter() {
    let buffer = buffer_of("md", &["hello"]);
    let mut engine =
        EditorEngine::new(EditorEngineConfigOptions { multiline: false, syntax_highlight: true });
    let enter = InputEvent::Keyboard(KeyPress::Plain { key: Key::SpecialKey(SpecialKey::Enter) });
    assert_eq!(apply(&mut engine, &buffer, &enter), EditorEngineApplyResponse::NotApplied);
    let key = InputEvent::Keyboard(KeyPress::Plain { key: Key::Character('a') });
    assert!(matches!(apply(&mut engine, &buffer, &key), EditorEngineApplyResponse::Applied(_)));
}

#[test]
fn prints_are_bounded_by_rows_and_spans_per_line() {
    let lines = ["fn a() {}", "let b = 2;", "// c", "struct D;", "mod e;"];
    let buffer = buffer_of("rs", &lines);
    let mut engine = engine(true);
    for rows in 0..7u32 {
        let pipeline = render(&mut engine, &buffer, false, &flex_box(Size::new(80, rows), None));
        let ops = normal_ops(&pipeline);
        let prints =
            ops.iter().filter(|op| matches!(op, RenderOp::PrintTextWithAttributes(_, _))).count();
        let painted_rows = lines.len().min(rows as usize + 1);
        let most_spans = lines
            .iter()
            .map(|line| {
                try_get_syntect_highlighted_line(true, &engine, &buffer, line).unwrap().len()
            })
            .max()
            .unwrap();
        assert!(prints <= painted_rows * most_spans);
        assert!(prints >= painted_rows);
        if lines.len() <= rows as usize {
            assert!(prints <= rows as usize * most_spans);
        }
        let moves = ops
            .iter()
            .filter(|op| matches!(op, RenderOp::MoveCursorPositionRelTo(_, _)))
            .count();
        assert_eq!(moves, painted_rows);
    }
}

#[test]
fn clone_of_an_engine_keeps_box_and_options() {
    let buffer = buffer_of("rs", &["fn main() {}"]);
    let mut first = engine(false);
    render(&mut first, &buffer, false, &flex_box(Size::new(7, 3), None));
    let second = first.clone();
    assert_eq!(second.current_box, first.current_box);
    assert_eq!(second.config_options, first.config_options);
    assert_eq!(second.theme, first.theme);
    assert_eq!(
        try_get_syntect_highlighted_line(true, &second, &buffer, "fn main() {}"),
        try_get_syntect_highlighted_line(true, &first, &buffer, "fn main() {}")
    );
}

#[test]
fn a_syntax_is_found_whatever_the_case_of_the_extension() {
    let engine = engine(true);
    for extension in ["rs", "RS", "Rs", "md", "MD"] {
        assert!(try_get_syntax_ref(get_syntax_set(&engine), extension).is_some());
        let buffer = buffer_of(extension, &["x"]);
        assert!(try_get_syntax_ref_from(&engine, &buffer).is_some());
        assert!(try_get_syntect_highlighted_line(true, &engine, &buffer, "x").is_some());
    }
    for extension in ["rs ", ".rs", "no_such_extension", "r\u{17f}"] {
        assert!(try_get_syntax_ref(get_syntax_set(&engine), extension).is_none());
        let buffer = buffer_of(extension, &["x"]);
        assert!(try_get_syntax_ref_from(&engine, &buffer).is_none());
        assert_eq!(try_get_syntect_highlighted_line(true, &engine, &buffer, "x"), None);
    }
    assert_eq!(
        try_get_syntax_ref(get_syntax_set(&engine), "RS").map(|syntax| syntax.name.as_str()),
        try_get_syntax_ref(get_syntax_set(&engine), "rs").map(|syntax| syntax.name.as_str())
    );
}

#[test]
fn caret_is_two_moves_around_one_reversed_print() {
    let mut buffer = buffer_of("md", &["hello", "world"]);
    buffer.caret = Position::new(2, 1);
    buffer.scroll_offset = Position::new(1, 1);
    let mut engine = engine(true);
    engine.current_box = PartialFlexBox::from(&flex_box(Size::new(10, 5), None));
    let focused = registry(true);
    let render_args =
        RenderArgs { editor_buffer: &buffer, component_registry: &focused, editor_engine: &engine };
    let mut ops = RenderOps::new();
    EditorEngine::render_caret(&render_args, &mut ops);
    let raw = buffer.get_caret(CaretKind::Raw);
    assert_eq!(raw, Position::new(1, 0));
    assert_eq!(
        ops.list,
        vec![
            RenderOp::MoveCursorPositionRelTo(ORIGIN, raw),
            print("r", Some(Style::reverse())),
            RenderOp::MoveCursorPositionRelTo(ORIGIN, raw),
            RenderOp::ResetColor,
        ]
    );
    let unfocused = registry(false);
    let render_args = RenderArgs {
        editor_buffer: &buffer,
        component_registry: &unfocused,
        editor_engine: &engine,
    };
    let mut none = RenderOps::new();
    EditorEngine::render_caret(&render_args, &mut none);
    assert_eq!(none.len(), 0);
}

#[test]
fn a_single_line_is_plain_without_a_syntax_and_as_wide_as_asked() {
    let line = UnicodeString::new("let x = 1;");
    let mut engine = engine(true);
    engine.current_box = PartialFlexBox::from(&flex_box(Size::new(80, 5), None));
    let plain_row = |row: u32, text: &str| {
        vec![move_to(0, row), RenderOp::ApplyColors(None), print(text, None), RenderOp::ResetColor]
    };
    // Highlighting is switched off.
    let known = buffer_of("rs", &["let x = 1;"]);
    let mut ops = RenderOps::new();
    EditorEngine::render_single_line(&mut ops, 2, &engine, false, &known, &line, 5);
    assert_eq!(ops.list, plain_row(2, "let x"));
    // No syntax lists the extension.
    let unknown = buffer_of("no_such_extension", &["let x = 1;"]);
    let mut ops = RenderOps::new();
    EditorEngine::render_single_line(&mut ops, 0, &engine, true, &unknown, &line, 3);
    assert_eq!(ops.list, plain_row(0, "let"));
    // A syntax lists the extension: the row is painted span by span.
    let mut ops = RenderOps::new();
    EditorEngine::render_single_line(&mut ops, 1, &engine, true, &known, &line, 80);
    assert_eq!(ops.list[0], move_to(0, 1));
    assert!(ops.len() > 4);
    let painted: String = ops
        .list
        .iter()
        .filter_map(|op| match op {
            RenderOp::PrintTextWithAttributes(text, Some(_)) => Some(text.as_str()),
            _ => None,
        })
        .collect();
    assert_eq!(painted, "let x = 1;");
}

#[test]
fn content_is_painted_row_by_row() {
    let buffer = buffer_of("no_such_extension", &["a", "b"]);
    let mut engine = engine(true);
    engine.current_box = PartialFlexBox::from(&flex_box(Size::new(4, 0), None));
    let registry = registry(false);
    let render_args = RenderArgs {
        editor_buffer: &buffer,
        component_registry: &registry,
        editor_engine: &engine,
    };
    let mut ops = RenderOps::new();
    EditorEngine::render_content(&render_args, &mut ops);
    assert_eq!(
        ops.list,
        vec![move_to(0, 0), RenderOp::ApplyColors(None), print("a", None), RenderOp::ResetColor]
    );
}

#[test]
fn shipped_syntaxes_are_loaded_and_copied_whole() {
    let shipped = ShippedSyntaxSet::load();
    let copy = shipped.clone();
    assert!(shipped.get().syntaxes().len() > 10);
    assert_eq!(copy.get().syntaxes().len(), shipped.get().syntaxes().len());
    assert!(try_get_syntax_ref(copy.get(), "rs").is_some());
}
