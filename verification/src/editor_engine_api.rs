//! What the editor engine does: it applies an event to a copy of the buffer,
//! and it paints the buffer into a box.
use vstd::prelude::*;
use vstd::string::*;
use crate::editor_buffer::{CaretKind, EditorBuffer, EditorBufferView};
use crate::editor_engine::{
    spec_highlight_view, spec_highlighted_line_of, try_get_syntect_highlighted_line, EditorEngine,
    EditorEngineArgs, HighlightStyle, HighlightedLineView, RenderArgs,
};
use syntect::highlighting::Theme;
use syntect::parsing::SyntaxSet;
use crate::editor_event::{spec_editor_event_of, EditorEvent};
use crate::editor_ops::string_of_char;
use crate::input_event::InputEvent;
use crate::layout::{EditorEngineFlexBox, FlexBox, PartialFlexBox};
use crate::render_op::{RenderOp, RenderOpView, RenderOps, RenderPipeline, ZOrder};
use crate::style::{ANSIBasicColor, Style, TuiColor};
use crate::styled_text::{
    spec_clip_spans, spec_spans_wf, spec_styled_ops, List, StyleUSSpan, StyleUSSpanView,
};
use crate::unicode_string::{spec_segmented, UnicodeString, UnicodeStringView};
use crate::units::{spec_min, spec_sub_or_zero, Position};

verus! {

/// What is painted where the caret stands behind the end of its line.
pub const DEFAULT_CURSOR_CHAR: char = '▒';

/// What is painted where there is no text.
pub const EMPTY_STATE_TEXT: &'static str = "No content added";

/// What is painted below that where the editor holds the focus.
pub const EMPTY_STATE_FOCUS_TEXT: &'static str = "👀";

/// What comes of applying an event.
#[derive(Clone, Debug, PartialEq, Eq)]
pub enum EditorEngineApplyResponse<T> {
    /// The event was applied, and this is the buffer that came of it.
    Applied(T),
    /// The event asks nothing of an editor.
    NotApplied,
}

/// The style that paints as the highlighter asks: its two colors, and bold,
/// underline and italic as the bits of its font style say.
pub open spec fn spec_style_of(style: HighlightStyle) -> Style {
    Style {
        color_fg: Some(
            TuiColor::Rgb {
                red: style.foreground.r,
                green: style.foreground.g,
                blue: style.foreground.b,
            },
        ),
        color_bg: Some(
            TuiColor::Rgb {
                red: style.background.r,
                green: style.background.g,
                blue: style.background.b,
            },
        ),
        bold: style.font_style_bits & 1 != 0,
        underline: style.font_style_bits & 2 != 0,
        italic: style.font_style_bits & 4 != 0,
        ..Style::spec_plain()
    }
}

/// The style that paints as the highlighter asks.
pub fn style_of(style: HighlightStyle) -> (r: Style)
    ensures
        r == spec_style_of(style),
{
    let mut r = Style::plain();
    r.color_fg = Some(
        TuiColor::Rgb {
            red: style.foreground.r,
            green: style.foreground.g,
            blue: style.foreground.b,
        },
    );
    r.color_bg = Some(
        TuiColor::Rgb {
            red: style.background.r,
            green: style.background.g,
            blue: style.background.b,
        },
    );
    r.bold = style.font_style_bits & 1 != 0;
    r.underline = style.font_style_bits & 2 != 0;
    r.italic = style.font_style_bits & 4 != 0;
    r
}

/// The spans that a highlighted line is made of: each piece with the style
/// that paints it and with its text divided into grapheme clusters.
pub open spec fn spec_spans_of_highlight(line: HighlightedLineView) -> Seq<StyleUSSpanView> {
    line.map_values(
        |p: (HighlightStyle, Seq<char>)|
            StyleUSSpanView { style: spec_style_of(p.0), text: spec_segmented(p.1) },
    )
}

/// The spans that a highlighted line is made of.
pub fn from_syntect_to_tui(syntect_highlighted_line: &Vec<(HighlightStyle, String)>) -> (r: List<
    StyleUSSpan,
>)
    ensures
        r.spec_spans() == spec_spans_of_highlight(spec_highlight_view(syntect_highlighted_line@)),
        spec_spans_wf(r.spec_spans()),
{
    let ghost line = spec_highlight_view(syntect_highlighted_line@);
    let mut r: List<StyleUSSpan> = List::with_capacity(syntect_highlighted_line.len());
    let mut i: usize = 0;
    assert(r.spec_spans() =~= spec_spans_of_highlight(line).take(0));
    while i < syntect_highlighted_line.len()
        invariant
            i <= syntect_highlighted_line.len(),
            line == spec_highlight_view(syntect_highlighted_line@),
            line.len() == syntect_highlighted_line.len(),
            r.spec_spans() == spec_spans_of_highlight(line).take(i as int),
            spec_spans_wf(r.spec_spans()),
        decreases syntect_highlighted_line.len() - i,
    {
        let piece = &syntect_highlighted_line[i];
        let span = StyleUSSpan {
            style: style_of(piece.0),
            text: UnicodeString::new(piece.1.as_str()),
        };
        let ghost before = r.spec_spans();
        proof {
            assert(line[i as int] == (piece.0, piece.1@));
        }
        r.push(span);
        proof {
            assert(r.spec_spans() =~= before.push(span@));
            assert(spec_spans_of_highlight(line).take(i as int).push(
                spec_spans_of_highlight(line)[i as int],
            ) =~= spec_spans_of_highlight(line).take(i + 1));
            assert forall|j: int| 0 <= j < r.spec_spans().len() implies (
            #[trigger] r.spec_spans()[j]).text.wf() by {
                if j < before.len() {
                    assert(r.spec_spans()[j] == before[j]);
                }
            }
        }
        i += 1;
    }
    assert(spec_spans_of_highlight(line).take(line.len() as int) =~= spec_spans_of_highlight(
        line,
    ));
    r
}

/// What paints a line that is not highlighted: the colors of the box, and
/// the part of the line that the viewport shows, with the attributes of the
/// box.
pub open spec fn spec_plain_line_ops(
    line: UnicodeStringView,
    scroll_col: u32,
    max_cols: u32,
    style: Option<Style>,
) -> Seq<RenderOpView> {
    seq![
        RenderOpView::ApplyColors(style),
        RenderOpView::PrintTextWithAttributes(
            line.clip(scroll_col as int, max_cols as int).string,
            style,
        ),
    ]
}

/// What paints a highlighted line: for each of its spans, as far as the
/// viewport shows it, its colors, its text with its attributes, and a reset.
pub open spec fn spec_highlighted_line_ops(
    line: HighlightedLineView,
    scroll_col: u32,
    max_cols: u32,
) -> Seq<RenderOpView> {
    spec_styled_ops(
        spec_clip_spans(spec_spans_of_highlight(line), 0, scroll_col as int, max_cols as int),
    )
}

/// What paints one row of the viewport: the cursor moves to the start of the
/// row, the line is painted as far as a window of `max_cols` columns shows
/// it, highlighted where `highlighted` holds its pieces and plain where it
/// holds nothing, and the colors are reset.
pub open spec fn spec_line_ops(
    current_box: EditorEngineFlexBox,
    row_index: u32,
    line: UnicodeStringView,
    highlighted: Option<HighlightedLineView>,
    scroll_col: u32,
    max_cols: u32,
) -> Seq<RenderOpView> {
    seq![
        RenderOpView::MoveCursorPositionRelTo(
            current_box.style_adjusted_origin_pos,
            Position { col_index: 0, row_index },
        ),
    ] + match highlighted {
        Some(pieces) => spec_highlighted_line_ops(pieces, scroll_col, max_cols),
        None => spec_plain_line_ops(line, scroll_col, max_cols, current_box.maybe_computed_style),
    } + seq![RenderOpView::ResetColor]
}

/// How many lines are painted: those from the scroll offset on, but no more
/// than one more than the viewport has rows.
pub open spec fn spec_rendered_rows(line_count: int, scroll_row: int, max_rows: int) -> int {
    spec_min(spec_sub_or_zero(line_count, scroll_row), max_rows + 1)
}

/// What paints the first `rows` rows of the viewport, each with the line
/// that the scroll offset brings to it and as wide as the box.
pub open spec fn spec_content_ops(
    buffer: EditorBufferView,
    current_box: EditorEngineFlexBox,
    highlights: Seq<Option<HighlightedLineView>>,
    rows: int,
) -> Seq<RenderOpView>
    decreases rows,
{
    if rows <= 0 {
        Seq::empty()
    } else {
        spec_content_ops(buffer, current_box, highlights, rows - 1) + spec_line_ops(
            current_box,
            (rows - 1) as u32,
            buffer.lines[buffer.scroll_offset.row_index + rows - 1],
            highlights[rows - 1],
            buffer.scroll_offset.col_index,
            current_box.style_adjusted_bounds_size.col_count,
        )
    }
}

/// What each of the first `rows` rows of the viewport is painted from: for
/// each the pieces that the highlighter makes of the line that the scroll
/// offset brings to it, or nothing where that line is painted plain.
pub open spec fn spec_row_highlights(
    syntax_highlight_enabled: bool,
    syntax_set: SyntaxSet,
    theme: Theme,
    buffer: EditorBufferView,
    rows: int,
) -> Seq<Option<HighlightedLineView>> {
    Seq::new(
        rows as nat,
        |i: int|
            spec_highlighted_line_of(
                syntax_highlight_enabled,
                syntax_set,
                theme,
                buffer.file_extension,
                buffer.lines[buffer.scroll_offset.row_index + i].string,
            ),
    )
}

/// What stands under the caret, or the stand-in for it where the caret is
/// behind the end of its line.
pub open spec fn spec_text_at_caret(buffer: EditorBufferView) -> Seq<char> {
    match buffer.string_at_caret() {
        Some((segment, _, _)) => segment,
        None => seq![DEFAULT_CURSOR_CHAR],
    }
}

/// What paints the caret: the cursor moves to the caret, what stands under
/// it is painted with foreground and background swapped, the cursor moves
/// back to the caret, and the colors are reset.
pub open spec fn spec_caret_ops(buffer: EditorBufferView, current_box: EditorEngineFlexBox) -> Seq<
    RenderOpView,
> {
    seq![
        RenderOpView::MoveCursorPositionRelTo(
            current_box.style_adjusted_origin_pos,
            buffer.caret_raw(),
        ),
        RenderOpView::PrintTextWithAttributes(
            spec_text_at_caret(buffer),
            Some(Style::spec_reverse()),
        ),
        RenderOpView::MoveCursorPositionRelTo(
            current_box.style_adjusted_origin_pos,
            buffer.caret_raw(),
        ),
        RenderOpView::ResetColor,
    ]
}

/// What tells that there is no text: the words, in red, at the top left cell
/// of the box.
pub open spec fn spec_empty_state_text_ops(current_box: EditorEngineFlexBox) -> Seq<RenderOpView> {
    seq![
        RenderOpView::MoveCursorPositionRelTo(
            current_box.style_adjusted_origin_pos,
            Position { col_index: 0, row_index: 0 },
        ),
        RenderOpView::ApplyColors(Some(Style::spec_fg(TuiColor::Basic(ANSIBasicColor::Red)))),
        RenderOpView::PrintTextWithAttributes(EMPTY_STATE_TEXT@, None),
        RenderOpView::ResetColor,
    ]
}

/// What shows that the empty editor holds the focus: the eyes, one row
/// below the words, but no lower than the box is high.
pub open spec fn spec_empty_state_focus_ops(current_box: EditorEngineFlexBox) -> Seq<RenderOpView> {
    seq![
        RenderOpView::MoveCursorPositionRelTo(
            current_box.style_adjusted_origin_pos,
            (Position { col_index: 0, row_index: 0 }).spec_add_row_with_bounds(
                1,
                current_box.style_adjusted_bounds_size.row_count,
            ),
        ),
        RenderOpView::PrintTextWithAttributes(EMPTY_STATE_FOCUS_TEXT@, None),
        RenderOpView::ResetColor,
    ]
}

/// The normal layer of the frame of an editor without text.
pub open spec fn spec_empty_state_layer(current_box: EditorEngineFlexBox, focused: bool) -> Seq<
    Seq<RenderOpView>,
> {
    if focused {
        seq![spec_empty_state_text_ops(current_box), spec_empty_state_focus_ops(current_box)]
    } else {
        seq![spec_empty_state_text_ops(current_box)]
    }
}

/// The normal layer of the frame of an editor with text: one list that
/// paints the lines and then, where the editor holds the focus, the caret.
pub open spec fn spec_text_layer(
    buffer: EditorBufferView,
    current_box: EditorEngineFlexBox,
    highlights: Seq<Option<HighlightedLineView>>,
    focused: bool,
) -> Seq<Seq<RenderOpView>> {
    let rows = spec_rendered_rows(
        buffer.lines.len() as int,
        buffer.scroll_offset.row_index as int,
        current_box.style_adjusted_bounds_size.row_count as int,
    );
    seq![
        spec_content_ops(buffer, current_box, highlights, rows) + if focused {
            spec_caret_ops(buffer, current_box)
        } else {
            Seq::empty()
        },
    ]
}

/// Paints a line that was highlighted.
pub fn render_line_with_syntax_highlight(
    syntect_highlighted_line: Vec<(HighlightStyle, String)>,
    editor_buffer: &EditorBuffer,
    max_display_col_count: u32,
    render_ops: &mut RenderOps,
    _editor_engine: &EditorEngine,
)
    ensures
        final(render_ops)@ == old(render_ops)@ + spec_highlighted_line_ops(
            spec_highlight_view(syntect_highlighted_line@),
            editor_buffer@.scroll_offset.col_index,
            max_display_col_count,
        ),
{
    let scroll_offset_col = editor_buffer.get_scroll_offset().col_index;
    let list = from_syntect_to_tui(&syntect_highlighted_line);
    let styled_texts = list.clip(scroll_offset_col, max_display_col_count);
    styled_texts.render_into(render_ops);
}

/// Paints a line that was not highlighted.
pub fn render_line_no_syntax_highlight(
    line: &UnicodeString,
    editor_buffer: &EditorBuffer,
    max_display_col_count: u32,
    render_ops: &mut RenderOps,
    editor_engine: &EditorEngine,
)
    ensures
        final(render_ops)@ == old(render_ops)@ + spec_plain_line_ops(
            line@,
            editor_buffer@.scroll_offset.col_index,
            max_display_col_count,
            editor_engine.current_box.maybe_computed_style,
        ),
{
    let scroll_offset_col_index = editor_buffer.get_scroll_offset().col_index;
    let truncated_line = line.clip(scroll_offset_col_index, max_display_col_count);
    render_ops.push(RenderOp::ApplyColors(editor_engine.current_box.get_computed_style()));
    render_ops.push(
        RenderOp::PrintTextWithAttributes(
            String::from_str(truncated_line.as_str()),
            editor_engine.current_box.get_computed_style(),
        ),
    );
    assert(render_ops@ =~= old(render_ops)@ + spec_plain_line_ops(
        line@,
        editor_buffer@.scroll_offset.col_index,
        max_display_col_count,
        editor_engine.current_box.maybe_computed_style,
    ));
}

impl EditorEngine {
    /// Applies a report of the terminal to a copy of the buffer. Where the
    /// report asks nothing of an editor, nothing is applied. Else the copy
    /// is what the change that the report asks for makes of the buffer, and
    /// in it the caret is on a line and not behind its end, and, where the
    /// box that was painted last has a row and a column, inside the
    /// viewport. The buffer of the caller and the engine stay as they are.
    pub fn apply_event<S>(args: EditorEngineArgs<'_, S>, input_event: &InputEvent) -> (r:
        EditorEngineApplyResponse<EditorBuffer>)
        ensures
            *final(args.editor_engine) == *old(args.editor_engine),
            match spec_editor_event_of(*input_event, old(args.editor_engine).config_options.multiline) {
                None => r is NotApplied,
                Some(event) => {
                    &&& r is Applied
                    &&& r->Applied_0@ == args.editor_buffer@.apply(
                        event,
                        old(args.editor_engine).spec_viewport(),
                    )
                    &&& args.editor_buffer.wf() ==> r->Applied_0.wf()
                    &&& r->Applied_0@.caret_in_text()
                    &&& old(args.editor_engine).spec_viewport().row_count >= 1
                        && old(args.editor_engine).spec_viewport().col_count >= 1
                        ==> r->Applied_0@.caret_in_viewport(old(args.editor_engine).spec_viewport())
                },
            },
    {
        let EditorEngineArgs { editor_buffer, editor_engine, .. } = args;
        match EditorEvent::try_from_input_event(input_event, editor_engine.config_options.multiline) {
            Some(editor_event) => {
                let mut new_editor_buffer = editor_buffer.duplicate();
                EditorEvent::apply_editor_event(editor_engine, &mut new_editor_buffer, editor_event);
                EditorEngineApplyResponse::Applied(new_editor_buffer)
            },
            None => EditorEngineApplyResponse::NotApplied,
        }
    }

    /// Paints the buffer into a box. The engine remembers the box. Where
    /// there is no text, the frame tells so; else its normal layer holds one
    /// list that paints the lines that the viewport shows and then, where
    /// the editor holds the focus, the caret. The other layers are empty.
    /// Each line is painted from the pieces that the highlighter makes of it,
    /// and plain where highlighting is switched off, no syntax of the engine
    /// lists the file extension of the buffer, or the highlighter gives no
    /// pieces that make the whole line.
    pub fn render_engine<S>(args: EditorEngineArgs<'_, S>, current_box: &FlexBox) -> (r:
        RenderPipeline)
        ensures
            final(args.editor_engine).current_box == PartialFlexBox::spec_of(*current_box),
            final(args.editor_engine).config_options == old(args.editor_engine).config_options,
            final(args.editor_engine).syntax_set == old(args.editor_engine).syntax_set,
            final(args.editor_engine).theme == old(args.editor_engine).theme,
            forall|z: ZOrder|
                z != ZOrder::Normal ==> #[trigger] r.spec_layer(z) == Seq::<
                    Seq<RenderOpView>,
                >::empty(),
            args.editor_buffer@.is_empty() ==> r.spec_layer(ZOrder::Normal)
                == spec_empty_state_layer(
                PartialFlexBox::spec_of(*current_box),
                args.component_registry.has_focus.spec_does_id_have_focus(current_box.id),
            ),
            !args.editor_buffer@.is_empty() ==> r.spec_layer(ZOrder::Normal) == spec_text_layer(
                args.editor_buffer@,
                PartialFlexBox::spec_of(*current_box),
                spec_row_highlights(
                    old(args.editor_engine).config_options.syntax_highlight,
                    old(args.editor_engine).syntax_set.spec_set(),
                    old(args.editor_engine).theme,
                    args.editor_buffer@,
                    spec_rendered_rows(
                        args.editor_buffer@.lines.len() as int,
                        args.editor_buffer@.scroll_offset.row_index as int,
                        current_box.style_adjusted_bounds_size.row_count as int,
                    ),
                ),
                args.component_registry.has_focus.spec_does_id_have_focus(current_box.id),
            ),
    {
        let EditorEngineArgs { editor_buffer, component_registry, editor_engine, .. } = args;
        editor_engine.current_box = PartialFlexBox::from(current_box);
        let render_args = RenderArgs {
            editor_buffer,
            component_registry,
            editor_engine: &*editor_engine,
        };
        if editor_buffer.is_empty() {
            EditorEngine::render_empty_state(&render_args)
        } else {
            let mut render_ops = RenderOps::new();
            EditorEngine::render_content(&render_args, &mut render_ops);
            EditorEngine::render_caret(&render_args, &mut render_ops);
            let mut render_pipeline = RenderPipeline::new();
            render_pipeline.push(ZOrder::Normal, render_ops);
            proof {
                let focused = component_registry.has_focus.spec_does_id_have_focus(current_box.id);
                let layer = spec_text_layer(
                    editor_buffer@,
                    PartialFlexBox::spec_of(*current_box),
                    spec_row_highlights(
                        editor_engine.config_options.syntax_highlight,
                        editor_engine.syntax_set.spec_set(),
                        editor_engine.theme,
                        editor_buffer@,
                        spec_rendered_rows(
                            editor_buffer@.lines.len() as int,
                            editor_buffer@.scroll_offset.row_index as int,
                            current_box.style_adjusted_bounds_size.row_count as int,
                        ),
                    ),
                    focused,
                );
                assert(render_ops@ + Seq::<RenderOpView>::empty() =~= render_ops@);
                assert(render_pipeline.spec_layer(ZOrder::Normal) =~= layer);
            }
            render_pipeline
        }
    }

    /// Paints the lines that the viewport shows, one row after the other:
    /// those from the scroll offset on, up to and with the row behind the
    /// last row of the box of the engine.
    pub fn render_content(render_args: &RenderArgs<'_>, render_ops: &mut RenderOps)
        ensures
            final(render_ops)@ == old(render_ops)@ + spec_content_ops(
                render_args.editor_buffer@,
                render_args.editor_engine.current_box,
                spec_row_highlights(
                    render_args.editor_engine.config_options.syntax_highlight,
                    render_args.editor_engine.syntax_set.spec_set(),
                    render_args.editor_engine.theme,
                    render_args.editor_buffer@,
                    spec_rendered_rows(
                        render_args.editor_buffer@.lines.len() as int,
                        render_args.editor_buffer@.scroll_offset.row_index as int,
                        render_args.editor_engine.current_box.style_adjusted_bounds_size.row_count as int,
                    ),
                ),
                spec_rendered_rows(
                    render_args.editor_buffer@.lines.len() as int,
                    render_args.editor_buffer@.scroll_offset.row_index as int,
                    render_args.editor_engine.current_box.style_adjusted_bounds_size.row_count as int,
                ),
            ),
    {
        let editor_buffer = render_args.editor_buffer;
        let editor_engine = render_args.editor_engine;
        let max_display_col_count: u32 = editor_engine.current_box.style_adjusted_bounds_size.col_count;
        let max_display_row_count: u32 = editor_engine.current_box.style_adjusted_bounds_size.row_count;
        let syntax_highlight_enabled = editor_engine.config_options.syntax_highlight;
        let lines = editor_buffer.get_lines();
        let scroll_row: usize = editor_buffer.get_scroll_offset().row_index as usize;
        // The lines from the scroll offset on, up to and with the row behind
        // the last row of the viewport.
        let available: usize = if scroll_row < lines.len() {
            lines.len() - scroll_row
        } else {
            0
        };
        let limit: u64 = max_display_row_count as u64 + 1;
        let rows: u64 = if (available as u64) < limit {
            available as u64
        } else {
            limit
        };
        let ghost highlights = spec_row_highlights(
            syntax_highlight_enabled,
            editor_engine.syntax_set.spec_set(),
            editor_engine.theme,
            editor_buffer@,
            rows as int,
        );
        let mut i: u64 = 0;
        assert(old(render_ops)@ + Seq::<RenderOpView>::empty() =~= old(render_ops)@);
        while i < rows
            invariant
                lines@.len() == editor_buffer@.lines.len(),
                crate::editor_buffer::spec_line_views(lines@) == editor_buffer@.lines,
                scroll_row == editor_buffer@.scroll_offset.row_index,
                max_display_col_count
                    == editor_engine.current_box.style_adjusted_bounds_size.col_count,
                syntax_highlight_enabled == editor_engine.config_options.syntax_highlight,
                rows <= available,
                available == spec_sub_or_zero(lines@.len() as int, scroll_row as int),
                rows <= u32::MAX + 1,
                i <= rows,
                highlights == spec_row_highlights(
                    syntax_highlight_enabled,
                    editor_engine.syntax_set.spec_set(),
                    editor_engine.theme,
                    editor_buffer@,
                    rows as int,
                ),
                render_ops@ == old(render_ops)@ + spec_content_ops(
                    editor_buffer@,
                    editor_engine.current_box,
                    highlights,
                    i as int,
                ),
            decreases rows - i,
        {
            let row_index: u32 = i as u32;
            let offset: usize = i as usize;
            assert(scroll_row + offset < lines.len());
            let line = &lines[scroll_row + offset];
            proof {
                assert(editor_buffer@.lines[scroll_row + offset] == line@);
            }
            EditorEngine::render_single_line(
                render_ops,
                row_index,
                editor_engine,
                syntax_highlight_enabled,
                editor_buffer,
                line,
                max_display_col_count,
            );
            proof {
                let added = spec_line_ops(
                    editor_engine.current_box,
                    row_index,
                    line@,
                    highlights[i as int],
                    editor_buffer@.scroll_offset.col_index,
                    max_display_col_count,
                );
                assert(old(render_ops)@ + spec_content_ops(
                    editor_buffer@,
                    editor_engine.current_box,
                    highlights,
                    i as int,
                ) + added =~= old(render_ops)@ + (spec_content_ops(
                    editor_buffer@,
                    editor_engine.current_box,
                    highlights,
                    i as int,
                ) + added));
            }
            i = i + 1;
        }
    }

    /// Paints one row: moves the cursor to its start, paints the line as far
    /// as a window of `max_display_col_count` columns shows it, and resets
    /// the colors. The line is painted from the pieces that the highlighter
    /// makes of it; it is painted plain where highlighting is switched off,
    /// where no syntax of the engine lists the file extension of the buffer,
    /// and where the highlighter gives no pieces that make the whole line.
    pub fn render_single_line(
        render_ops: &mut RenderOps,
        row_index: u32,
        editor_engine: &EditorEngine,
        syntax_highlight_enabled: bool,
        editor_buffer: &EditorBuffer,
        line: &UnicodeString,
        max_display_col_count: u32,
    )
        ensures
            final(render_ops)@ == old(render_ops)@ + spec_line_ops(
                editor_engine.current_box,
                row_index,
                line@,
                spec_highlighted_line_of(
                    syntax_highlight_enabled,
                    editor_engine.syntax_set.spec_set(),
                    editor_engine.theme,
                    editor_buffer@.file_extension,
                    line@.string,
                ),
                editor_buffer@.scroll_offset.col_index,
                max_display_col_count,
            ),
    {
        render_ops.push(
            RenderOp::MoveCursorPositionRelTo(
                editor_engine.current_box.style_adjusted_origin_pos,
                Position { col_index: 0, row_index },
            ),
        );
        match try_get_syntect_highlighted_line(
            syntax_highlight_enabled,
            editor_engine,
            editor_buffer,
            line.as_str(),
        ) {
            // Where the highlighter has something for the line, paint that.
            Some(syntect_highlighted_line) => {
                render_line_with_syntax_highlight(
                    syntect_highlighted_line,
                    editor_buffer,
                    max_display_col_count,
                    render_ops,
                    editor_engine,
                );
            },
            // Else paint the line as it is.
            None => {
                render_line_no_syntax_highlight(
                    line,
                    editor_buffer,
                    max_display_col_count,
                    render_ops,
                    editor_engine,
                );
            },
        }
        render_ops.push(RenderOp::ResetColor);
        proof {
            assert(render_ops@ =~= old(render_ops)@ + spec_line_ops(
                editor_engine.current_box,
                row_index,
                line@,
                spec_highlighted_line_of(
                    syntax_highlight_enabled,
                    editor_engine.syntax_set.spec_set(),
                    editor_engine.theme,
                    editor_buffer@.file_extension,
                    line@.string,
                ),
                editor_buffer@.scroll_offset.col_index,
                max_display_col_count,
            ));
        }
    }

    /// Paints the caret where the editor holds the focus, and nothing where
    /// it does not.
    pub fn render_caret(render_args: &RenderArgs<'_>, render_ops: &mut RenderOps)
        ensures
            final(render_ops)@ == old(render_ops)@ + if render_args.component_registry.has_focus.spec_does_id_have_focus(
                render_args.editor_engine.current_box.id,
            ) {
                spec_caret_ops(render_args.editor_buffer@, render_args.editor_engine.current_box)
            } else {
                Seq::empty()
            },
    {
        let component_registry = render_args.component_registry;
        let editor_buffer = render_args.editor_buffer;
        let editor_engine = render_args.editor_engine;
        if component_registry.has_focus.does_id_have_focus(editor_engine.current_box.id) {
            let str_at_caret: String = match editor_buffer.string_at_caret() {
                Some(found) => found.segment,
                None => string_of_char(DEFAULT_CURSOR_CHAR),
            };
            render_ops.push(
                RenderOp::MoveCursorPositionRelTo(
                    editor_engine.current_box.style_adjusted_origin_pos,
                    editor_buffer.get_caret(CaretKind::Raw),
                ),
            );
            render_ops.push(
                RenderOp::PrintTextWithAttributes(str_at_caret, Some(Style::reverse())),
            );
            render_ops.push(
                RenderOp::MoveCursorPositionRelTo(
                    editor_engine.current_box.style_adjusted_origin_pos,
                    editor_buffer.get_caret(CaretKind::Raw),
                ),
            );
            render_ops.push(RenderOp::ResetColor);
            assert(render_ops@ =~= old(render_ops)@ + spec_caret_ops(
                editor_buffer@,
                editor_engine.current_box,
            ));
        } else {
            assert(render_ops@ =~= old(render_ops)@ + Seq::<RenderOpView>::empty());
        }
    }

    /// The frame of an editor without text: it tells that there is none,
    /// and shows the eyes below that where the editor holds the focus.
    pub fn render_empty_state(render_args: &RenderArgs<'_>) -> (r: RenderPipeline)
        ensures
            forall|z: ZOrder|
                z != ZOrder::Normal ==> #[trigger] r.spec_layer(z) == Seq::<
                    Seq<RenderOpView>,
                >::empty(),
            r.spec_layer(ZOrder::Normal) == spec_empty_state_layer(
                render_args.editor_engine.current_box,
                render_args.component_registry.has_focus.spec_does_id_have_focus(
                    render_args.editor_engine.current_box.id,
                ),
            ),
    {
        let component_registry = render_args.component_registry;
        let editor_engine = render_args.editor_engine;
        let mut pipeline = RenderPipeline::new();
        let mut content_cursor_pos = Position { col_index: 0, row_index: 0 };

        // Paint the text.
        let mut text_ops = RenderOps::new();
        text_ops.push(
            RenderOp::MoveCursorPositionRelTo(
                editor_engine.current_box.style_adjusted_origin_pos,
                Position { col_index: 0, row_index: 0 },
            ),
        );
        text_ops.push(
            RenderOp::ApplyColors(Some(Style::fg(TuiColor::Basic(ANSIBasicColor::Red)))),
        );
        text_ops.push(RenderOp::PrintTextWithAttributes(String::from_str(EMPTY_STATE_TEXT), None));
        text_ops.push(RenderOp::ResetColor);
        assert(text_ops@ =~= spec_empty_state_text_ops(editor_engine.current_box));
        pipeline.push(ZOrder::Normal, text_ops);

        // Paint the eyes.
        if component_registry.has_focus.does_id_have_focus(editor_engine.current_box.id) {
            let mut focus_ops = RenderOps::new();
            focus_ops.push(
                RenderOp::MoveCursorPositionRelTo(
                    editor_engine.current_box.style_adjusted_origin_pos,
                    content_cursor_pos.add_row_with_bounds(
                        1,
                        editor_engine.current_box.style_adjusted_bounds_size.row_count,
                    ),
                ),
            );
            focus_ops.push(
                RenderOp::PrintTextWithAttributes(String::from_str(EMPTY_STATE_FOCUS_TEXT), None),
            );
            focus_ops.push(RenderOp::ResetColor);
            assert(focus_ops@ =~= spec_empty_state_focus_ops(editor_engine.current_box));
            pipeline.push(ZOrder::Normal, focus_ops);
            assert(pipeline.spec_layer(ZOrder::Normal) =~= spec_empty_state_layer(
                editor_engine.current_box,
                true,
            ));
        } else {
            assert(pipeline.spec_layer(ZOrder::Normal) =~= spec_empty_state_layer(
                editor_engine.current_box,
                false,
            ));
        }
        pipeline
    }
}

impl EditorEvent {
    /// Makes the change that an event asks for in a buffer, for the
    /// viewport of the engine.
    pub fn apply_editor_event(
        editor_engine: &EditorEngine,
        editor_buffer: &mut EditorBuffer,
        editor_event: EditorEvent,
    )
        ensures
            final(editor_buffer)@ == old(editor_buffer)@.apply(
                editor_event@,
                editor_engine.spec_viewport(),
            ),
            old(editor_buffer).wf() ==> final(editor_buffer).wf(),
            final(editor_buffer)@.caret_in_text(),
            editor_engine.spec_viewport().row_count >= 1 && editor_engine.spec_viewport().col_count
                >= 1 ==> final(editor_buffer)@.caret_in_viewport(editor_engine.spec_viewport()),
    {
        editor_buffer.apply(editor_event, editor_engine.current_box.style_adjusted_bounds_size);
    }
}

} // verus!
