//! What holds of every frame that the editor engine paints.
use vstd::prelude::*;
use syntect::highlighting::Theme;
use syntect::parsing::SyntaxSet;
use crate::editor_buffer::EditorBufferView;
use crate::editor_engine::{
    spec_highlighted_line_of, spec_lists_extension, spec_piece_texts, syntax_set_extensions,
    HighlightedLineView,
};
use crate::editor_engine_api::{
    spec_caret_ops, spec_content_ops, spec_highlighted_line_ops, spec_line_ops,
    spec_plain_line_ops, spec_rendered_rows, spec_row_highlights, spec_spans_of_highlight,
};
use crate::layout::EditorEngineFlexBox;
use crate::render_op::RenderOpView;
use crate::style::Style;
use crate::styled_text::{
    lemma_clip_spans_width, spec_clip_spans, spec_display_width, spec_styled_ops, StyleUSSpanView,
};
use crate::unicode_string::UnicodeStringView;

verus! {

/// How many of the operations print a text with attributes.
pub open spec fn spec_count_prints(ops: Seq<RenderOpView>) -> nat
    decreases ops.len(),
{
    if ops.len() == 0 {
        0
    } else {
        spec_count_prints(ops.drop_last()) + if ops.last() is PrintTextWithAttributes {
            1nat
        } else {
            0nat
        }
    }
}

/// How many of the operations move the cursor relative to an origin.
pub open spec fn spec_count_moves(ops: Seq<RenderOpView>) -> nat
    decreases ops.len(),
{
    if ops.len() == 0 {
        0
    } else {
        spec_count_moves(ops.drop_last()) + if ops.last() is MoveCursorPositionRelTo {
            1nat
        } else {
            0nat
        }
    }
}

/// The prints of two lists of operations, one after the other, are the
/// prints of the first and those of the second.
pub proof fn lemma_count_prints_concat(a: Seq<RenderOpView>, b: Seq<RenderOpView>)
    ensures
        spec_count_prints(a + b) == spec_count_prints(a) + spec_count_prints(b),
    decreases b.len(),
{
    if b.len() == 0 {
        assert(a + b =~= a);
    } else {
        lemma_count_prints_concat(a, b.drop_last());
        assert((a + b).drop_last() =~= a + b.drop_last());
        assert((a + b).last() == b.last());
    }
}

/// Painting spans prints once for each span.
pub proof fn lemma_styled_ops_print_once_per_span(spans: Seq<StyleUSSpanView>)
    ensures
        spec_count_prints(spec_styled_ops(spans)) == spans.len(),
    decreases spans.len(),
{
    if spans.len() > 0 {
        let three = seq![
            RenderOpView::ApplyColors(Some(spans[0].style)),
            RenderOpView::PrintTextWithAttributes(spans[0].text.string, Some(spans[0].style)),
            RenderOpView::ResetColor,
        ];
        lemma_styled_ops_print_once_per_span(spans.drop_first());
        lemma_count_prints_concat(three, spec_styled_ops(spans.drop_first()));
        lemma_count_three(three);
    }
}

/// Three operations of which the second alone prints hold one print.
proof fn lemma_count_three(three: Seq<RenderOpView>)
    requires
        three.len() == 3,
        !(three[0] is PrintTextWithAttributes),
        three[1] is PrintTextWithAttributes,
        !(three[2] is PrintTextWithAttributes),
    ensures
        spec_count_prints(three) == 1,
{
    let two = three.drop_last();
    let one = two.drop_last();
    assert(one.drop_last().len() == 0);
    assert(spec_count_prints(one.drop_last()) == 0);
    assert(one.last() == three[0]);
    assert(spec_count_prints(one) == 0);
    assert(two.last() == three[1]);
    assert(spec_count_prints(two) == 1);
    assert(three.last() == three[2]);
}

/// One operation that does not print holds no print.
proof fn lemma_count_one_other(op: RenderOpView)
    requires
        !(op is PrintTextWithAttributes),
    ensures
        spec_count_prints(seq![op]) == 0,
{
    let one = seq![op];
    assert(one.drop_last().len() == 0);
    assert(spec_count_prints(one.drop_last()) == 0);
    assert(one.last() == op);
}

/// The number of spans that a line is painted from before it is cut down to
/// the viewport: the pieces that the highlighter made of it, or one where it
/// made none.
pub open spec fn spec_spans_on_row(highlighted: Option<HighlightedLineView>) -> int {
    match highlighted {
        Some(pieces) => pieces.len() as int,
        None => 1,
    }
}

/// Painting one row prints no more often than the line has spans.
pub proof fn lemma_line_ops_prints(
    current_box: EditorEngineFlexBox,
    row_index: u32,
    line: UnicodeStringView,
    highlighted: Option<HighlightedLineView>,
    scroll_col: u32,
    max_cols: u32,
)
    ensures
        spec_count_prints(
            spec_line_ops(current_box, row_index, line, highlighted, scroll_col, max_cols),
        ) <= spec_spans_on_row(highlighted),
{
    let first = seq![
        RenderOpView::MoveCursorPositionRelTo(
            current_box.style_adjusted_origin_pos,
            crate::units::Position { col_index: 0, row_index },
        ),
    ];
    let last = seq![RenderOpView::ResetColor];
    let middle = match highlighted {
        Some(pieces) => spec_highlighted_line_ops(pieces, scroll_col, max_cols),
        None => spec_plain_line_ops(line, scroll_col, max_cols, current_box.maybe_computed_style),
    };
    lemma_count_one_other(first[0]);
    lemma_count_one_other(last[0]);
    lemma_count_prints_concat(first, middle);
    lemma_count_prints_concat(first + middle, last);
    match highlighted {
        Some(pieces) => {
            let spans = spec_spans_of_highlight(pieces);
            let kept = spec_clip_spans(spans, 0, scroll_col as int, max_cols as int);
            lemma_clip_spans_width(spans, 0, scroll_col as int, max_cols as int);
            lemma_styled_ops_print_once_per_span(kept);
            assert(spans.len() == pieces.len());
            assert(middle == spec_styled_ops(kept));
            assert(spec_line_ops(current_box, row_index, line, highlighted, scroll_col, max_cols)
                == first + middle + last);
            assert(spec_count_prints(first + middle + last) == kept.len());
        },
        None => {
            let two = spec_plain_line_ops(
                line,
                scroll_col,
                max_cols,
                current_box.maybe_computed_style,
            );
            let one = two.drop_last();
            assert(one.drop_last().len() == 0);
            assert(spec_count_prints(one.drop_last()) == 0);
            assert(one.last() == two[0]);
            assert(spec_count_prints(one) == 0);
            assert(two.last() == two[1]);
            assert(spec_count_prints(two) == 1);
            assert(middle == two);
            assert(spec_line_ops(current_box, row_index, line, highlighted, scroll_col, max_cols)
                == first + middle + last);
        },
    }
}

/// Painting the lines prints no more often than rows are painted times the
/// most spans that any of their lines has.
pub proof fn law_content_prints_bounded_by_rows(
    buffer: EditorBufferView,
    current_box: EditorEngineFlexBox,
    highlights: Seq<Option<HighlightedLineView>>,
    rows: int,
    spans_per_line: int,
)
    requires
        0 <= rows <= highlights.len(),
        rows <= u32::MAX + 1,
        forall|i: int| 0 <= i < rows ==> spec_spans_on_row(#[trigger] highlights[i]) <= spans_per_line,
    ensures
        spec_count_prints(spec_content_ops(buffer, current_box, highlights, rows)) <= rows
            * spans_per_line,
    decreases rows,
{
    if rows > 0 {
        law_content_prints_bounded_by_rows(buffer, current_box, highlights, rows - 1, spans_per_line);
        let line_ops = spec_line_ops(
            current_box,
            (rows - 1) as u32,
            buffer.lines[buffer.scroll_offset.row_index + rows - 1],
            highlights[rows - 1],
            buffer.scroll_offset.col_index,
            current_box.style_adjusted_bounds_size.col_count,
        );
        lemma_line_ops_prints(
            current_box,
            (rows - 1) as u32,
            buffer.lines[buffer.scroll_offset.row_index + rows - 1],
            highlights[rows - 1],
            buffer.scroll_offset.col_index,
            current_box.style_adjusted_bounds_size.col_count,
        );
        lemma_count_prints_concat(
            spec_content_ops(buffer, current_box, highlights, rows - 1),
            line_ops,
        );
        assert(rows * spans_per_line == (rows - 1) * spans_per_line + spans_per_line)
            by (nonlinear_arith);
    } else {
        assert(rows * spans_per_line == 0) by (nonlinear_arith)
            requires
                rows == 0,
        ;
    }
}

/// Painting the lines of a buffer prints no more often than the viewport has
/// rows, and one more, times the most spans that any painted line has. Where
/// the buffer has no more lines from the scroll offset on than the viewport
/// has rows, it prints no more often than the viewport has rows times that
/// number of spans.
pub proof fn law_content_prints_bounded_by_viewport(
    buffer: EditorBufferView,
    current_box: EditorEngineFlexBox,
    highlights: Seq<Option<HighlightedLineView>>,
    spans_per_line: int,
)
    requires
        highlights.len() == spec_rendered_rows(
            buffer.lines.len() as int,
            buffer.scroll_offset.row_index as int,
            current_box.style_adjusted_bounds_size.row_count as int,
        ),
        forall|i: int|
            0 <= i < highlights.len() ==> spec_spans_on_row(#[trigger] highlights[i])
                <= spans_per_line,
        0 <= spans_per_line,
    ensures
        spec_count_prints(
            spec_content_ops(buffer, current_box, highlights, highlights.len() as int),
        ) <= (current_box.style_adjusted_bounds_size.row_count + 1) * spans_per_line,
        buffer.lines.len() - buffer.scroll_offset.row_index
            <= current_box.style_adjusted_bounds_size.row_count ==> spec_count_prints(
            spec_content_ops(buffer, current_box, highlights, highlights.len() as int),
        ) <= current_box.style_adjusted_bounds_size.row_count * spans_per_line,
{
    let rows = highlights.len() as int;
    let max_rows = current_box.style_adjusted_bounds_size.row_count as int;
    law_content_prints_bounded_by_rows(buffer, current_box, highlights, rows, spans_per_line);
    assert(rows * spans_per_line <= (max_rows + 1) * spans_per_line) by (nonlinear_arith)
        requires
            rows <= max_rows + 1,
            0 <= spans_per_line,
    ;
    if buffer.lines.len() - buffer.scroll_offset.row_index <= max_rows {
        assert(rows * spans_per_line <= max_rows * spans_per_line) by (nonlinear_arith)
            requires
                rows <= max_rows,
                0 <= spans_per_line,
        ;
    }
}

/// The texts that a row paints, each with the segments it is divided into:
/// the spans of the highlighted line that the viewport shows, or the part of
/// the plain line that it shows.
pub open spec fn spec_painted_texts(
    line: UnicodeStringView,
    highlighted: Option<HighlightedLineView>,
    scroll_col: u32,
    max_cols: u32,
) -> Seq<UnicodeStringView> {
    match highlighted {
        Some(pieces) => spec_clip_spans(
            spec_spans_of_highlight(pieces),
            0,
            scroll_col as int,
            max_cols as int,
        ).map_values(|span: StyleUSSpanView| span.text),
        None => seq![line.clip(scroll_col as int, max_cols as int)],
    }
}

/// The texts of the operations that print, in order.
pub open spec fn spec_print_texts(ops: Seq<RenderOpView>) -> Seq<Seq<char>>
    decreases ops.len(),
{
    if ops.len() == 0 {
        Seq::empty()
    } else {
        spec_print_texts(ops.drop_last()) + match ops.last() {
            RenderOpView::PrintTextWithAttributes(text, _) => seq![text],
            _ => Seq::empty(),
        }
    }
}

/// The columns that texts take together, one for each grapheme cluster.
pub open spec fn spec_total_width(texts: Seq<UnicodeStringView>) -> int
    decreases texts.len(),
{
    if texts.len() == 0 {
        0
    } else {
        texts[0].segments.len() + spec_total_width(texts.drop_first())
    }
}

/// The texts of spans take the columns that the spans take.
proof fn lemma_total_width_of_spans(spans: Seq<StyleUSSpanView>)
    ensures
        spec_total_width(spans.map_values(|span: StyleUSSpanView| span.text))
            == spec_display_width(spans),
    decreases spans.len(),
{
    let texts = spans.map_values(|span: StyleUSSpanView| span.text);
    if spans.len() > 0 {
        lemma_total_width_of_spans(spans.drop_first());
        assert(texts.drop_first() =~= spans.drop_first().map_values(
            |span: StyleUSSpanView| span.text,
        ));
    }
}

/// No text that a row paints is wider than the viewport, and neither are all
/// of them together.
pub proof fn law_painted_texts_fit_viewport(
    line: UnicodeStringView,
    highlighted: Option<HighlightedLineView>,
    scroll_col: u32,
    max_cols: u32,
)
    ensures
        forall|i: int|
            0 <= i < spec_painted_texts(line, highlighted, scroll_col, max_cols).len() ==> (
            #[trigger] spec_painted_texts(line, highlighted, scroll_col, max_cols)[i]).segments.len()
                <= max_cols,
        spec_total_width(spec_painted_texts(line, highlighted, scroll_col, max_cols)) <= max_cols,
{
    match highlighted {
        Some(pieces) => {
            let spans = spec_spans_of_highlight(pieces);
            lemma_clip_spans_width(spans, 0, scroll_col as int, max_cols as int);
            lemma_total_width_of_spans(
                spec_clip_spans(spans, 0, scroll_col as int, max_cols as int),
            );
        },
        None => {
            let texts = spec_painted_texts(line, highlighted, scroll_col, max_cols);
            assert(texts.drop_first().len() == 0);
            assert(spec_total_width(texts.drop_first()) == 0);
        },
    }
}

/// The texts that two lists of operations print, one after the other, are
/// those of the first and those of the second.
pub proof fn lemma_print_texts_concat(a: Seq<RenderOpView>, b: Seq<RenderOpView>)
    ensures
        spec_print_texts(a + b) == spec_print_texts(a) + spec_print_texts(b),
    decreases b.len(),
{
    if b.len() == 0 {
        assert(a + b =~= a);
        assert(spec_print_texts(a) + Seq::<Seq<char>>::empty() =~= spec_print_texts(a));
    } else {
        lemma_print_texts_concat(a, b.drop_last());
        assert((a + b).drop_last() =~= a + b.drop_last());
        assert((a + b).last() == b.last());
        let tail = match b.last() {
            RenderOpView::PrintTextWithAttributes(text, _) => seq![text],
            _ => Seq::<Seq<char>>::empty(),
        };
        assert(spec_print_texts(a) + spec_print_texts(b.drop_last()) + tail =~= spec_print_texts(
            a,
        ) + (spec_print_texts(b.drop_last()) + tail));
    }
}

/// What a short list of operations prints.
proof fn lemma_print_texts_of_few(ops: Seq<RenderOpView>)
    requires
        ops.len() <= 3,
    ensures
        ops.len() == 1 && !(ops[0] is PrintTextWithAttributes) ==> spec_print_texts(ops)
            == Seq::<Seq<char>>::empty(),
        ops.len() == 2 && !(ops[0] is PrintTextWithAttributes) && ops[1]
            is PrintTextWithAttributes ==> spec_print_texts(ops) == seq![
            ops[1]->PrintTextWithAttributes_0,
        ],
        ops.len() == 3 && !(ops[0] is PrintTextWithAttributes) && ops[1]
            is PrintTextWithAttributes && !(ops[2] is PrintTextWithAttributes)
            ==> spec_print_texts(ops) == seq![ops[1]->PrintTextWithAttributes_0],
{
    if ops.len() >= 1 {
        let one = ops.take(1);
        assert(one.drop_last().len() == 0);
        assert(spec_print_texts(one.drop_last()) =~= Seq::<Seq<char>>::empty());
        assert(one.last() == ops[0]);
        if !(ops[0] is PrintTextWithAttributes) {
            assert(spec_print_texts(one) =~= Seq::<Seq<char>>::empty());
        }
        if ops.len() == 1 {
            assert(one =~= ops);
        }
        if ops.len() >= 2 {
            let two = ops.take(2);
            assert(two.drop_last() =~= one);
            assert(two.last() == ops[1]);
            if !(ops[0] is PrintTextWithAttributes) && ops[1] is PrintTextWithAttributes {
                assert(spec_print_texts(two) =~= seq![ops[1]->PrintTextWithAttributes_0]);
            }
            if ops.len() == 2 {
                assert(two =~= ops);
            }
            if ops.len() == 3 {
                assert(ops.drop_last() =~= two);
                assert(ops.last() == ops[2]);
                if !(ops[0] is PrintTextWithAttributes) && ops[1] is PrintTextWithAttributes && !(
                ops[2] is PrintTextWithAttributes) {
                    assert(spec_print_texts(ops) =~= seq![ops[1]->PrintTextWithAttributes_0]);
                }
            }
        }
    }
}

/// Painting spans prints the text of each span, in order.
proof fn lemma_styled_ops_print_texts(spans: Seq<StyleUSSpanView>)
    ensures
        spec_print_texts(spec_styled_ops(spans)) == spans.map_values(
            |span: StyleUSSpanView| span.text.string,
        ),
    decreases spans.len(),
{
    let texts = spans.map_values(|span: StyleUSSpanView| span.text.string);
    if spans.len() == 0 {
        assert(texts =~= Seq::<Seq<char>>::empty());
    } else {
        let three = seq![
            RenderOpView::ApplyColors(Some(spans[0].style)),
            RenderOpView::PrintTextWithAttributes(spans[0].text.string, Some(spans[0].style)),
            RenderOpView::ResetColor,
        ];
        lemma_styled_ops_print_texts(spans.drop_first());
        lemma_print_texts_concat(three, spec_styled_ops(spans.drop_first()));
        lemma_print_texts_of_few(three);
        assert(seq![spans[0].text.string] + spans.drop_first().map_values(
            |span: StyleUSSpanView| span.text.string,
        ) =~= texts);
    }
}

/// What a row prints are the texts that it paints, in order: each print of
/// a row carries a text that is no wider than the viewport.
pub proof fn law_line_prints_painted_texts(
    current_box: EditorEngineFlexBox,
    row_index: u32,
    line: UnicodeStringView,
    highlighted: Option<HighlightedLineView>,
    scroll_col: u32,
    max_cols: u32,
)
    ensures
        spec_print_texts(
            spec_line_ops(current_box, row_index, line, highlighted, scroll_col, max_cols),
        ) == spec_painted_texts(line, highlighted, scroll_col, max_cols).map_values(
            |text: UnicodeStringView| text.string,
        ),
{
    let first = seq![
        RenderOpView::MoveCursorPositionRelTo(
            current_box.style_adjusted_origin_pos,
            crate::units::Position { col_index: 0, row_index },
        ),
    ];
    let last = seq![RenderOpView::ResetColor];
    let middle = match highlighted {
        Some(pieces) => spec_highlighted_line_ops(pieces, scroll_col, max_cols),
        None => spec_plain_line_ops(line, scroll_col, max_cols, current_box.maybe_computed_style),
    };
    let painted = spec_painted_texts(line, highlighted, scroll_col, max_cols).map_values(
        |text: UnicodeStringView| text.string,
    );
    lemma_print_texts_of_few(first);
    lemma_print_texts_of_few(last);
    lemma_print_texts_concat(first, middle);
    lemma_print_texts_concat(first + middle, last);
    match highlighted {
        Some(pieces) => {
            let kept = spec_clip_spans(
                spec_spans_of_highlight(pieces),
                0,
                scroll_col as int,
                max_cols as int,
            );
            lemma_styled_ops_print_texts(kept);
            assert(kept.map_values(|span: StyleUSSpanView| span.text.string) =~= painted);
        },
        None => {
            lemma_print_texts_of_few(middle);
            assert(seq![line.clip(scroll_col as int, max_cols as int).string] =~= painted);
        },
    }
    assert(Seq::<Seq<char>>::empty() + spec_print_texts(middle) + Seq::<Seq<char>>::empty()
        =~= spec_print_texts(middle));
}

/// Painting the caret moves the cursor twice and prints once, and what it
/// prints is painted with foreground and background swapped.
pub proof fn law_caret_ops_shape(buffer: EditorBufferView, current_box: EditorEngineFlexBox)
    ensures
        spec_count_moves(spec_caret_ops(buffer, current_box)) == 2,
        spec_count_prints(spec_caret_ops(buffer, current_box)) == 1,
        spec_caret_ops(buffer, current_box)[1] is PrintTextWithAttributes,
        spec_caret_ops(buffer, current_box)[1]->PrintTextWithAttributes_1 == Some(
            Style::spec_reverse(),
        ),
        Style::spec_reverse().reverse,
{
    let four = spec_caret_ops(buffer, current_box);
    let three = four.drop_last();
    let two = three.drop_last();
    let one = two.drop_last();
    assert(one.drop_last().len() == 0);
    assert(spec_count_moves(one.drop_last()) == 0);
    assert(spec_count_prints(one.drop_last()) == 0);
    assert(one.last() == four[0]);
    assert(two.last() == four[1]);
    assert(three.last() == four[2]);
    assert(four.last() == four[3]);
    assert(spec_count_moves(one) == 1);
    assert(spec_count_prints(one) == 0);
    assert(spec_count_moves(two) == 1);
    assert(spec_count_prints(two) == 1);
    assert(spec_count_moves(three) == 2);
    assert(spec_count_prints(three) == 1);
}

/// Where highlighting is switched off or no syntax lists the file extension
/// of the buffer, every row is painted plain, whatever the highlighter would
/// make of its line: the four operations of a plain row are all that a row
/// holds.
pub proof fn law_rows_are_plain_without_a_syntax(
    syntax_highlight_enabled: bool,
    syntax_set: SyntaxSet,
    theme: Theme,
    buffer: EditorBufferView,
    rows: int,
)
    requires
        0 <= rows,
        !syntax_highlight_enabled || !spec_lists_extension(
            syntax_set_extensions(syntax_set),
            buffer.file_extension,
        ),
    ensures
        spec_row_highlights(syntax_highlight_enabled, syntax_set, theme, buffer, rows) == Seq::new(
            rows as nat,
            |i: int| None::<HighlightedLineView>,
        ),
        forall|current_box: EditorEngineFlexBox, row_index: u32, line: UnicodeStringView, max_cols: u32|
            #[trigger] spec_line_ops(
                current_box,
                row_index,
                line,
                spec_highlighted_line_of(
                    syntax_highlight_enabled,
                    syntax_set,
                    theme,
                    buffer.file_extension,
                    line.string,
                ),
                buffer.scroll_offset.col_index,
                max_cols,
            ) == seq![
                RenderOpView::MoveCursorPositionRelTo(
                    current_box.style_adjusted_origin_pos,
                    crate::units::Position { col_index: 0, row_index },
                ),
                RenderOpView::ApplyColors(current_box.maybe_computed_style),
                RenderOpView::PrintTextWithAttributes(
                    line.clip(buffer.scroll_offset.col_index as int, max_cols as int).string,
                    current_box.maybe_computed_style,
                ),
                RenderOpView::ResetColor,
            ],
{
    assert(spec_row_highlights(syntax_highlight_enabled, syntax_set, theme, buffer, rows)
        =~= Seq::new(rows as nat, |i: int| None::<HighlightedLineView>));
    assert forall|
        current_box: EditorEngineFlexBox,
        row_index: u32,
        line: UnicodeStringView,
        max_cols: u32,
    |
        #[trigger] spec_line_ops(
            current_box,
            row_index,
            line,
            spec_highlighted_line_of(
                syntax_highlight_enabled,
                syntax_set,
                theme,
                buffer.file_extension,
                line.string,
            ),
            buffer.scroll_offset.col_index,
            max_cols,
        ) == seq![
            RenderOpView::MoveCursorPositionRelTo(
                current_box.style_adjusted_origin_pos,
                crate::units::Position { col_index: 0, row_index },
            ),
            RenderOpView::ApplyColors(current_box.maybe_computed_style),
            RenderOpView::PrintTextWithAttributes(
                line.clip(buffer.scroll_offset.col_index as int, max_cols as int).string,
                current_box.maybe_computed_style,
            ),
            RenderOpView::ResetColor,
        ] by {
        let ops = spec_line_ops(
            current_box,
            row_index,
            line,
            None,
            buffer.scroll_offset.col_index,
            max_cols,
        );
        assert(ops =~= seq![
            RenderOpView::MoveCursorPositionRelTo(
                current_box.style_adjusted_origin_pos,
                crate::units::Position { col_index: 0, row_index },
            ),
            RenderOpView::ApplyColors(current_box.maybe_computed_style),
            RenderOpView::PrintTextWithAttributes(
                line.clip(buffer.scroll_offset.col_index as int, max_cols as int).string,
                current_box.maybe_computed_style,
            ),
            RenderOpView::ResetColor,
        ]);
    }
}

/// Whatever row is painted highlighted, highlighting is switched on, one of
/// the syntaxes lists the file extension of the buffer, and the pieces it is
/// painted from are, one after the other, its line.
pub proof fn law_highlighted_rows_cover_their_lines(
    syntax_highlight_enabled: bool,
    syntax_set: SyntaxSet,
    theme: Theme,
    buffer: EditorBufferView,
    rows: int,
    row: int,
)
    requires
        0 <= row < rows,
        spec_row_highlights(syntax_highlight_enabled, syntax_set, theme, buffer, rows)[row]
            is Some,
    ensures
        syntax_highlight_enabled,
        spec_lists_extension(syntax_set_extensions(syntax_set), buffer.file_extension),
        spec_piece_texts(
            spec_row_highlights(syntax_highlight_enabled, syntax_set, theme, buffer, rows)[row]->0,
        ).flatten() == buffer.lines[buffer.scroll_offset.row_index + row].string,
{
}

} // verus!
