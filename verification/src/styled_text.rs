//! Runs of text that each carry one style, and how a line of them is cut down
//! to the columns that a viewport shows.
use vstd::prelude::*;
use vstd::string::*;
use crate::render_op::{RenderOp, RenderOpView, RenderOps};
use crate::style::Style;
use crate::unicode_string::{UnicodeString, UnicodeStringView};
use crate::units::spec_sub_or_zero;

verus! {

/// A plain list. It exists so that conversions and clipping can be defined
/// on lists of the library's own items.
#[derive(Clone, Debug, PartialEq, Eq)]
pub struct List<T> {
    pub inner: Vec<T>,
}

impl<T> List<T> {
    /// An empty list with room for `size` items.
    pub fn with_capacity(size: usize) -> (r: List<T>)
        ensures
            r.inner@ == Seq::<T>::empty(),
    {
        List { inner: Vec::with_capacity(size) }
    }

    /// An empty list.
    pub fn new() -> (r: List<T>)
        ensures
            r.inner@ == Seq::<T>::empty(),
    {
        List { inner: Vec::new() }
    }

    /// Appends one item.
    pub fn push(&mut self, item: T)
        ensures
            final(self).inner@ == old(self).inner@.push(item),
    {
        self.inner.push(item);
    }

    pub fn len(&self) -> (n: usize)
        ensures
            n == self.inner@.len(),
    {
        self.inner.len()
    }
}

/// A run of text in one style.
#[derive(Clone, Debug, PartialEq, Eq)]
pub struct StyleUSSpan {
    pub style: Style,
    pub text: UnicodeString,
}

/// A run of text in one style, as character sequences.
pub struct StyleUSSpanView {
    pub style: Style,
    pub text: UnicodeStringView,
}

impl View for StyleUSSpan {
    type V = StyleUSSpanView;

    open spec fn view(&self) -> StyleUSSpanView {
        StyleUSSpanView { style: self.style, text: self.text@ }
    }
}

impl StyleUSSpan {
    pub fn new(style: Style, text: UnicodeString) -> (r: StyleUSSpan)
        ensures
            r@ == (StyleUSSpanView { style, text: text@ }),
    {
        StyleUSSpan { style, text }
    }
}

/// The views of a sequence of spans, in order.
pub open spec fn spec_span_views(spans: Seq<StyleUSSpan>) -> Seq<StyleUSSpanView> {
    spans.map_values(|s: StyleUSSpan| s@)
}

/// Whether the text of every span is divided into segments as it should be.
pub open spec fn spec_spans_wf(spans: Seq<StyleUSSpanView>) -> bool {
    forall|i: int| 0 <= i < spans.len() ==> (#[trigger] spans[i]).text.wf()
}

/// The number of columns that the spans take, one for each grapheme cluster.
pub open spec fn spec_display_width(spans: Seq<StyleUSSpanView>) -> int
    decreases spans.len(),
{
    if spans.len() == 0 {
        0
    } else {
        spans[0].text.segments.len() + spec_display_width(spans.drop_first())
    }
}

/// The larger of two integers.
pub open spec fn spec_max(a: int, b: int) -> int {
    if a >= b {
        a
    } else {
        b
    }
}

/// What is to be seen of spans that begin at column `col` in the window of
/// `max_cols` columns that begins at column `col_start`: a span that ends
/// before the window or begins behind it is dropped, one that reaches into
/// it is cut at the window's edges, between grapheme clusters, and keeps its
/// style.
pub open spec fn spec_clip_spans(
    spans: Seq<StyleUSSpanView>,
    col: int,
    col_start: int,
    max_cols: int,
) -> Seq<StyleUSSpanView>
    decreases spans.len(),
{
    if spans.len() == 0 {
        Seq::empty()
    } else {
        let first = spans[0];
        let skip = spec_sub_or_zero(col_start, col);
        let room = spec_sub_or_zero(col_start + max_cols, spec_max(col, col_start));
        let part = first.text.clip(skip, room);
        let rest = spec_clip_spans(
            spans.drop_first(),
            col + first.text.segments.len(),
            col_start,
            max_cols,
        );
        if part.segments.len() == 0 {
            rest
        } else {
            seq![StyleUSSpanView { style: first.style, text: part }] + rest
        }
    }
}

/// The operations that paint the spans: for each span its colors, its text
/// with its attributes, and a reset.
pub open spec fn spec_styled_ops(spans: Seq<StyleUSSpanView>) -> Seq<RenderOpView>
    decreases spans.len(),
{
    if spans.len() == 0 {
        Seq::empty()
    } else {
        seq![
            RenderOpView::ApplyColors(Some(spans[0].style)),
            RenderOpView::PrintTextWithAttributes(spans[0].text.string, Some(spans[0].style)),
            RenderOpView::ResetColor,
        ] + spec_styled_ops(spans.drop_first())
    }
}

/// Spans cut down to a window of columns, ready to be painted.
#[derive(Clone, Debug, PartialEq, Eq)]
pub struct StyledTexts {
    pub spans: Vec<StyleUSSpan>,
}

impl View for StyledTexts {
    type V = Seq<StyleUSSpanView>;

    open spec fn view(&self) -> Seq<StyleUSSpanView> {
        spec_span_views(self.spans@)
    }
}

impl List<StyleUSSpan> {
    /// The spans of the list as character sequences.
    pub open spec fn spec_spans(&self) -> Seq<StyleUSSpanView> {
        spec_span_views(self.inner@)
    }

    /// What is to be seen of the spans, laid out from column zero on, in the
    /// window of `max_cols` columns that begins at column `col_start`.
    pub fn clip(&self, col_start: u32, max_cols: u32) -> (r: StyledTexts)
        ensures
            r@ == spec_clip_spans(self.spec_spans(), 0, col_start as int, max_cols as int),
            spec_spans_wf(self.spec_spans()) ==> spec_spans_wf(r@),
            spec_display_width(r@) <= max_cols,
    {
        let ghost all = self.spec_spans();
        let end: u64 = col_start as u64 + max_cols as u64;
        let mut out: Vec<StyleUSSpan> = Vec::new();
        let mut col: u64 = 0;
        let mut i: usize = 0;
        let mut done = false;
        assert(all.skip(0) =~= all);
        assert(spec_span_views(out@) =~= Seq::<StyleUSSpanView>::empty());
        while i < self.inner.len() && !done
            invariant
                i <= self.inner.len(),
                all == self.spec_spans(),
                all.len() == self.inner.len(),
                end == col_start + max_cols,
                col <= end,
                done ==> spec_clip_spans(
                    all.skip(i as int),
                    col as int,
                    col_start as int,
                    max_cols as int,
                ) == Seq::<StyleUSSpanView>::empty(),
                spec_clip_spans(all, 0, col_start as int, max_cols as int) == spec_span_views(out@)
                    + spec_clip_spans(
                    all.skip(i as int),
                    col as int,
                    col_start as int,
                    max_cols as int,
                ),
            decreases self.inner.len() - i,
        {
            let span = &self.inner[i];
            let width: usize = span.text.grapheme_count();
            let skip: u64 = if col_start as u64 > col {
                col_start as u64 - col
            } else {
                0
            };
            let from: u64 = if col > col_start as u64 {
                col
            } else {
                col_start as u64
            };
            let room: u64 = if end > from {
                end - from
            } else {
                0
            };
            let ghost tail = all.skip(i as int);
            proof {
                assert(tail[0] == all[i as int]);
                assert(tail.drop_first() =~= all.skip(i + 1));
                assert(all[i as int] == span@);
            }
            let part = span.text.clip(skip as u32, room as u32);
            let ghost before = out@;
            if part.grapheme_count() > 0 {
                out.push(StyleUSSpan { style: span.style, text: part });
                proof {
                    let added = StyleUSSpanView {
                        style: span@.style,
                        text: span@.text.clip(skip as int, room as int),
                    };
                    assert(spec_span_views(out@) =~= spec_span_views(before).push(added));
                    assert(spec_span_views(before).push(added) + spec_clip_spans(
                        all.skip(i + 1),
                        col + width,
                        col_start as int,
                        max_cols as int,
                    ) =~= spec_span_views(before) + (seq![added] + spec_clip_spans(
                        all.skip(i + 1),
                        col + width,
                        col_start as int,
                        max_cols as int,
                    )));
                }
            }
            if end - col <= width as u64 {
                proof {
                    lemma_clip_spans_behind_window(
                        all.skip(i + 1),
                        col + width,
                        col_start as int,
                        max_cols as int,
                    );
                }
                done = true;
                col = end;
                proof {
                    lemma_clip_spans_behind_window(
                        all.skip(i + 1),
                        end as int,
                        col_start as int,
                        max_cols as int,
                    );
                }
            } else {
                col = col + width as u64;
            }
            i += 1;
        }
        proof {
            if !done {
                assert(all.skip(i as int) =~= Seq::<StyleUSSpanView>::empty());
            }
            assert(spec_span_views(out@) + Seq::<StyleUSSpanView>::empty() =~= spec_span_views(
                out@,
            ));
            lemma_clip_spans_width(all, 0, col_start as int, max_cols as int);
            if spec_spans_wf(all) {
                lemma_clip_spans_fit(all, 0, col_start as int, max_cols as int);
            }
        }
        StyledTexts { spans: out }
    }
}

impl StyledTexts {
    /// Appends the operations that paint the spans.
    pub fn render_into(&self, render_ops: &mut RenderOps)
        ensures
            final(render_ops)@ == old(render_ops)@ + spec_styled_ops(self@),
    {
        let ghost all = self@;
        let mut i: usize = 0;
        assert(all.skip(0) =~= all);
        assert(old(render_ops)@ + spec_styled_ops(all) =~= old(render_ops)@ + spec_styled_ops(
            all.skip(0),
        ));
        while i < self.spans.len()
            invariant
                i <= self.spans.len(),
                all == self@,
                all.len() == self.spans.len(),
                render_ops@ + spec_styled_ops(all.skip(i as int)) == old(render_ops)@
                    + spec_styled_ops(all),
            decreases self.spans.len() - i,
        {
            let span = &self.spans[i];
            let ghost before = render_ops@;
            let ghost tail = all.skip(i as int);
            render_ops.push(RenderOp::ApplyColors(Some(span.style)));
            render_ops.push(
                RenderOp::PrintTextWithAttributes(
                    String::from_str(span.text.as_str()),
                    Some(span.style),
                ),
            );
            render_ops.push(RenderOp::ResetColor);
            proof {
                assert(tail[0] == span@);
                assert(tail.drop_first() =~= all.skip(i + 1));
                let three = seq![
                    RenderOpView::ApplyColors(Some(span@.style)),
                    RenderOpView::PrintTextWithAttributes(span@.text.string, Some(span@.style)),
                    RenderOpView::ResetColor,
                ];
                assert(render_ops@ =~= before + three);
                assert(before + three + spec_styled_ops(all.skip(i + 1)) =~= before + (three
                    + spec_styled_ops(all.skip(i + 1))));
            }
            i += 1;
        }
        assert(all.skip(all.len() as int) =~= Seq::<StyleUSSpanView>::empty());
        assert(render_ops@ + Seq::<RenderOpView>::empty() =~= render_ops@);
    }
}

/// Spans that begin at or behind the end of the window are all dropped.
pub proof fn lemma_clip_spans_behind_window(
    spans: Seq<StyleUSSpanView>,
    col: int,
    col_start: int,
    max_cols: int,
)
    requires
        0 <= col_start,
        0 <= max_cols,
        col >= col_start + max_cols,
    ensures
        spec_clip_spans(spans, col, col_start, max_cols) == Seq::<StyleUSSpanView>::empty(),
    decreases spans.len(),
{
    if spans.len() > 0 {
        lemma_clip_spans_behind_window(
            spans.drop_first(),
            col + spans[0].text.segments.len(),
            col_start,
            max_cols,
        );
    }
}

/// What clipping keeps fits the window: the spans kept are divided as they
/// should be, none of them is empty, and together they are no wider than
/// what is left of the window from column `col` on.
pub proof fn lemma_clip_spans_fit(
    spans: Seq<StyleUSSpanView>,
    col: int,
    col_start: int,
    max_cols: int,
)
    requires
        spec_spans_wf(spans),
        0 <= col,
        0 <= col_start,
        0 <= max_cols,
    ensures
        spec_spans_wf(spec_clip_spans(spans, col, col_start, max_cols)),
        spec_display_width(spec_clip_spans(spans, col, col_start, max_cols)) <= spec_sub_or_zero(
            col_start + max_cols,
            spec_max(col, col_start),
        ),
        spec_clip_spans(spans, col, col_start, max_cols).len() <= spans.len(),
        forall|i: int|
            0 <= i < spec_clip_spans(spans, col, col_start, max_cols).len() ==> 1 <= (
            #[trigger] spec_clip_spans(spans, col, col_start, max_cols)[i]).text.segments.len()
                <= max_cols,
    decreases spans.len(),
{
    if spans.len() > 0 {
        let first = spans[0];
        let skip = spec_sub_or_zero(col_start, col);
        let room = spec_sub_or_zero(col_start + max_cols, spec_max(col, col_start));
        let part = first.text.clip(skip, room);
        let next = col + first.text.segments.len();
        let rest = spec_clip_spans(spans.drop_first(), next, col_start, max_cols);
        assert(first.text.wf());
        assert forall|i: int| 0 <= i < spans.drop_first().len() implies (
        #[trigger] spans.drop_first()[i]).text.wf() by {
            assert(spans.drop_first()[i] == spans[i + 1]);
        }
        lemma_clip_spans_fit(spans.drop_first(), next, col_start, max_cols);
        crate::unicode_string::lemma_clip_wf(first.text, skip, room);
        if part.segments.len() != 0 {
            let kept = StyleUSSpanView { style: first.style, text: part };
            let all = seq![kept] + rest;
            assert(all[0] == kept);
            assert(all.drop_first() =~= rest);
            assert forall|i: int| 0 <= i < all.len() implies (#[trigger] all[i]).text.wf() && 1
                <= all[i].text.segments.len() <= max_cols by {
                if i > 0 {
                    assert(all[i] == rest[i - 1]);
                }
            }
        }
    }
}

/// What clipping keeps is no wider than the window, whatever the spans are:
/// together the spans kept take no more columns than are left of the window
/// from column `col` on, no single one takes more than `max_cols`, and there
/// are no more of them than there were.
pub proof fn lemma_clip_spans_width(
    spans: Seq<StyleUSSpanView>,
    col: int,
    col_start: int,
    max_cols: int,
)
    requires
        0 <= col,
        0 <= col_start,
        0 <= max_cols,
    ensures
        spec_display_width(spec_clip_spans(spans, col, col_start, max_cols)) <= spec_sub_or_zero(
            col_start + max_cols,
            spec_max(col, col_start),
        ),
        spec_clip_spans(spans, col, col_start, max_cols).len() <= spans.len(),
        forall|i: int|
            0 <= i < spec_clip_spans(spans, col, col_start, max_cols).len() ==> 1 <= (
            #[trigger] spec_clip_spans(spans, col, col_start, max_cols)[i]).text.segments.len()
                <= max_cols,
    decreases spans.len(),
{
    if spans.len() > 0 {
        let first = spans[0];
        let skip = spec_sub_or_zero(col_start, col);
        let room = spec_sub_or_zero(col_start + max_cols, spec_max(col, col_start));
        let part = first.text.clip(skip, room);
        let next = col + first.text.segments.len();
        let rest = spec_clip_spans(spans.drop_first(), next, col_start, max_cols);
        lemma_clip_spans_width(spans.drop_first(), next, col_start, max_cols);
        if part.segments.len() != 0 {
            let kept = StyleUSSpanView { style: first.style, text: part };
            let all = seq![kept] + rest;
            assert(all[0] == kept);
            assert(all.drop_first() =~= rest);
            assert forall|i: int| 0 <= i < all.len() implies 1 <= (
            #[trigger] all[i]).text.segments.len() <= max_cols by {
                if i > 0 {
                    assert(all[i] == rest[i - 1]);
                }
            }
        }
    }
}

} // verus!
