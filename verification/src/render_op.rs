//! Drawing operations, and the layered pipeline that a frame is made of.
use vstd::prelude::*;
use crate::style::{Style, TuiColor};
use crate::units::Position;

verus! {

/// One drawing operation for a terminal backend.
#[derive(Clone, Debug, PartialEq, Eq)]
pub enum RenderOp {
    Noop,
    EnterRawMode,
    ExitRawMode,
    /// Move the cursor to a cell of the screen.
    MoveCursorPositionAbs(Position),
    /// Move the cursor to a cell given relative to an origin: first the
    /// origin, then the offset from it.
    MoveCursorPositionRelTo(Position, Position),
    ClearScreen,
    SetFgColor(TuiColor),
    SetBgColor(TuiColor),
    ResetColor,
    /// Set the colors of a style, if there is one.
    ApplyColors(Option<Style>),
    /// Print a text with the attributes of a style, if there is one.
    PrintTextWithAttributes(String, Option<Style>),
    /// Print a text as above, then pad with spaces up to a column.
    PrintTextWithAttributesAndPadding(String, Option<Style>, u32),
    CursorShow,
    CursorHide,
    RequestShowCaretAtPositionAbs(Position),
    RequestShowCaretAtPositionRelTo(Position, Position),
}

/// A drawing operation whose text is a sequence of characters.
pub enum RenderOpView {
    Noop,
    EnterRawMode,
    ExitRawMode,
    MoveCursorPositionAbs(Position),
    MoveCursorPositionRelTo(Position, Position),
    ClearScreen,
    SetFgColor(TuiColor),
    SetBgColor(TuiColor),
    ResetColor,
    ApplyColors(Option<Style>),
    PrintTextWithAttributes(Seq<char>, Option<Style>),
    PrintTextWithAttributesAndPadding(Seq<char>, Option<Style>, u32),
    CursorShow,
    CursorHide,
    RequestShowCaretAtPositionAbs(Position),
    RequestShowCaretAtPositionRelTo(Position, Position),
}

impl View for RenderOp {
    type V = RenderOpView;

    open spec fn view(&self) -> RenderOpView {
        match *self {
            RenderOp::Noop => RenderOpView::Noop,
            RenderOp::EnterRawMode => RenderOpView::EnterRawMode,
            RenderOp::ExitRawMode => RenderOpView::ExitRawMode,
            RenderOp::MoveCursorPositionAbs(p) => RenderOpView::MoveCursorPositionAbs(p),
            RenderOp::MoveCursorPositionRelTo(o, p) => RenderOpView::MoveCursorPositionRelTo(o, p),
            RenderOp::ClearScreen => RenderOpView::ClearScreen,
            RenderOp::SetFgColor(c) => RenderOpView::SetFgColor(c),
            RenderOp::SetBgColor(c) => RenderOpView::SetBgColor(c),
            RenderOp::ResetColor => RenderOpView::ResetColor,
            RenderOp::ApplyColors(s) => RenderOpView::ApplyColors(s),
            RenderOp::PrintTextWithAttributes(t, s) => RenderOpView::PrintTextWithAttributes(
                t@,
                s,
            ),
            RenderOp::PrintTextWithAttributesAndPadding(
                t,
                s,
                c,
            ) => RenderOpView::PrintTextWithAttributesAndPadding(t@, s, c),
            RenderOp::CursorShow => RenderOpView::CursorShow,
            RenderOp::CursorHide => RenderOpView::CursorHide,
            RenderOp::RequestShowCaretAtPositionAbs(p) => RenderOpView::RequestShowCaretAtPositionAbs(
                p,
            ),
            RenderOp::RequestShowCaretAtPositionRelTo(
                o,
                p,
            ) => RenderOpView::RequestShowCaretAtPositionRelTo(o, p),
        }
    }
}

impl RenderOp {
    /// A second operation that says the same.
    pub fn duplicate(&self) -> (r: RenderOp)
        ensures
            r@ == self@,
    {
        match self {
            RenderOp::Noop => RenderOp::Noop,
            RenderOp::EnterRawMode => RenderOp::EnterRawMode,
            RenderOp::ExitRawMode => RenderOp::ExitRawMode,
            RenderOp::MoveCursorPositionAbs(p) => RenderOp::MoveCursorPositionAbs(*p),
            RenderOp::MoveCursorPositionRelTo(o, p) => RenderOp::MoveCursorPositionRelTo(*o, *p),
            RenderOp::ClearScreen => RenderOp::ClearScreen,
            RenderOp::SetFgColor(c) => RenderOp::SetFgColor(*c),
            RenderOp::SetBgColor(c) => RenderOp::SetBgColor(*c),
            RenderOp::ResetColor => RenderOp::ResetColor,
            RenderOp::ApplyColors(s) => RenderOp::ApplyColors(*s),
            RenderOp::PrintTextWithAttributes(t, s) => RenderOp::PrintTextWithAttributes(
                t.clone(),
                *s,
            ),
            RenderOp::PrintTextWithAttributesAndPadding(
                t,
                s,
                c,
            ) => RenderOp::PrintTextWithAttributesAndPadding(t.clone(), *s, *c),
            RenderOp::CursorShow => RenderOp::CursorShow,
            RenderOp::CursorHide => RenderOp::CursorHide,
            RenderOp::RequestShowCaretAtPositionAbs(p) => RenderOp::RequestShowCaretAtPositionAbs(
                *p,
            ),
            RenderOp::RequestShowCaretAtPositionRelTo(
                o,
                p,
            ) => RenderOp::RequestShowCaretAtPositionRelTo(*o, *p),
        }
    }
}

/// The views of a sequence of operations, in order.
pub open spec fn spec_op_views(ops: Seq<RenderOp>) -> Seq<RenderOpView> {
    ops.map_values(|op: RenderOp| op@)
}

/// Drawing operations in the order in which they are to be carried out.
#[derive(Clone, Debug, PartialEq, Eq)]
pub struct RenderOps {
    pub list: Vec<RenderOp>,
}

impl View for RenderOps {
    type V = Seq<RenderOpView>;

    open spec fn view(&self) -> Seq<RenderOpView> {
        spec_op_views(self.list@)
    }
}

impl RenderOps {
    pub fn new() -> (r: RenderOps)
        ensures
            r@ == Seq::<RenderOpView>::empty(),
    {
        let r = RenderOps { list: Vec::new() };
        assert(r@ =~= Seq::<RenderOpView>::empty());
        r
    }

    /// Appends one operation.
    pub fn push(&mut self, op: RenderOp)
        ensures
            final(self)@ == old(self)@.push(op@),
    {
        self.list.push(op);
        assert(self@ =~= old(self)@.push(op@));
    }

    pub fn len(&self) -> (n: usize)
        ensures
            n == self@.len(),
    {
        self.list.len()
    }

    /// A second list that holds the same operations in the same order.
    pub fn duplicate(&self) -> (r: RenderOps)
        ensures
            r@ == self@,
    {
        let mut r = RenderOps::new();
        let mut i: usize = 0;
        while i < self.list.len()
            invariant
                i <= self.list.len(),
                r@ == self@.take(i as int),
            decreases self.list.len() - i,
        {
            r.push(self.list[i].duplicate());
            assert(self@.take(i as int).push(self@[i as int]) =~= self@.take(i + 1));
            i += 1;
        }
        assert(self@.take(self@.len() as int) =~= self@);
        r
    }
}

/// The layers of a frame, from the one painted first to the one painted last.
#[derive(Clone, Copy, Debug, PartialEq, Eq, Hash, Structural)]
pub enum ZOrder {
    Deferred,
    Normal,
    Glass,
    Caret,
}

impl ZOrder {
    /// The order in which a backend paints the layers.
    pub open spec fn spec_render_order() -> Seq<ZOrder> {
        seq![ZOrder::Deferred, ZOrder::Normal, ZOrder::Glass, ZOrder::Caret]
    }

    pub fn get_render_order() -> (r: Vec<ZOrder>)
        ensures
            r@ == ZOrder::spec_render_order(),
    {
        let mut r: Vec<ZOrder> = Vec::new();
        r.push(ZOrder::Deferred);
        r.push(ZOrder::Normal);
        r.push(ZOrder::Glass);
        r.push(ZOrder::Caret);
        assert(r@ =~= ZOrder::spec_render_order());
        r
    }
}

/// The views of a sequence of lists of operations, in order.
pub open spec fn spec_ops_views(lists: Seq<RenderOps>) -> Seq<Seq<RenderOpView>> {
    lists.map_values(|ops: RenderOps| ops@)
}

/// A frame: for each layer, the lists of operations pushed to it, in the
/// order in which they were pushed.
#[derive(Clone, Debug, PartialEq, Eq)]
pub struct RenderPipeline {
    pub deferred: Vec<RenderOps>,
    pub normal: Vec<RenderOps>,
    pub glass: Vec<RenderOps>,
    pub caret: Vec<RenderOps>,
}

impl RenderPipeline {
    /// The lists of operations of one layer.
    pub open spec fn spec_layer(&self, z_order: ZOrder) -> Seq<Seq<RenderOpView>> {
        match z_order {
            ZOrder::Deferred => spec_ops_views(self.deferred@),
            ZOrder::Normal => spec_ops_views(self.normal@),
            ZOrder::Glass => spec_ops_views(self.glass@),
            ZOrder::Caret => spec_ops_views(self.caret@),
        }
    }

    /// All operations of the frame in the order in which a backend carries
    /// them out: layer by layer, and inside a layer in the order of
    /// insertion.
    pub open spec fn spec_flatten(&self) -> Seq<RenderOpView> {
        self.spec_layer(ZOrder::Deferred).flatten() + self.spec_layer(ZOrder::Normal).flatten()
            + self.spec_layer(ZOrder::Glass).flatten() + self.spec_layer(ZOrder::Caret).flatten()
    }

    /// The frame that paints nothing.
    pub fn new() -> (r: RenderPipeline)
        ensures
            forall|z: ZOrder| #[trigger] r.spec_layer(z) == Seq::<Seq<RenderOpView>>::empty(),
    {
        let r = RenderPipeline {
            deferred: Vec::new(),
            normal: Vec::new(),
            glass: Vec::new(),
            caret: Vec::new(),
        };
        assert forall|z: ZOrder| #[trigger]
            r.spec_layer(z) == Seq::<Seq<RenderOpView>>::empty() by {
            assert(r.spec_layer(z) =~= Seq::<Seq<RenderOpView>>::empty());
        }
        r
    }

    /// Appends a list of operations to a layer. The other layers stay as they
    /// are.
    pub fn push(&mut self, z_order: ZOrder, render_ops: RenderOps)
        ensures
            final(self).spec_layer(z_order) == old(self).spec_layer(z_order).push(render_ops@),
            forall|z: ZOrder|
                z != z_order ==> #[trigger] final(self).spec_layer(z) == old(self).spec_layer(z),
    {
        match z_order {
            ZOrder::Deferred => {
                self.deferred.push(render_ops);
            },
            ZOrder::Normal => {
                self.normal.push(render_ops);
            },
            ZOrder::Glass => {
                self.glass.push(render_ops);
            },
            ZOrder::Caret => {
                self.caret.push(render_ops);
            },
        }
        assert(self.spec_layer(z_order) =~= old(self).spec_layer(z_order).push(render_ops@));
    }

    /// The lists of operations of one layer.
    pub fn get_all_at(&self, z_order: ZOrder) -> (r: &Vec<RenderOps>)
        ensures
            spec_ops_views(r@) == self.spec_layer(z_order),
    {
        match z_order {
            ZOrder::Deferred => &self.deferred,
            ZOrder::Normal => &self.normal,
            ZOrder::Glass => &self.glass,
            ZOrder::Caret => &self.caret,
        }
    }

    /// All operations of the frame in the order in which a backend carries
    /// them out.
    pub fn flatten(&self) -> (r: RenderOps)
        ensures
            r@ == self.spec_flatten(),
    {
        let mut r = RenderOps::new();
        flatten_layer_into(&self.deferred, &mut r);
        flatten_layer_into(&self.normal, &mut r);
        flatten_layer_into(&self.glass, &mut r);
        flatten_layer_into(&self.caret, &mut r);
        assert(Seq::<RenderOpView>::empty() + self.spec_layer(ZOrder::Deferred).flatten()
            =~= self.spec_layer(ZOrder::Deferred).flatten());
        r
    }
}

/// Appends every operation of a layer to `out`.
fn flatten_layer_into(layer: &Vec<RenderOps>, out: &mut RenderOps)
    ensures
        final(out)@ == old(out)@ + spec_ops_views(layer@).flatten(),
{
    let ghost lists = spec_ops_views(layer@);
    let mut i: usize = 0;
    assert(lists.take(0) =~= Seq::<Seq<RenderOpView>>::empty());
    assert(old(out)@ + lists.take(0).flatten() =~= old(out)@);
    while i < layer.len()
        invariant
            i <= layer.len(),
            lists == spec_ops_views(layer@),
            out@ == old(out)@ + lists.take(i as int).flatten(),
        decreases layer.len() - i,
    {
        let ops = &layer[i];
        let ghost before = out@;
        let mut j: usize = 0;
        while j < ops.list.len()
            invariant
                j <= ops.list.len(),
                out@ == before + ops@.take(j as int),
            decreases ops.list.len() - j,
        {
            out.push(ops.list[j].duplicate());
            assert(ops@.take(j as int).push(ops@[j as int]) =~= ops@.take(j + 1));
            j += 1;
        }
        proof {
            assert(ops@.take(ops@.len() as int) =~= ops@);
            assert(lists.take(i + 1) =~= lists.take(i as int).push(lists[i as int]));
            lists.take(i as int).lemma_flatten_push(lists[i as int]);
            assert(lists[i as int] == ops@);
        }
        i += 1;
    }
    assert(lists.take(layer.len() as int) =~= lists);
}

} // verus!
