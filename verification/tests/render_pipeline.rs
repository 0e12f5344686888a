use tui_editor::{Position, RenderOp, RenderOps, RenderPipeline, ZOrder};

fn ops_of(list: Vec<RenderOp>) -> RenderOps {
    let mut ops = RenderOps::new();
    for op in list {
        ops.push(op);
    }
    ops
}

#[test]
fn push_appends_to_the_layer_and_keeps_the_order() {
    let mut pipeline = RenderPipeline::new();
    let first = ops_of(vec![RenderOp::ClearScreen]);
    let second = ops_of(vec![RenderOp::ResetColor, RenderOp::CursorHide]);
    pipeline.push(ZOrder::Normal, first.duplicate());
    pipeline.push(ZOrder::Normal, second.duplicate());
    assert_eq!(pipeline.get_all_at(ZOrder::Normal), &vec![first, second]);
    assert!(pipeline.get_all_at(ZOrder::Deferred).is_empty());
    assert!(pipeline.get_all_at(ZOrder::Glass).is_empty());
    assert!(pipeline.get_all_at(ZOrder::Caret).is_empty());
}

#[test]
fn flatten_goes_layer_by_layer() {
    let mut pipeline = RenderPipeline::new();
    pipeline.push(ZOrder::Caret, ops_of(vec![RenderOp::CursorShow]));
    pipeline.push(ZOrder::Normal, ops_of(vec![RenderOp::ClearScreen]));
    pipeline.push(ZOrder::Glass, ops_of(vec![RenderOp::ResetColor]));
    pipeline.push(ZOrder::Deferred, ops_of(vec![RenderOp::EnterRawMode]));
    pipeline.push(
        ZOrder::Normal,
        ops_of(vec![
            RenderOp::MoveCursorPositionAbs(Position::new(1, 2)),
            RenderOp::PrintTextWithAttributes("x".to_string(), None),
        ]),
    );
    assert_eq!(
        pipeline.flatten().list,
        vec![
            RenderOp::EnterRawMode,
            RenderOp::ClearScreen,
            RenderOp::MoveCursorPositionAbs(Position::new(1, 2)),
            RenderOp::PrintTextWithAttributes("x".to_string(), None),
            RenderOp::ResetColor,
            RenderOp::CursorShow,
        ]
    );
    assert_eq!(
        ZOrder::get_render_order(),
        vec![ZOrder::Deferred, ZOrder::Normal, ZOrder::Glass, ZOrder::Caret]
    );
}

#[test]
fn duplicate_of_an_op_says_the_same() {
    let op = RenderOp::PrintTextWithAttributesAndPadding("pad".to_string(), None, 9);
    assert_eq!(op.duplicate(), op);
    assert_eq!(RenderOps::new().len(), 0);
}
