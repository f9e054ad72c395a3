use screenshot_hero::annotations::interaction::{
    begin_drag, box_kind, creation_for, drag_shape_kind, cursor_for_tool, escape, finish_drag, text_to_edit_at, CreateAction, DragEnd,
    DragShape,
};
use screenshot_hero::annotations::engine::AnnotationEngine;
use screenshot_hero::annotations::model::{
    Annotation, AnnotationKind, AnnotationStyle, ArrowData, FreehandData, Point, Rect, TextData,
};
use screenshot_hero::annotations::tool::{ActiveTool, DrawingState, HandleIndex};

fn p(x: u64, y: u64) -> Point {
    Point { x, y }
}

#[test]
fn click_tools_create_on_click() {
    assert_eq!(creation_for(ActiveTool::Text, true), CreateAction::OpenTextEditor);
    assert_eq!(creation_for(ActiveTool::Callout, false), CreateAction::OpenTextEditor);
    assert_eq!(creation_for(ActiveTool::Timestamp, true), CreateAction::PlaceTimestamp);
    assert_eq!(creation_for(ActiveTool::NumberMarker, true), CreateAction::PlaceNumberMarker);
    assert_eq!(creation_for(ActiveTool::Rectangle, true), CreateAction::Nothing);
    assert_eq!(creation_for(ActiveTool::Rectangle, false), CreateAction::Shape(DragShape::Rectangle));
    assert_eq!(creation_for(ActiveTool::Select, false), CreateAction::Nothing);
    assert!(ActiveTool::Timestamp.creates_on_click());
    assert!(!ActiveTool::Arrow.creates_on_click());
    assert_eq!(ActiveTool::default(), ActiveTool::Select);
}

#[test]
fn drag_end_decisions() {
    let drawing = DrawingState::Drawing { start: p(1, 2), current: p(3, 4) };
    assert_eq!(
        finish_drag(&drawing, ActiveTool::Ellipse, false),
        DragEnd::Create { action: CreateAction::Shape(DragShape::Ellipse), start: p(1, 2), current: p(3, 4) }
    );
    assert_eq!(finish_drag(&drawing, ActiveTool::Ellipse, true), DragEnd::Nothing);
    let r = Rect { x: 0, y: 0, width: 1, height: 1 };
    let moving = DrawingState::Moving { id: 9, drag_start: p(0, 0), original_bounds: r };
    assert_eq!(finish_drag(&moving, ActiveTool::Select, false), DragEnd::RecordBoundsChange { id: 9, original_bounds: r });
    let crop = DrawingState::CropResizing { handle: HandleIndex::TopLeft, original_bounds: r, drag_start: p(0, 0) };
    assert_eq!(finish_drag(&crop, ActiveTool::Crop, false), DragEnd::RedrawCrop);
    assert_eq!(finish_drag(&DrawingState::default(), ActiveTool::Select, false), DragEnd::Nothing);
}

#[test]
fn box_kinds_and_cursors() {
    assert_eq!(box_kind(DragShape::Blur), Some(AnnotationKind::Blur));
    assert_eq!(box_kind(DragShape::Arrow), None);
    assert_eq!(cursor_for_tool(ActiveTool::Pan), Some("grab"));
    assert_eq!(cursor_for_tool(ActiveTool::Crop), Some("crosshair"));
    assert_eq!(cursor_for_tool(ActiveTool::Text), None);
}

// Geometry on small integers standing in for coordinates: a rectangle holds
// the points within it; its top-left corner is its only handle.
fn inside(b: Rect, q: Point) -> bool {
    b.x <= q.x && q.x <= b.x + b.width && b.y <= q.y && q.y <= b.y + b.height
}

fn corner(b: Rect, q: Point) -> Option<HandleIndex> {
    if b.x == q.x && b.y == q.y { Some(HandleIndex::TopLeft) } else { None }
}

fn boxed(id: u128, kind: AnnotationKind, x: u64) -> Annotation {
    Annotation { id, kind, bounds: Rect { x, y: 0, width: 10, height: 10 }, style: AnnotationStyle::default() }
}

#[test]
fn select_drag_moves_resizes_or_deselects() {
    let mut engine = AnnotationEngine::new();
    engine.add(boxed(1, AnnotationKind::Rectangle, 0));
    engine.add(boxed(2, AnnotationKind::Ellipse, 5));
    let (state, crop) = begin_drag(&mut engine, ActiveTool::Select, p(6, 3), None, &corner, &inside);
    assert_eq!(state, Some(DrawingState::Moving { id: 2, drag_start: p(6, 3), original_bounds: engine.all()[1].bounds }));
    assert_eq!(crop, None);
    assert_eq!(engine.selected_id(), Some(2));
    let (state, _) = begin_drag(&mut engine, ActiveTool::Select, p(0, 0), None, &corner, &inside);
    assert!(matches!(state, Some(DrawingState::ResizingHandle { id: 1, handle: HandleIndex::TopLeft, .. })));
    let (state, _) = begin_drag(&mut engine, ActiveTool::Select, p(50, 50), None, &corner, &inside);
    assert_eq!(state, Some(DrawingState::Idle));
    assert_eq!(engine.selected_id(), None);
}

#[test]
fn crop_and_draw_drags() {
    let mut engine = AnnotationEngine::new();
    let sel = Rect { x: 10, y: 10, width: 5, height: 5 };
    let (s, c) = begin_drag(&mut engine, ActiveTool::Crop, p(1, 1), None, &corner, &inside);
    assert_eq!(s, Some(DrawingState::CropSelecting { start: p(1, 1), current: p(1, 1) }));
    assert_eq!(c, Some(Rect { x: 1, y: 1, width: 0, height: 0 }));
    let (s, c) = begin_drag(&mut engine, ActiveTool::Crop, p(10, 10), Some(sel), &corner, &inside);
    assert_eq!(s, Some(DrawingState::CropResizing { handle: HandleIndex::TopLeft, original_bounds: sel, drag_start: p(10, 10) }));
    assert_eq!(c, None);
    let (s, _) = begin_drag(&mut engine, ActiveTool::Crop, p(12, 12), Some(sel), &corner, &inside);
    assert_eq!(s, Some(DrawingState::CropMoving { drag_start: p(12, 12), original_bounds: sel }));
    let (s, c) = begin_drag(&mut engine, ActiveTool::Crop, p(30, 30), Some(sel), &corner, &inside);
    assert_eq!(s, Some(DrawingState::CropSelecting { start: p(30, 30), current: p(30, 30) }));
    assert_eq!(c, Some(Rect { x: 30, y: 30, width: 0, height: 0 }));
    assert_eq!(begin_drag(&mut engine, ActiveTool::Pan, p(1, 1), None, &corner, &inside), (None, None));
    let (s, _) = begin_drag(&mut engine, ActiveTool::Arrow, p(2, 3), None, &corner, &inside);
    assert_eq!(s, Some(DrawingState::Drawing { start: p(2, 3), current: p(2, 3) }));
}

#[test]
fn double_click_edits_only_texts() {
    let mut engine = AnnotationEngine::new();
    engine.add(boxed(1, AnnotationKind::Text(TextData { text: "t".to_string(), font_size: 0 }), 0));
    engine.add(boxed(2, AnnotationKind::Rectangle, 20));
    assert_eq!(text_to_edit_at(&engine, p(3, 3), &inside), Some(1));
    assert_eq!(text_to_edit_at(&engine, p(22, 3), &inside), None);
    assert_eq!(text_to_edit_at(&engine, p(99, 3), &inside), None);
}

#[test]
fn escape_drops_crop_or_selection() {
    let mut engine = AnnotationEngine::new();
    engine.add(boxed(1, AnnotationKind::Rectangle, 0));
    engine.select(1);
    assert!(escape(&mut engine, ActiveTool::Crop));
    assert_eq!(engine.selected_id(), Some(1));
    assert!(!escape(&mut engine, ActiveTool::Select));
    assert_eq!(engine.selected_id(), None);
}

#[test]
fn drag_shapes_become_kinds() {
    let (a, b) = (p(1, 2), p(3, 4));
    assert_eq!(drag_shape_kind(DragShape::Blur, a, b, vec![]), AnnotationKind::Blur);
    assert_eq!(drag_shape_kind(DragShape::Line, a, b, vec![]), AnnotationKind::Line(ArrowData { start: a, end: b }));
    assert_eq!(
        drag_shape_kind(DragShape::Freehand, a, b, vec![a]),
        AnnotationKind::Freehand(FreehandData { points: vec![a, b] })
    );
    let stroke = vec![a, p(2, 2), b];
    assert_eq!(
        drag_shape_kind(DragShape::Freehand, a, b, stroke.clone()),
        AnnotationKind::Freehand(FreehandData { points: stroke })
    );
}
