use screenshot_hero::annotations::editing::{
    commit_new, commit_text_edit, confirm_text, delete_selected, place_number_marker, place_timestamp, place_timestamp_now,
    record_bounds_change, restyle_selected, text_editor_setup, TEXT_BOX_HEIGHT, TEXT_BOX_WIDTH, TEXT_FONT_SIZE,
    TIMESTAMP_BOX_HEIGHT, TIMESTAMP_BOX_WIDTH,
};
use screenshot_hero::annotations::tool::ActiveTool;
use screenshot_hero::annotations::engine::AnnotationEngine;
use screenshot_hero::annotations::history::{AnnotationCommand, History};
use screenshot_hero::annotations::model::{
    Annotation, AnnotationKind, AnnotationStyle, CalloutData, Color, NumberMarkerData, Point, Rect, TextData,
};

fn no_scale(p: Point, _from: Rect, _to: Rect) -> Point {
    p
}

fn ann(id: u128, kind: AnnotationKind) -> Annotation {
    Annotation { id, kind, bounds: Rect { x: 0, y: 0, width: 0, height: 0 }, style: AnnotationStyle::default() }
}

fn text(s: &str) -> AnnotationKind {
    AnnotationKind::Text(TextData { text: s.to_string(), font_size: 0 })
}

#[test]
fn commit_new_then_undo_removes() {
    let mut engine = AnnotationEngine::new();
    let mut history = History::new();
    commit_new(&mut engine, &mut history, ann(1, AnnotationKind::Rectangle));
    assert_eq!(engine.all().len(), 1);
    assert!(history.undo(&mut engine, &no_scale));
    assert!(engine.all().is_empty());
}

#[test]
fn delete_selected_and_undo() {
    let mut engine = AnnotationEngine::new();
    let mut history = History::new();
    assert!(!delete_selected(&mut engine, &mut history));
    engine.add(ann(1, AnnotationKind::Rectangle));
    engine.select(1);
    assert!(delete_selected(&mut engine, &mut history));
    assert!(engine.all().is_empty());
    assert!(engine.selected_id().is_none());
    assert!(history.undo(&mut engine, &no_scale));
    assert_eq!(engine.all().len(), 1);
}

#[test]
fn text_edit_records_only_changes() {
    let mut engine = AnnotationEngine::new();
    let mut history = History::new();
    engine.add(ann(1, text("a")));
    assert!(!commit_text_edit(&mut engine, &mut history, 1, "a".to_string()));
    assert!(!history.can_undo());
    assert!(commit_text_edit(&mut engine, &mut history, 1, "b".to_string()));
    assert_eq!(engine.all()[0].kind, text("b"));
    history.undo(&mut engine, &no_scale);
    assert_eq!(engine.all()[0].kind, text("a"));
}

#[test]
fn timestamps_are_not_text_edited() {
    let mut engine = AnnotationEngine::new();
    let mut history = History::new();
    let ts = AnnotationKind::Timestamp(TextData { text: "t".to_string(), font_size: 0 });
    engine.add(ann(2, ts.clone()));
    assert!(!commit_text_edit(&mut engine, &mut history, 2, "u".to_string()));
    assert_eq!(engine.all()[0].kind, ts);
}

#[test]
fn engine_from_annotations_keeps_order() {
    let engine = AnnotationEngine::from_annotations(vec![ann(1, AnnotationKind::Blur), ann(2, AnnotationKind::Ellipse)]);
    assert_eq!(engine.all().iter().map(|a| a.id).collect::<Vec<_>>(), vec![1, 2]);
    assert!(engine.selected_id().is_none());
    let _ = AnnotationCommand::Add(ann(3, AnnotationKind::Rectangle));
}

#[test]
fn restyle_changes_only_a_selected_annotation() {
    let mut engine = AnnotationEngine::new();
    let mut history = History::new();
    let red = AnnotationStyle { stroke_color: Color { r: 1, g: 0, b: 0, a: 1 }, ..AnnotationStyle::default() };
    engine.add(ann(1, AnnotationKind::Rectangle));
    assert!(!restyle_selected(&mut engine, &mut history, red));
    engine.select(1);
    assert!(!restyle_selected(&mut engine, &mut history, AnnotationStyle::default()));
    assert!(!history.can_undo());
    assert!(restyle_selected(&mut engine, &mut history, red));
    assert_eq!(engine.all()[0].style, red);
    assert!(history.undo(&mut engine, &no_scale));
    assert_eq!(engine.all()[0].style, AnnotationStyle::default());
    engine.select(9);
    assert!(!restyle_selected(&mut engine, &mut history, red));
}

#[test]
fn bounds_change_is_recorded_when_bounds_moved() {
    let mut engine = AnnotationEngine::new();
    let mut history = History::new();
    let start = Rect { x: 0, y: 0, width: 0, height: 0 };
    engine.add(ann(1, AnnotationKind::Rectangle));
    assert!(!record_bounds_change(&engine, &mut history, 1, start));
    assert!(!record_bounds_change(&engine, &mut history, 2, Rect { x: 5, ..start }));
    assert!(!history.can_undo());
    engine.update_bounds(1, Rect { x: 5, ..start });
    assert!(record_bounds_change(&engine, &mut history, 1, start));
    assert!(history.undo(&mut engine, &no_scale));
    assert_eq!(engine.all()[0].bounds, start);
}

#[test]
fn number_markers_count_up() {
    let mut engine = AnnotationEngine::new();
    let mut history = History::new();
    let b = Rect { x: 0, y: 0, width: 0, height: 0 };
    let (n1, id1) = place_number_marker(&mut engine, &mut history, b, AnnotationStyle::default());
    let (n2, id2) = place_number_marker(&mut engine, &mut history, b, AnnotationStyle::default());
    assert_eq!((n1, n2), (1, 2));
    assert_ne!(id1, id2);
    assert_eq!(engine.all()[1].id, id2);
    assert_eq!(engine.all()[1].kind, AnnotationKind::NumberMarker(NumberMarkerData { number: 2 }));
    assert!(history.undo(&mut engine, &no_scale));
    assert_eq!(engine.all().len(), 1);
    engine.reset_number_counter();
    assert_eq!(place_number_marker(&mut engine, &mut history, b, AnnotationStyle::default()).0, 1);
}

fn bits(v: f64) -> u64 {
    v.to_bits()
}

#[test]
fn box_sizes_are_the_documented_values() {
    assert_eq!(TEXT_BOX_WIDTH, bits(120.0));
    assert_eq!(TEXT_BOX_HEIGHT, bits(32.0));
    assert_eq!(TIMESTAMP_BOX_WIDTH, bits(160.0));
    assert_eq!(TIMESTAMP_BOX_HEIGHT, bits(24.0));
    assert_eq!(TEXT_FONT_SIZE, 16.0f32.to_bits());
}

#[test]
fn confirm_text_adds_text_or_callout() {
    let mut engine = AnnotationEngine::new();
    let mut history = History::new();
    let pos = Point { x: bits(10.0), y: bits(20.0) };
    let anchor = Point { x: bits(10.0), y: bits(72.0) };
    let style = AnnotationStyle::default();
    assert!(!confirm_text(&mut engine, &mut history, None, String::new(), pos, anchor, ActiveTool::Text, style));
    assert!(engine.all().is_empty());
    assert!(confirm_text(&mut engine, &mut history, None, "hi".to_string(), pos, anchor, ActiveTool::Text, style));
    assert!(confirm_text(&mut engine, &mut history, None, "yo".to_string(), pos, anchor, ActiveTool::Callout, style));
    let all = engine.all();
    assert_eq!(all[0].kind, AnnotationKind::Text(TextData { text: "hi".to_string(), font_size: TEXT_FONT_SIZE }));
    assert_eq!(all[0].bounds, Rect { x: pos.x, y: pos.y, width: TEXT_BOX_WIDTH, height: TEXT_BOX_HEIGHT });
    assert_eq!(all[1].kind, AnnotationKind::Callout(CalloutData { text: "yo".to_string(), anchor }));
    let first = engine.all()[0].id;
    assert!(confirm_text(&mut engine, &mut history, Some(first), "bye".to_string(), pos, anchor, ActiveTool::Text, style));
    assert_eq!(engine.all()[0].kind, AnnotationKind::Text(TextData { text: "bye".to_string(), font_size: TEXT_FONT_SIZE }));
    assert_eq!(engine.all().len(), 2);
}

#[test]
fn timestamp_is_placed_and_undoable() {
    let mut engine = AnnotationEngine::new();
    let mut history = History::new();
    let pos = Point { x: bits(1.0), y: bits(2.0) };
    let id = place_timestamp(&mut engine, &mut history, pos, "2024-01-01 00:00:00".to_string(), AnnotationStyle::default());
    assert_eq!(engine.all()[0].id, id);
    let a = &engine.all()[0];
    assert_eq!(a.bounds, Rect { x: pos.x, y: pos.y, width: TIMESTAMP_BOX_WIDTH, height: TIMESTAMP_BOX_HEIGHT });
    assert!(history.undo(&mut engine, &no_scale));
    assert!(engine.all().is_empty());
}

#[test]
fn text_editor_opens_for_new_and_existing() {
    let mut engine = AnnotationEngine::new();
    let setup = text_editor_setup(&engine, None, ActiveTool::Callout);
    assert_eq!(setup.title, "Add Text");
    assert_eq!(setup.initial_text, None);
    assert_eq!(setup.tool, ActiveTool::Callout);
    engine.add(ann(1, text("a")));
    engine.add(ann(2, AnnotationKind::Callout(CalloutData { text: "c".to_string(), anchor: Point { x: 0, y: 0 } })));
    engine.add(ann(3, AnnotationKind::Rectangle));
    let s1 = text_editor_setup(&engine, Some(1), ActiveTool::Rectangle);
    assert_eq!((s1.title, s1.initial_text, s1.tool), ("Edit Text", Some("a".to_string()), ActiveTool::Text));
    let s2 = text_editor_setup(&engine, Some(2), ActiveTool::Rectangle);
    assert_eq!((s2.initial_text, s2.tool), (Some("c".to_string()), ActiveTool::Callout));
    let s3 = text_editor_setup(&engine, Some(3), ActiveTool::Rectangle);
    assert_eq!((s3.initial_text, s3.tool), (None, ActiveTool::Text));
    let s4 = text_editor_setup(&engine, Some(9), ActiveTool::Rectangle);
    assert_eq!((s4.title, s4.initial_text, s4.tool), ("Edit Text", None, ActiveTool::Text));
}

#[test]
fn timestamp_now_shows_local_date_and_time() {
    let mut engine = AnnotationEngine::new();
    let mut history = History::new();
    let id = place_timestamp_now(&mut engine, &mut history, Point { x: 0, y: 0 }, AnnotationStyle::default());
    assert_eq!(engine.all()[0].id, id);
    let AnnotationKind::Timestamp(data) = &engine.all()[0].kind else {
        panic!("a timestamp was expected");
    };
    let chars: Vec<char> = data.text.chars().collect();
    assert_eq!(chars.len(), 19);
    assert_eq!((chars[4], chars[7], chars[10], chars[13], chars[16]), ('-', '-', ' ', ':', ':'));
    assert!(history.can_undo());
}

#[test]
fn created_annotations_get_fresh_ids() {
    let bounds = Rect { x: 1, y: 2, width: 3, height: 4 };
    let a = Annotation::create(AnnotationKind::Ellipse, bounds, AnnotationStyle::default());
    let b = Annotation::create(AnnotationKind::Ellipse, bounds, AnnotationStyle::default());
    assert_eq!((a.kind.clone(), a.bounds, a.style), (AnnotationKind::Ellipse, bounds, AnnotationStyle::default()));
    assert_ne!(a.id, b.id);
}

#[test]
fn bounds_compare_as_floating_point_numbers() {
    let mut engine = AnnotationEngine::new();
    let mut history = History::new();
    let zero = Rect { x: bits(0.0), y: bits(0.0), width: bits(1.0), height: bits(1.0) };
    engine.add(Annotation { id: 1, kind: AnnotationKind::Rectangle, bounds: zero, style: AnnotationStyle::default() });
    // -0.0 equals 0.0: no change is recorded.
    assert!(!record_bounds_change(&engine, &mut history, 1, Rect { x: bits(-0.0), ..zero }));
    assert!(!history.can_undo());
    // NaN equals nothing, itself included.
    let nan = Rect { x: bits(f64::NAN), ..zero };
    engine.update_bounds(1, nan);
    assert!(record_bounds_change(&engine, &mut history, 1, nan));
}

#[test]
fn styles_compare_as_floating_point_numbers() {
    let mut engine = AnnotationEngine::new();
    let mut history = History::new();
    let base = AnnotationStyle::default();
    engine.add(ann(1, AnnotationKind::Rectangle));
    engine.select(1);
    let negative_zero = AnnotationStyle {
        stroke_color: Color { g: bits(-0.0), ..base.stroke_color },
        ..base
    };
    assert!(!restyle_selected(&mut engine, &mut history, negative_zero));
    assert_eq!(engine.all()[0].style, base);
    let wider = AnnotationStyle { stroke_width: 3.0f32.to_bits(), ..base };
    assert!(restyle_selected(&mut engine, &mut history, wider));
}
