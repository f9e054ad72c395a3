use screenshot_hero::annotations::engine::AnnotationEngine;
use screenshot_hero::annotations::history::{apply_command, inverse_command, AnnotationCommand, History};
use screenshot_hero::annotations::model::{Annotation, AnnotationKind, AnnotationStyle, FreehandData, Point, Rect, TextData};
use uuid::Uuid;

fn b(v: f64) -> u64 {
    v.to_bits()
}

fn f(v: u64) -> f64 {
    f64::from_bits(v)
}

fn pt(x: f64, y: f64) -> Point {
    Point { x: b(x), y: b(y) }
}

fn rect(x: f64, y: f64, w: f64, h: f64) -> Rect {
    Rect { x: b(x), y: b(y), width: b(w), height: b(h) }
}

fn scale_point_in_rect(p: Point, from: Rect, to: Rect) -> Point {
    let rel_x = if f(from.width) > f64::EPSILON { (f(p.x) - f(from.x)) / f(from.width) } else { 0.0 };
    let rel_y = if f(from.height) > f64::EPSILON { (f(p.y) - f(from.y)) / f(from.height) } else { 0.0 };
    pt(f(to.x) + rel_x * f(to.width), f(to.y) + rel_y * f(to.height))
}

fn sample_annotation() -> Annotation {
    Annotation {
        id: Uuid::new_v4().as_u128(),
        kind: AnnotationKind::Rectangle,
        bounds: rect(0.0, 0.0, 10.0, 10.0),
        style: AnnotationStyle::default(),
    }
}

#[test]
fn push_undo_redo_cycle() {
    let mut engine = AnnotationEngine::new();
    let mut history = History::new();
    let ann = sample_annotation();
    let id = ann.id;

    history.push(AnnotationCommand::Add(ann.clone()));
    apply_command(&mut engine, &AnnotationCommand::Add(ann), &scale_point_in_rect);
    assert_eq!(engine.all().len(), 1);

    assert!(history.can_undo());
    assert!(!history.can_redo());
    assert!(history.undo(&mut engine, &scale_point_in_rect));
    assert!(engine.all().is_empty());
    assert!(history.can_redo());

    assert!(history.redo(&mut engine, &scale_point_in_rect));
    assert_eq!(engine.all().len(), 1);
    assert_eq!(engine.all()[0].id, id);
}

#[test]
fn undo_past_empty_returns_false() {
    let mut engine = AnnotationEngine::new();
    let mut history = History::new();
    assert!(!history.undo(&mut engine, &scale_point_in_rect));
    assert!(!history.redo(&mut engine, &scale_point_in_rect));
}

#[test]
fn new_push_clears_redo_stack() {
    let mut engine = AnnotationEngine::new();
    let mut history = History::new();
    let ann = sample_annotation();

    history.push(AnnotationCommand::Add(ann.clone()));
    apply_command(&mut engine, &AnnotationCommand::Add(ann.clone()), &scale_point_in_rect);
    history.undo(&mut engine, &scale_point_in_rect);
    assert!(history.can_redo());

    let ann2 = sample_annotation();
    history.push(AnnotationCommand::Add(ann2));
    assert!(!history.can_redo());
}

#[test]
fn undo_update_bounds_restores_old_bounds() {
    let mut engine = AnnotationEngine::new();
    let mut history = History::new();
    let ann = sample_annotation();
    let id = ann.id;
    let old_bounds = ann.bounds;
    let new_bounds = rect(5.0, 5.0, 20.0, 20.0);

    engine.add(ann);
    engine.update_bounds(id, new_bounds);
    history.push(AnnotationCommand::UpdateBounds { id, old_bounds, new_bounds });

    history.undo(&mut engine, &scale_point_in_rect);
    assert_eq!(engine.all()[0].bounds, old_bounds);

    history.redo(&mut engine, &scale_point_in_rect);
    assert_eq!(engine.all()[0].bounds, new_bounds);
}

#[test]
fn clear_empties_both_stacks() {
    let mut engine = AnnotationEngine::new();
    let mut history = History::new();
    let ann1 = sample_annotation();
    let ann2 = sample_annotation();

    history.push(AnnotationCommand::Add(ann1.clone()));
    apply_command(&mut engine, &AnnotationCommand::Add(ann1), &scale_point_in_rect);
    history.push(AnnotationCommand::Add(ann2.clone()));
    apply_command(&mut engine, &AnnotationCommand::Add(ann2), &scale_point_in_rect);
    history.undo(&mut engine, &scale_point_in_rect);
    assert!(history.can_undo());
    assert!(history.can_redo());

    history.clear();
    assert!(!history.can_undo());
    assert!(!history.can_redo());
}

#[test]
fn undo_update_text_restores_old_text() {
    let mut engine = AnnotationEngine::new();
    let mut history = History::new();
    let ann = Annotation {
        id: Uuid::new_v4().as_u128(),
        kind: AnnotationKind::Text(TextData { text: "old".to_string(), font_size: 16.0f32.to_bits() }),
        bounds: rect(0.0, 0.0, 10.0, 10.0),
        style: AnnotationStyle::default(),
    };
    let id = ann.id;

    engine.add(ann);
    engine.update_text(id, "new".to_string());
    history.push(AnnotationCommand::UpdateText { id, old_text: "old".to_string(), new_text: "new".to_string() });

    history.undo(&mut engine, &scale_point_in_rect);
    if let AnnotationKind::Text(data) = &engine.all()[0].kind {
        assert_eq!(data.text, "old");
    } else {
        panic!("expected Text variant");
    }
}

#[test]
fn inverse_of_inverse_is_the_command() {
    let c = AnnotationCommand::UpdateText { id: 3, old_text: "a".to_string(), new_text: "b".to_string() };
    let inv = inverse_command(&c);
    assert_eq!(inv, AnnotationCommand::UpdateText { id: 3, old_text: "b".to_string(), new_text: "a".to_string() });
    assert_eq!(inverse_command(&inv), c);
    let ann = sample_annotation();
    assert_eq!(inverse_command(&AnnotationCommand::Add(ann.clone())), AnnotationCommand::Remove(ann));
}

#[test]
fn undo_remove_puts_annotation_back_on_top() {
    let mut engine = AnnotationEngine::new();
    let mut history = History::new();
    let a = sample_annotation();
    let c = sample_annotation();
    engine.add(a.clone());
    engine.add(c.clone());
    let removed = engine.remove(a.id).unwrap();
    history.push(AnnotationCommand::Remove(removed));
    assert!(history.undo(&mut engine, &scale_point_in_rect));
    assert_eq!(engine.all(), &[c, a][..]);
}

#[test]
fn undo_style_restores_old_style() {
    let mut engine = AnnotationEngine::new();
    let mut history = History::new();
    let a = sample_annotation();
    let id = a.id;
    let old_style = a.style;
    let new_style = AnnotationStyle { stroke_width: 7.0f32.to_bits(), ..old_style };
    engine.add(a);
    engine.update_style(id, new_style);
    history.push(AnnotationCommand::UpdateStyle { id, old_style, new_style });
    history.undo(&mut engine, &scale_point_in_rect);
    assert_eq!(engine.all()[0].style, old_style);
    history.redo(&mut engine, &scale_point_in_rect);
    assert_eq!(engine.all()[0].style, new_style);
}

#[test]
fn undo_bounds_rescales_freehand_points() {
    let mut engine = AnnotationEngine::new();
    let mut history = History::new();
    let old_bounds = rect(0.0, 0.0, 10.0, 10.0);
    let new_bounds = rect(0.0, 0.0, 20.0, 20.0);
    engine.add(Annotation {
        id: 1,
        kind: AnnotationKind::Freehand(FreehandData { points: vec![pt(2.0, 4.0), pt(10.0, 10.0)] }),
        bounds: new_bounds,
        style: AnnotationStyle::default(),
    });
    history.push(AnnotationCommand::UpdateBounds { id: 1, old_bounds, new_bounds });
    history.undo(&mut engine, &scale_point_in_rect);
    assert_eq!(engine.all()[0].bounds, old_bounds);
    assert_eq!(
        engine.all()[0].kind,
        AnnotationKind::Freehand(FreehandData { points: vec![pt(1.0, 2.0), pt(5.0, 5.0)] })
    );
}

#[test]
fn default_history_is_empty() {
    let h = History::default();
    assert!(!h.can_undo());
    assert!(!h.can_redo());
}

#[test]
fn redo_after_undo_restores_annotation_list() {
    let mut engine = AnnotationEngine::new();
    let mut history = History::new();
    let a = sample_annotation();
    let b = sample_annotation();
    engine.add(a.clone());
    engine.add(b.clone());
    let removed = engine.remove(a.id).expect("annotation a is there");
    history.push(AnnotationCommand::Remove(removed));
    let before: Vec<Annotation> = engine.all().to_vec();
    assert!(history.undo(&mut engine, &scale_point_in_rect));
    assert_eq!(engine.all().len(), 2);
    assert!(history.redo(&mut engine, &scale_point_in_rect));
    assert_eq!(engine.all().to_vec(), before);
}
