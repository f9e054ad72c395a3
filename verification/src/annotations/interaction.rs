use vstd::prelude::*;

use crate::annotations::engine::{AnnotationEngine, EngineModel, editable_text, is_topmost_hit, position_of};
use crate::annotations::model::{AnnotationKind, ArrowData, FreehandData, KindModel, Point, Rect, F64_ZERO};
use crate::annotations::tool::{ActiveTool, DrawingState, HandleIndex};

verus! {

/// The shape a drag with a drawing tool creates.
#[derive(Debug, Clone, Copy, PartialEq, Eq, Structural)]
pub enum DragShape {
    Rectangle,
    Blur,
    Pixelate,
    Redaction,
    Ellipse,
    Arrow,
    Line,
    Freehand,
}

/// What placing an annotation with `tool` starts.
#[derive(Debug, Clone, Copy, PartialEq, Eq, Structural)]
pub enum CreateAction {
    /// Ask for text, then add a text (or, with the callout tool, a callout).
    OpenTextEditor,
    /// Add a timestamp with the current local time.
    PlaceTimestamp,
    /// Add the next numbered marker.
    PlaceNumberMarker,
    /// Add the shape spanned by the drag.
    Shape(DragShape),
    /// The tool creates nothing.
    Nothing,
}

/// The shape a drag with `tool` spans, if the tool draws one.
pub open spec fn shape_for(tool: ActiveTool) -> Option<DragShape> {
    match tool {
        ActiveTool::Rectangle => Some(DragShape::Rectangle),
        ActiveTool::Blur => Some(DragShape::Blur),
        ActiveTool::Pixelate => Some(DragShape::Pixelate),
        ActiveTool::Redaction => Some(DragShape::Redaction),
        ActiveTool::Ellipse => Some(DragShape::Ellipse),
        ActiveTool::Arrow => Some(DragShape::Arrow),
        ActiveTool::Line => Some(DragShape::Line),
        ActiveTool::Freehand => Some(DragShape::Freehand),
        _ => None,
    }
}

/// What `tool` creates when the pointer is released; `by_click` tells a click
/// (a drag shorter than the threshold) from a drag. Clicks create only with the
/// text, callout, timestamp and marker tools; drags also with shape tools.
pub open spec fn create_action(tool: ActiveTool, by_click: bool) -> CreateAction {
    match tool {
        ActiveTool::Text | ActiveTool::Callout => CreateAction::OpenTextEditor,
        ActiveTool::Timestamp => CreateAction::PlaceTimestamp,
        ActiveTool::NumberMarker => CreateAction::PlaceNumberMarker,
        _ => if by_click {
            CreateAction::Nothing
        } else {
            match shape_for(tool) {
                Some(s) => CreateAction::Shape(s),
                None => CreateAction::Nothing,
            }
        },
    }
}

/// What releasing the pointer with `tool` creates (see [`create_action`]).
pub fn creation_for(tool: ActiveTool, by_click: bool) -> (r: CreateAction)
    ensures
        r == create_action(tool, by_click),
{
    match tool {
        ActiveTool::Text | ActiveTool::Callout => CreateAction::OpenTextEditor,
        ActiveTool::Timestamp => CreateAction::PlaceTimestamp,
        ActiveTool::NumberMarker => CreateAction::PlaceNumberMarker,
        _ => {
            if by_click {
                return CreateAction::Nothing;
            }
            match tool {
                ActiveTool::Rectangle => CreateAction::Shape(DragShape::Rectangle),
                ActiveTool::Blur => CreateAction::Shape(DragShape::Blur),
                ActiveTool::Pixelate => CreateAction::Shape(DragShape::Pixelate),
                ActiveTool::Redaction => CreateAction::Shape(DragShape::Redaction),
                ActiveTool::Ellipse => CreateAction::Shape(DragShape::Ellipse),
                ActiveTool::Arrow => CreateAction::Shape(DragShape::Arrow),
                ActiveTool::Line => CreateAction::Shape(DragShape::Line),
                ActiveTool::Freehand => CreateAction::Shape(DragShape::Freehand),
                _ => CreateAction::Nothing,
            }
        },
    }
}

/// The kind of a box-shaped annotation a drag creates, for the shapes whose
/// geometry is their bounds alone.
pub fn box_kind(shape: DragShape) -> (r: Option<AnnotationKind>)
    ensures
        match shape {
            DragShape::Rectangle => r == Some(AnnotationKind::Rectangle),
            DragShape::Blur => r == Some(AnnotationKind::Blur),
            DragShape::Pixelate => r == Some(AnnotationKind::Pixelate),
            DragShape::Redaction => r == Some(AnnotationKind::Redaction),
            DragShape::Ellipse => r == Some(AnnotationKind::Ellipse),
            _ => r is None,
        },
{
    match shape {
        DragShape::Rectangle => Some(AnnotationKind::Rectangle),
        DragShape::Blur => Some(AnnotationKind::Blur),
        DragShape::Pixelate => Some(AnnotationKind::Pixelate),
        DragShape::Redaction => Some(AnnotationKind::Redaction),
        DragShape::Ellipse => Some(AnnotationKind::Ellipse),
        _ => None,
    }
}

/// The kind of annotation a finished drag of `shape` from `start` to
/// `current` draws: a box of the shape's kind; an arrow or a line from `start`
/// to `current`; a freehand stroke through the recorded `points`, or through
/// `start` and `current` alone when fewer than two points were recorded.
pub open spec fn drag_kind(shape: DragShape, start: Point, current: Point, points: Seq<Point>) -> KindModel {
    match shape {
        DragShape::Rectangle => KindModel::Rectangle,
        DragShape::Blur => KindModel::Blur,
        DragShape::Pixelate => KindModel::Pixelate,
        DragShape::Redaction => KindModel::Redaction,
        DragShape::Ellipse => KindModel::Ellipse,
        DragShape::Arrow => KindModel::Arrow(ArrowData { start, end: current }),
        DragShape::Line => KindModel::Line(ArrowData { start, end: current }),
        DragShape::Freehand => KindModel::Freehand(if points.len() >= 2 { points } else { seq![start, current] }),
    }
}

/// The kind of annotation a finished drag draws (see [`drag_kind`]).
pub fn drag_shape_kind(shape: DragShape, start: Point, current: Point, points: Vec<Point>) -> (k: AnnotationKind)
    ensures
        k@ == drag_kind(shape, start, current, points@),
{
    match shape {
        DragShape::Arrow => AnnotationKind::Arrow(ArrowData { start, end: current }),
        DragShape::Line => AnnotationKind::Line(ArrowData { start, end: current }),
        DragShape::Freehand => {
            let points = if points.len() >= 2 {
                points
            } else {
                let mut two: Vec<Point> = Vec::new();
                two.push(start);
                two.push(current);
                assert(two@ =~= seq![start, current]);
                two
            };
            AnnotationKind::Freehand(FreehandData { points })
        },
        DragShape::Rectangle => AnnotationKind::Rectangle,
        DragShape::Blur => AnnotationKind::Blur,
        DragShape::Pixelate => AnnotationKind::Pixelate,
        DragShape::Redaction => AnnotationKind::Redaction,
        DragShape::Ellipse => AnnotationKind::Ellipse,
    }
}

/// What ending a drag does.
#[derive(Debug, Clone, Copy, PartialEq, Eq, Structural)]
pub enum DragEnd {
    /// Carry out `action` at `start` and `current` (the drag's two ends).
    Create { action: CreateAction, start: Point, current: Point },
    /// Record a bounds change of annotation `id` from `original_bounds`, if its
    /// bounds differ from them now.
    RecordBoundsChange { id: u128, original_bounds: Rect },
    /// Redraw the crop overlay.
    RedrawCrop,
    /// Nothing to do.
    Nothing,
}

/// What ending a drag in state `state` with `tool` does; `short_drag` tells that
/// the pointer moved less than the drag threshold. The drawing state returns to
/// idle in every case.
pub open spec fn drag_end(state: DrawingState, tool: ActiveTool, short_drag: bool) -> DragEnd {
    match state {
        DrawingState::Drawing { start, current } => {
            let action = create_action(tool, short_drag);
            if action == CreateAction::Nothing {
                DragEnd::Nothing
            } else {
                DragEnd::Create { action, start, current }
            }
        },
        DrawingState::Moving { id, original_bounds, .. } => DragEnd::RecordBoundsChange { id, original_bounds },
        DrawingState::ResizingHandle { id, original_bounds, .. } => DragEnd::RecordBoundsChange {
            id,
            original_bounds,
        },
        DrawingState::CropSelecting { .. } | DrawingState::CropMoving { .. } | DrawingState::CropResizing {
            ..
        } => DragEnd::RedrawCrop,
        _ => DragEnd::Nothing,
    }
}

/// What ending a drag does (see [`drag_end`]).
pub fn finish_drag(state: &DrawingState, tool: ActiveTool, short_drag: bool) -> (r: DragEnd)
    ensures
        r == drag_end(*state, tool, short_drag),
{
    match state {
        DrawingState::Drawing { start, current } => {
            let action = creation_for(tool, short_drag);
            if action == CreateAction::Nothing {
                DragEnd::Nothing
            } else {
                DragEnd::Create { action, start: *start, current: *current }
            }
        },
        DrawingState::Moving { id, original_bounds, .. } => DragEnd::RecordBoundsChange {
            id: *id,
            original_bounds: *original_bounds,
        },
        DrawingState::ResizingHandle { id, original_bounds, .. } => DragEnd::RecordBoundsChange {
            id: *id,
            original_bounds: *original_bounds,
        },
        DrawingState::CropSelecting { .. } | DrawingState::CropMoving { .. } | DrawingState::CropResizing {
            ..
        } => DragEnd::RedrawCrop,
        _ => DragEnd::Nothing,
    }
}

/// The pointer cursor shown for `tool`: a grab hand for panning, a crosshair
/// for cropping, the default otherwise.
pub fn cursor_for_tool(tool: ActiveTool) -> (r: Option<&'static str>)
    ensures
        tool == ActiveTool::Pan ==> (r matches Some(n) && n@ == "grab"@),
        tool == ActiveTool::Crop ==> (r matches Some(n) && n@ == "crosshair"@),
        tool != ActiveTool::Pan && tool != ActiveTool::Crop ==> r is None,
{
    match tool {
        ActiveTool::Pan => Some("grab"),
        ActiveTool::Crop => Some("crosshair"),
        _ => None,
    }
}

/// The empty rectangle at `p` a new crop selection starts as.
pub open spec fn zero_rect_at(p: Point) -> Rect {
    Rect { x: p.x, y: p.y, width: F64_ZERO, height: F64_ZERO }
}

/// How a drag with the crop tool starting at `p` begins, given the current
/// crop selection `crop`: on a handle of it, resizing; inside it, moving it;
/// elsewhere (or with no selection), a new selection from `p`. `handle_at`
/// and `contains` are the outcomes the geometry gave for `crop` and `p`.
pub open spec fn crop_drag_start(
    crop: Option<Rect>,
    p: Point,
    handle: Option<HandleIndex>,
    inside: bool,
) -> (DrawingState, Option<Rect>) {
    match crop {
        Some(b) => match handle {
            Some(h) => (DrawingState::CropResizing { handle: h, original_bounds: b, drag_start: p }, None),
            None => if inside {
                (DrawingState::CropMoving { drag_start: p, original_bounds: b }, None)
            } else {
                (DrawingState::CropSelecting { start: p, current: p }, Some(zero_rect_at(p)))
            },
        },
        None => (DrawingState::CropSelecting { start: p, current: p }, Some(zero_rect_at(p))),
    }
}

/// Starts a drag at image point `p` with `tool`. Returns the drawing state to
/// enter (`None` with the pan tool, which pans the view instead) and the crop
/// selection to set, if it changes. With the select tool, the topmost
/// annotation under `p` is resized when `p` is on one of its handles, and
/// otherwise selected and moved; with no annotation under `p` the selection is
/// cleared. Any other tool starts drawing at `p`. `handle_at(bounds, p)` finds
/// the handle of `bounds` at `p`; `contains(bounds, p)` tells whether `p` lies
/// in `bounds`.
pub fn begin_drag<H: Fn(Rect, Point) -> Option<HandleIndex>, C: Fn(Rect, Point) -> bool>(
    engine: &mut AnnotationEngine,
    tool: ActiveTool,
    p: Point,
    crop: Option<Rect>,
    handle_at: &H,
    contains: &C,
) -> (r: (Option<DrawingState>, Option<Rect>))
    requires
        forall|b: Rect, q: Point| call_requires(*handle_at, (b, q)),
        forall|b: Rect, q: Point| call_requires(*contains, (b, q)),
    ensures
        tool != ActiveTool::Select ==> final(engine)@ == old(engine)@,
        tool == ActiveTool::Pan ==> r == (None::<DrawingState>, None::<Rect>),
        tool == ActiveTool::Crop ==> r.0 is Some && (exists|h: Option<HandleIndex>, inside: bool|
            #![trigger crop_drag_start(crop, p, h, inside)]
            {
            &&& (crop matches Some(b) ==> call_ensures(*handle_at, (b, p), h))
            &&& (crop matches Some(b) ==> (h is None ==> call_ensures(*contains, (b, p), inside)))
            &&& (r.0->0, r.1) == crop_drag_start(crop, p, h, inside)
        }),
        tool == ActiveTool::Select ==> match r.0 {
            Some(DrawingState::ResizingHandle { id, handle, original_bounds, drag_start }) => {
                &&& drag_start == p
                &&& r.1 is None
                &&& final(engine)@ == old(engine)@
                &&& exists|i: int| #[trigger] is_topmost_hit(old(engine)@.annotations, *contains, p, i)
                    && old(engine)@.annotations[i].id == id
                &&& position_of(old(engine)@.annotations, id) matches Some(j)
                    && original_bounds == old(engine)@.annotations[j].bounds
                &&& call_ensures(*handle_at, (original_bounds, p), Some(handle))
            },
            Some(DrawingState::Moving { id, drag_start, original_bounds }) => {
                &&& drag_start == p
                &&& r.1 is None
                &&& final(engine)@ == (EngineModel { selected: Some(id), ..old(engine)@ })
                &&& exists|i: int| #[trigger] is_topmost_hit(old(engine)@.annotations, *contains, p, i)
                    && old(engine)@.annotations[i].id == id
                &&& position_of(old(engine)@.annotations, id) matches Some(j)
                    && original_bounds == old(engine)@.annotations[j].bounds
                &&& call_ensures(*handle_at, (original_bounds, p), None::<HandleIndex>)
            },
            Some(DrawingState::Idle) => {
                &&& r.1 is None
                &&& final(engine)@ == (EngineModel { selected: None, ..old(engine)@ })
                &&& forall|j: int| 0 <= j < old(engine)@.annotations.len()
                    ==> call_ensures(*contains, (#[trigger] old(engine)@.annotations[j].bounds, p), false)
            },
            _ => false,
        },
        tool != ActiveTool::Pan && tool != ActiveTool::Crop && tool != ActiveTool::Select ==> r == (
            Some(DrawingState::Drawing { start: p, current: p }),
            None::<Rect>,
        ),
{
    match tool {
        ActiveTool::Pan => (None, None),
        ActiveTool::Crop => {
            let zero = Rect { x: p.x, y: p.y, width: F64_ZERO, height: F64_ZERO };
            match crop {
                Some(b) => {
                    let h = handle_at(b, p);
                    match h {
                        Some(handle) => {
                            let r = (Some(DrawingState::CropResizing { handle, original_bounds: b, drag_start: p }), None);
                            assert(crop_drag_start(crop, p, h, false) == (r.0->0, r.1));
                            r
                        },
                        None => {
                            let inside = contains(b, p);
                            if inside {
                                let r = (Some(DrawingState::CropMoving { drag_start: p, original_bounds: b }), None);
                                assert(crop_drag_start(crop, p, h, inside) == (r.0->0, r.1));
                                r
                            } else {
                                let r = (Some(DrawingState::CropSelecting { start: p, current: p }), Some(zero));
                                assert(crop_drag_start(crop, p, h, inside) == (r.0->0, r.1));
                                r
                            }
                        },
                    }
                },
                None => {
                    let r = (Some(DrawingState::CropSelecting { start: p, current: p }), Some(zero));
                    assert(crop_drag_start(crop, p, None, false) == (r.0->0, r.1));
                    r
                },
            }
        },
        ActiveTool::Select => {
            match engine.hit_test(p, contains) {
                Some(id) => {
                    let bounds = match engine.annotation_at(id) {
                        Some(ann) => ann.bounds,
                        None => {
                            proof {
                                let i = choose|i: int| #[trigger] is_topmost_hit(engine@.annotations, *contains, p, i)
                                    && engine@.annotations[i].id == id;
                                crate::annotations::engine::lemma_position_of_exists(engine@.annotations, id, i);
                            }
                            return (Some(DrawingState::Idle), None);
                        },
                    };
                    match handle_at(bounds, p) {
                        Some(handle) => (
                            Some(DrawingState::ResizingHandle { id, handle, original_bounds: bounds, drag_start: p }),
                            None,
                        ),
                        None => {
                            engine.select(id);
                            (Some(DrawingState::Moving { id, drag_start: p, original_bounds: bounds }), None)
                        },
                    }
                },
                None => {
                    engine.deselect();
                    (Some(DrawingState::Idle), None)
                },
            }
        },
        _ => (Some(DrawingState::Drawing { start: p, current: p }), None),
    }
}

/// The text or callout to edit after a double click at `p`: the topmost
/// annotation under `p`, when it is a text or a callout.
pub fn text_to_edit_at<C: Fn(Rect, Point) -> bool>(engine: &AnnotationEngine, p: Point, contains: &C) -> (r: Option<
    u128,
>)
    requires
        forall|b: Rect, q: Point| call_requires(*contains, (b, q)),
    ensures
        match r {
            Some(id) => {
                &&& exists|i: int| #[trigger] is_topmost_hit(engine@.annotations, *contains, p, i)
                    && engine@.annotations[i].id == id
                &&& position_of(engine@.annotations, id) matches Some(j)
                    && (engine@.annotations[j].kind is Text || engine@.annotations[j].kind is Callout)
            },
            None => (forall|j: int| 0 <= j < engine@.annotations.len()
                ==> call_ensures(*contains, (#[trigger] engine@.annotations[j].bounds, p), false))
                || (exists|i: int| #[trigger] is_topmost_hit(engine@.annotations, *contains, p, i)
                && (position_of(engine@.annotations, engine@.annotations[i].id) matches Some(j)
                && !(engine@.annotations[j].kind is Text || engine@.annotations[j].kind is Callout))),
        },
{
    match engine.hit_test(p, contains) {
        Some(id) => match engine.annotation_at(id) {
            Some(ann) => match &ann.kind {
                AnnotationKind::Text(_) | AnnotationKind::Callout(_) => Some(id),
                _ => None,
            },
            None => {
                proof {
                    let i = choose|i: int| #[trigger] is_topmost_hit(engine@.annotations, *contains, p, i)
                        && engine@.annotations[i].id == id;
                    crate::annotations::engine::lemma_position_of_exists(engine@.annotations, id, i);
                }
                None
            },
        },
        None => None,
    }
}

/// Handles the Escape key: with the crop tool the crop selection is dropped
/// (returns true, the annotations stay as they are); otherwise the selection
/// is cleared (returns false). Either way the drawing state returns to idle.
pub fn escape(engine: &mut AnnotationEngine, tool: ActiveTool) -> (clear_crop: bool)
    ensures
        clear_crop == (tool == ActiveTool::Crop),
        clear_crop ==> final(engine)@ == old(engine)@,
        !clear_crop ==> final(engine)@ == (EngineModel { selected: None, ..old(engine)@ }),
{
    if tool == ActiveTool::Crop {
        true
    } else {
        engine.deselect();
        false
    }
}

/// The tool that draws annotations of kind `k`.
pub open spec fn tool_for_kind(k: KindModel) -> ActiveTool {
    match k {
        KindModel::Rectangle => ActiveTool::Rectangle,
        KindModel::Ellipse => ActiveTool::Ellipse,
        KindModel::Arrow(_) => ActiveTool::Arrow,
        KindModel::Line(_) => ActiveTool::Line,
        KindModel::Freehand(_) => ActiveTool::Freehand,
        KindModel::Text(_, _) => ActiveTool::Text,
        KindModel::Blur => ActiveTool::Blur,
        KindModel::Pixelate => ActiveTool::Pixelate,
        KindModel::Redaction => ActiveTool::Redaction,
        KindModel::Timestamp(_, _) => ActiveTool::Timestamp,
        KindModel::NumberMarker(_) => ActiveTool::NumberMarker,
        KindModel::Callout(_, _) => ActiveTool::Callout,
    }
}

/// A drag with a tool that draws a shape creates an annotation of that
/// tool's own kind (an arrow tool draws arrows, not lines), and every drawn
/// shape is the one its own tool's drag creates.
pub proof fn law_drag_draws_the_tools_kind(
    t: ActiveTool,
    s: DragShape,
    start: Point,
    current: Point,
    points: Seq<Point>,
)
    ensures
        (create_action(t, false) matches CreateAction::Shape(shape) ==> tool_for_kind(
            drag_kind(shape, start, current, points),
        ) == t),
        (create_action(tool_for_kind(drag_kind(s, start, current, points)), false) == CreateAction::Shape(s)),
{
}

/// A drag that moved or resized an annotation ends by recording the change of
/// that annotation's bounds from where the drag found them, whatever the tool
/// and however short the drag: moves and resizes are both undoable.
pub proof fn law_move_and_resize_are_recorded(
    id: u128,
    handle: HandleIndex,
    original_bounds: Rect,
    drag_start: Point,
    tool: ActiveTool,
    short_drag: bool,
)
    ensures
        (drag_end(DrawingState::Moving { id, drag_start, original_bounds }, tool, short_drag)
            == DragEnd::RecordBoundsChange { id, original_bounds }),
        (drag_end(DrawingState::ResizingHandle { id, handle, original_bounds, drag_start }, tool, short_drag)
            == DragEnd::RecordBoundsChange { id, original_bounds }),
{
}

} // verus!
