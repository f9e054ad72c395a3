use vstd::prelude::*;

use crate::annotations::model::{Point, Rect};

verus! {

/// The tool chosen in the palette.
#[derive(Clone, Copy, Debug, PartialEq, Eq, Structural)]
pub enum ActiveTool {
    Select,
    Pan,
    Crop,
    Rectangle,
    Ellipse,
    Arrow,
    Line,
    Freehand,
    Text,
    Blur,
    Pixelate,
    Redaction,
    Timestamp,
    NumberMarker,
    Callout,
}

impl Default for ActiveTool {
    fn default() -> (t: Self)
        ensures
            t == ActiveTool::Select,
    {
        ActiveTool::Select
    }
}

impl ActiveTool {
    /// Tools that place their annotation with a click (or a drag shorter than
    /// the drag threshold) rather than by dragging out a shape.
    pub fn creates_on_click(&self) -> (r: bool)
        ensures
            r == (*self == ActiveTool::Text || *self == ActiveTool::Callout || *self == ActiveTool::Timestamp
                || *self == ActiveTool::NumberMarker),
    {
        matches!(self, ActiveTool::Text | ActiveTool::Callout | ActiveTool::Timestamp | ActiveTool::NumberMarker)
    }
}

/// A corner handle of a selection.
#[derive(Clone, Copy, Debug, PartialEq, Eq, Structural)]
pub enum HandleIndex {
    TopLeft,
    TopRight,
    BottomLeft,
    BottomRight,
}

/// What a pointer drag on the canvas is doing.
#[derive(Clone, Debug, PartialEq, Eq, Structural)]
pub enum DrawingState {
    Idle,
    Drawing { start: Point, current: Point },
    Moving { id: u128, drag_start: Point, original_bounds: Rect },
    ResizingHandle { id: u128, handle: HandleIndex, original_bounds: Rect, drag_start: Point },
    EditingText { existing_id: Option<u128>, position: Point },
    CropSelecting { start: Point, current: Point },
    CropMoving { drag_start: Point, original_bounds: Rect },
    CropResizing { handle: HandleIndex, original_bounds: Rect, drag_start: Point },
}

impl Default for DrawingState {
    fn default() -> (s: Self)
        ensures
            s == DrawingState::Idle,
    {
        DrawingState::Idle
    }
}

} // verus!
