use vstd::prelude::*;

use crate::annotations::tool::ActiveTool;

verus! {

/// One button of the tool palette: the tool it picks, its icon file (under the
/// tool icon directory) and its tooltip.
#[derive(Clone, Copy, Debug, PartialEq, Eq)]
pub struct PaletteEntry {
    pub tool: ActiveTool,
    pub icon_file: &'static str,
    pub tooltip: &'static str,
}

/// Number of buttons in the tool palette.
pub const PALETTE_LEN: usize = 15;

/// The tool of the palette's button at `index`, top to bottom: navigation
/// (crop, pan), selection, shapes, drawing, effects, labels.
pub open spec fn palette_tool(index: int) -> ActiveTool {
    if index == 0 {
        ActiveTool::Crop
    } else if index == 1 {
        ActiveTool::Pan
    } else if index == 2 {
        ActiveTool::Select
    } else if index == 3 {
        ActiveTool::Rectangle
    } else if index == 4 {
        ActiveTool::Ellipse
    } else if index == 5 {
        ActiveTool::Arrow
    } else if index == 6 {
        ActiveTool::Line
    } else if index == 7 {
        ActiveTool::Freehand
    } else if index == 8 {
        ActiveTool::Text
    } else if index == 9 {
        ActiveTool::Blur
    } else if index == 10 {
        ActiveTool::Pixelate
    } else if index == 11 {
        ActiveTool::Redaction
    } else if index == 12 {
        ActiveTool::Timestamp
    } else if index == 13 {
        ActiveTool::NumberMarker
    } else {
        ActiveTool::Callout
    }
}

/// The icon file of the button for `tool`.
pub open spec fn palette_icon(tool: ActiveTool) -> Seq<char> {
    match tool {
        ActiveTool::Crop => "crop.svg"@,
        ActiveTool::Pan => "pan.svg"@,
        ActiveTool::Select => "select.svg"@,
        ActiveTool::Rectangle => "rectangle.svg"@,
        ActiveTool::Ellipse => "ellipse.svg"@,
        ActiveTool::Arrow => "arrow.svg"@,
        ActiveTool::Line => "line.svg"@,
        ActiveTool::Freehand => "freehand.svg"@,
        ActiveTool::Text => "text.svg"@,
        ActiveTool::Blur => "blur.svg"@,
        ActiveTool::Pixelate => "pixelate.svg"@,
        ActiveTool::Redaction => "redaction.svg"@,
        ActiveTool::Timestamp => "timestamp.svg"@,
        ActiveTool::NumberMarker => "number-marker.svg"@,
        ActiveTool::Callout => "callout.svg"@,
    }
}

/// The tooltip of the button for `tool`.
pub open spec fn palette_tooltip(tool: ActiveTool) -> Seq<char> {
    match tool {
        ActiveTool::Crop => "Crop (double click to apply, Esc to cancel)"@,
        ActiveTool::Pan => "Pan"@,
        ActiveTool::Select => "Select"@,
        ActiveTool::Rectangle => "Rectangle"@,
        ActiveTool::Ellipse => "Ellipse"@,
        ActiveTool::Arrow => "Arrow"@,
        ActiveTool::Line => "Line"@,
        ActiveTool::Freehand => "Freehand"@,
        ActiveTool::Text => "Text"@,
        ActiveTool::Blur => "Blur"@,
        ActiveTool::Pixelate => "Pixelate"@,
        ActiveTool::Redaction => "Redaction"@,
        ActiveTool::Timestamp => "Timestamp"@,
        ActiveTool::NumberMarker => "Number Marker"@,
        ActiveTool::Callout => "Callout"@,
    }
}

/// The button for `tool`.
fn entry(tool: ActiveTool) -> (e: PaletteEntry)
    ensures
        e.tool == tool,
        e.icon_file@ == palette_icon(tool),
        e.tooltip@ == palette_tooltip(tool),
{
    let (icon_file, tooltip) = match tool {
        ActiveTool::Crop => ("crop.svg", "Crop (double click to apply, Esc to cancel)"),
        ActiveTool::Pan => ("pan.svg", "Pan"),
        ActiveTool::Select => ("select.svg", "Select"),
        ActiveTool::Rectangle => ("rectangle.svg", "Rectangle"),
        ActiveTool::Ellipse => ("ellipse.svg", "Ellipse"),
        ActiveTool::Arrow => ("arrow.svg", "Arrow"),
        ActiveTool::Line => ("line.svg", "Line"),
        ActiveTool::Freehand => ("freehand.svg", "Freehand"),
        ActiveTool::Text => ("text.svg", "Text"),
        ActiveTool::Blur => ("blur.svg", "Blur"),
        ActiveTool::Pixelate => ("pixelate.svg", "Pixelate"),
        ActiveTool::Redaction => ("redaction.svg", "Redaction"),
        ActiveTool::Timestamp => ("timestamp.svg", "Timestamp"),
        ActiveTool::NumberMarker => ("number-marker.svg", "Number Marker"),
        ActiveTool::Callout => ("callout.svg", "Callout"),
    };
    PaletteEntry { tool, icon_file, tooltip }
}

/// The palette's buttons, top to bottom.
pub fn palette() -> (v: Vec<PaletteEntry>)
    ensures
        v.len() == PALETTE_LEN,
        forall|i: int|
            0 <= i < v.len() ==> {
                &&& (#[trigger] v@[i]).tool == palette_tool(i)
                &&& v@[i].icon_file@ == palette_icon(palette_tool(i))
                &&& v@[i].tooltip@ == palette_tooltip(palette_tool(i))
            },
{
    let tools = [
        ActiveTool::Crop,
        ActiveTool::Pan,
        ActiveTool::Select,
        ActiveTool::Rectangle,
        ActiveTool::Ellipse,
        ActiveTool::Arrow,
        ActiveTool::Line,
        ActiveTool::Freehand,
        ActiveTool::Text,
        ActiveTool::Blur,
        ActiveTool::Pixelate,
        ActiveTool::Redaction,
        ActiveTool::Timestamp,
        ActiveTool::NumberMarker,
        ActiveTool::Callout,
    ];
    let mut v: Vec<PaletteEntry> = Vec::new();
    let mut i: usize = 0;
    while i < PALETTE_LEN
        invariant
            i <= PALETTE_LEN,
            v.len() == i,
            forall|k: int| 0 <= k < 15 ==> #[trigger] tools@[k] == palette_tool(k),
            forall|k: int|
                0 <= k < i ==> {
                    &&& (#[trigger] v@[k]).tool == palette_tool(k)
                    &&& v@[k].icon_file@ == palette_icon(palette_tool(k))
                    &&& v@[k].tooltip@ == palette_tooltip(palette_tool(k))
                },
        decreases PALETTE_LEN - i,
    {
        v.push(entry(tools[i]));
        i = i + 1;
    }
    v
}

/// Whether a separator follows the palette's button at `index`: after the
/// navigation tools, the shapes, the drawing tools and the effects.
pub fn separator_after(index: usize) -> (r: bool)
    ensures
        r == (index == 1 || index == 6 || index == 8 || index == 11),
{
    index == 1 || index == 6 || index == 8 || index == 11
}

/// Thinnest stroke width the palette offers.
pub const MIN_STROKE_WIDTH: u32 = 1;

/// Widest stroke width the palette offers.
pub const MAX_STROKE_WIDTH: u32 = 20;

/// Stroke width the palette starts with.
pub const INITIAL_STROKE_WIDTH: u32 = 2;

/// The stroke width after pressing `+` (`increase`) or `-` at width `current`:
/// one more or one less, kept within the offered range.
pub open spec fn stepped_stroke_width(current: int, increase: bool) -> int {
    let w = if increase { current + 1 } else { current - 1 };
    if w < MIN_STROKE_WIDTH {
        MIN_STROKE_WIDTH as int
    } else if w > MAX_STROKE_WIDTH {
        MAX_STROKE_WIDTH as int
    } else {
        w
    }
}

/// The stroke width after pressing `+` or `-` (see [`stepped_stroke_width`]);
/// it always lies within the offered range.
pub fn step_stroke_width(current: u32, increase: bool) -> (r: u32)
    ensures
        r == stepped_stroke_width(current as int, increase),
        MIN_STROKE_WIDTH <= r <= MAX_STROKE_WIDTH,
{
    if increase {
        if current >= MAX_STROKE_WIDTH {
            MAX_STROKE_WIDTH
        } else if current < MIN_STROKE_WIDTH {
            MIN_STROKE_WIDTH
        } else {
            current + 1
        }
    } else {
        if current <= MIN_STROKE_WIDTH {
            MIN_STROKE_WIDTH
        } else if current > MAX_STROKE_WIDTH + 1 {
            MAX_STROKE_WIDTH
        } else {
            current - 1
        }
    }
}

} // verus!
