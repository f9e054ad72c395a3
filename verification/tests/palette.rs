use screenshot_hero::annotations::tool::ActiveTool;
use screenshot_hero::palette::{
    palette, separator_after, step_stroke_width, INITIAL_STROKE_WIDTH, MAX_STROKE_WIDTH, MIN_STROKE_WIDTH,
    PALETTE_LEN,
};

#[test]
fn palette_lists_every_tool_once_in_groups() {
    let p = palette();
    assert_eq!(p.len(), PALETTE_LEN);
    assert_eq!(p[0].tool, ActiveTool::Crop);
    assert_eq!(p[0].tooltip, "Crop (double click to apply, Esc to cancel)");
    assert_eq!(p[2].tool, ActiveTool::Select);
    assert_eq!(p[13].icon_file, "number-marker.svg");
    assert_eq!(p[14].tool, ActiveTool::Callout);
    for (i, a) in p.iter().enumerate() {
        for b in &p[i + 1..] {
            assert_ne!(a.tool, b.tool);
        }
    }
    let seps: Vec<usize> = (0..PALETTE_LEN).filter(|&i| separator_after(i)).collect();
    assert_eq!(seps, vec![1, 6, 8, 11]);
}

#[test]
fn stroke_width_steps_within_range() {
    assert_eq!(INITIAL_STROKE_WIDTH, 2);
    assert_eq!(step_stroke_width(2, true), 3);
    assert_eq!(step_stroke_width(2, false), 1);
    assert_eq!(step_stroke_width(MIN_STROKE_WIDTH, false), MIN_STROKE_WIDTH);
    assert_eq!(step_stroke_width(MAX_STROKE_WIDTH, true), MAX_STROKE_WIDTH);
    assert_eq!(step_stroke_width(0, true), 1);
    assert_eq!(step_stroke_width(40, false), MAX_STROKE_WIDTH);
}
