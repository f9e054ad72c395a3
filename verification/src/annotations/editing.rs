use vstd::prelude::*;

use crate::annotations::engine::{
    AnnotationEngine, EngineModel, added, editable_text, position_of, removed, style_updated, text_updated,
};
use crate::annotations::history::{AnnotationCommand, CommandModel, History, HistoryModel};
use crate::annotations::tool::ActiveTool;
use crate::annotations::model::{
    Annotation, AnnotationKind, AnnotationModel, AnnotationStyle, CalloutData, KindModel, NumberMarkerData, Point,
    Rect, TextData, random_id, rect_eq, rect_equal, style_eq, style_equal,
};
use crate::text::str_eq;

verus! {

/// `new` is `old` with `c` recorded as the latest command and nothing to redo.
pub open spec fn recorded(old: HistoryModel, new: HistoryModel, c: CommandModel) -> bool {
    new.undo == old.undo.push(c) && new.redo == Seq::<CommandModel>::empty()
}

/// Adds a newly drawn annotation and records the addition for undo.
pub fn commit_new(engine: &mut AnnotationEngine, history: &mut History, ann: Annotation)
    ensures
        final(engine)@ == added(old(engine)@, ann@),
        recorded(old(history)@, final(history)@, CommandModel::Add(ann@)),
{
    engine.add(ann.duplicate());
    history.push(AnnotationCommand::Add(ann));
}

/// Deletes the selected annotation (the first one with the selected id) and
/// records the removal. Returns false, changing nothing, when nothing is
/// selected or no annotation has the selected id.
pub fn delete_selected(engine: &mut AnnotationEngine, history: &mut History) -> (r: bool)
    ensures
        match old(engine)@.selected {
            Some(id) => match position_of(old(engine)@.annotations, id) {
                Some(i) => {
                    &&& r
                    &&& final(engine)@ == removed(old(engine)@, id)
                    &&& recorded(old(history)@, final(history)@, CommandModel::Remove(old(engine)@.annotations[i]))
                },
                None => !r && final(engine)@ == old(engine)@ && final(history)@ == old(history)@,
            },
            None => !r && final(engine)@ == old(engine)@ && final(history)@ == old(history)@,
        },
{
    match engine.selected_id() {
        Some(id) => match engine.remove(id) {
            Some(ann) => {
                history.push(AnnotationCommand::Remove(ann));
                true
            },
            None => false,
        },
        None => false,
    }
}

/// Neither the annotations nor the history changed.
pub open spec fn unchanged(e0: EngineModel, h0: HistoryModel, e1: EngineModel, h1: HistoryModel) -> bool {
    e1 == e0 && h1 == h0
}

/// Editing the text of annotation `id` to `text` took engine `v` and history
/// `h` to `v2` and `h2` with result `r`: the text or callout with `id` got the
/// new text and the change was recorded when the text differs; otherwise (no
/// such annotation, another kind, same text) nothing changed and `r` is false.
pub open spec fn text_edit_effect(
    v: EngineModel,
    h: HistoryModel,
    v2: EngineModel,
    h2: HistoryModel,
    id: u128,
    text: Seq<char>,
    r: bool,
) -> bool {
    match position_of(v.annotations, id) {
        Some(i) => match editable_text(v.annotations[i].kind) {
            Some(t) => if t != text {
                &&& r
                &&& v2 == text_updated(v, id, text)
                &&& recorded(h, h2, CommandModel::UpdateText { id, old_text: t, new_text: text })
            } else {
                !r && unchanged(v, h, v2, h2)
            },
            None => !r && unchanged(v, h, v2, h2),
        },
        None => !r && unchanged(v, h, v2, h2),
    }
}

/// Replaces the text of the text or callout annotation with `id` by `text`
/// and records the change, when the text differs. Returns false, changing
/// nothing, when no such annotation exists, it is of another kind (a timestamp
/// is not edited), or the text is the same.
pub fn commit_text_edit(engine: &mut AnnotationEngine, history: &mut History, id: u128, text: String) -> (r: bool)
    ensures
        text_edit_effect(old(engine)@, old(history)@, final(engine)@, final(history)@, id, text@, r),
{
    let old_text = match engine.annotation_at(id) {
        Some(ann) => match &ann.kind {
            AnnotationKind::Text(d) => Some(d.text.clone()),
            AnnotationKind::Callout(d) => Some(d.text.clone()),
            _ => None,
        },
        None => None,
    };
    match old_text {
        Some(old) => {
            if str_eq(old.as_str(), text.as_str()) {
                return false;
            }
            let new_text = text.clone();
            engine.update_text(id, text);
            history.push(AnnotationCommand::UpdateText { id, old_text: old, new_text });
            true
        },
        None => false,
    }
}

/// Gives the selected annotation `style` and records the change, when the
/// selection names an annotation whose style differs from `style` (compared
/// as floating-point numbers, see [`style_eq`]). Returns
/// false, changing nothing, otherwise; the caller keeps `style` for the next
/// annotations either way.
pub fn restyle_selected(engine: &mut AnnotationEngine, history: &mut History, style: AnnotationStyle) -> (r: bool)
    ensures
        ({
            let v = old(engine)@;
            match v.selected {
                Some(id) => match position_of(v.annotations, id) {
                    Some(i) => if !style_eq(v.annotations[i].style, style) {
                        &&& r
                        &&& final(engine)@ == style_updated(v, id, style)
                        &&& recorded(
                            old(history)@,
                            final(history)@,
                            CommandModel::UpdateStyle { id, old_style: v.annotations[i].style, new_style: style },
                        )
                    } else {
                        !r && final(engine)@ == v && final(history)@ == old(history)@
                    },
                    None => !r && final(engine)@ == v && final(history)@ == old(history)@,
                },
                None => !r && final(engine)@ == v && final(history)@ == old(history)@,
            }
        }),
{
    let id = match engine.selected_id() {
        Some(id) => id,
        None => return false,
    };
    let old_style = match engine.annotation_at(id) {
        Some(ann) => ann.style,
        None => return false,
    };
    if style_equal(old_style, style) {
        return false;
    }
    engine.update_style(id, style);
    history.push(AnnotationCommand::UpdateStyle { id, old_style, new_style: style });
    true
}

/// Records that dragging moved or resized annotation `id` away from
/// `original_bounds`, when the annotation exists and its bounds now differ
/// (compared as floating-point numbers, see [`rect_eq`]). Returns whether a
/// change was recorded; the annotations themselves are left as they are.
pub fn record_bounds_change(
    engine: &AnnotationEngine,
    history: &mut History,
    id: u128,
    original_bounds: Rect,
) -> (r: bool)
    ensures
        match position_of(engine@.annotations, id) {
            Some(i) => if !rect_eq(engine@.annotations[i].bounds, original_bounds) {
                &&& r
                &&& recorded(
                    old(history)@,
                    final(history)@,
                    CommandModel::UpdateBounds {
                        id,
                        old_bounds: original_bounds,
                        new_bounds: engine@.annotations[i].bounds,
                    },
                )
            } else {
                !r && final(history)@ == old(history)@
            },
            None => !r && final(history)@ == old(history)@,
        },
{
    let new_bounds = match engine.annotation_at(id) {
        Some(ann) => ann.bounds,
        None => return false,
    };
    if rect_equal(new_bounds, original_bounds) {
        return false;
    }
    history.push(AnnotationCommand::UpdateBounds { id, old_bounds: original_bounds, new_bounds });
    true
}

/// Places the next numbered marker with `bounds` and `style` under a fresh
/// random id, records the addition and returns the marker's number and id.
/// Markers placed one after another carry consecutive numbers.
pub fn place_number_marker(
    engine: &mut AnnotationEngine,
    history: &mut History,
    bounds: Rect,
    style: AnnotationStyle,
) -> (r: (u32, u128))
    requires
        old(engine)@.next_number < u32::MAX,
    ensures
        r.0 == old(engine)@.next_number,
        ({
            let marker = AnnotationModel {
                id: r.1,
                kind: KindModel::NumberMarker(NumberMarkerData { number: r.0 }),
                bounds,
                style,
            };
            &&& final(engine)@ == added(EngineModel { next_number: (r.0 + 1) as u32, ..old(engine)@ }, marker)
            &&& recorded(old(history)@, final(history)@, CommandModel::Add(marker))
        }),
{
    let n = engine.next_number();
    let id = random_id();
    let ann = Annotation { id, kind: AnnotationKind::NumberMarker(NumberMarkerData { number: n }), bounds, style };
    commit_new(engine, history, ann);
    (n, id)
}

/// Bit pattern of the binary64 width, 120, of a new text or callout box.
pub const TEXT_BOX_WIDTH: u64 = 0x405E_0000_0000_0000;

/// Bit pattern of the binary64 height, 32, of a new text or callout box.
pub const TEXT_BOX_HEIGHT: u64 = 0x4040_0000_0000_0000;

/// Bit pattern of the binary64 width, 160, of a new timestamp box.
pub const TIMESTAMP_BOX_WIDTH: u64 = 0x4064_0000_0000_0000;

/// Bit pattern of the binary64 height, 24, of a new timestamp box.
pub const TIMESTAMP_BOX_HEIGHT: u64 = 0x4038_0000_0000_0000;

/// Bit pattern of the binary32 font size, 16, of new texts and timestamps.
pub const TEXT_FONT_SIZE: u32 = 0x4180_0000;

/// The text annotation the text tools add: a callout aiming at `anchor` with
/// the callout tool, a plain text otherwise, in a box of the standard text
/// size whose top-left corner is `position`.
pub open spec fn new_text_model(
    id: u128,
    text: Seq<char>,
    position: Point,
    anchor: Point,
    tool: ActiveTool,
    style: AnnotationStyle,
) -> AnnotationModel {
    AnnotationModel {
        id,
        kind: if tool == ActiveTool::Callout {
            KindModel::Callout(text, anchor)
        } else {
            KindModel::Text(text, TEXT_FONT_SIZE)
        },
        bounds: Rect { x: position.x, y: position.y, width: TEXT_BOX_WIDTH, height: TEXT_BOX_HEIGHT },
        style,
    }
}

/// Confirms the text editor with `text`. Empty text changes nothing. With
/// `existing`, that annotation's text is edited as [`commit_text_edit`] does;
/// otherwise a new text (or callout, with the callout tool) is added at
/// `position` under a fresh random id and recorded. Returns whether anything
/// changed.
pub fn confirm_text(
    engine: &mut AnnotationEngine,
    history: &mut History,
    existing: Option<u128>,
    text: String,
    position: Point,
    anchor: Point,
    tool: ActiveTool,
    style: AnnotationStyle,
) -> (r: bool)
    ensures
        text@.len() == 0 ==> !r && unchanged(old(engine)@, old(history)@, final(engine)@, final(history)@),
        text@.len() > 0 ==> match existing {
            Some(id) => text_edit_effect(old(engine)@, old(history)@, final(engine)@, final(history)@, id, text@, r),
            None => r && exists|id: u128|
                #![trigger new_text_model(id, text@, position, anchor, tool, style)]
                {
                    &&& final(engine)@ == added(old(engine)@, new_text_model(id, text@, position, anchor, tool, style))
                    &&& recorded(
                        old(history)@,
                        final(history)@,
                        CommandModel::Add(new_text_model(id, text@, position, anchor, tool, style)),
                    )
                },
        },
{
    if text.as_str().unicode_len() == 0 {
        return false;
    }
    match existing {
        Some(id) => commit_text_edit(engine, history, id, text),
        None => {
            let ghost t = text@;
            let id = random_id();
            let bounds = Rect { x: position.x, y: position.y, width: TEXT_BOX_WIDTH, height: TEXT_BOX_HEIGHT };
            let kind = if tool == ActiveTool::Callout {
                AnnotationKind::Callout(CalloutData { text, anchor })
            } else {
                AnnotationKind::Text(TextData { text, font_size: TEXT_FONT_SIZE })
            };
            commit_new(engine, history, Annotation { id, kind, bounds, style });
            assert(engine@ == added(old(engine)@, new_text_model(id, t, position, anchor, tool, style)));
            true
        },
    }
}

/// The timestamp annotation the timestamp tool adds: `text` in a box of the
/// standard timestamp size whose top-left corner is `position`.
pub open spec fn new_timestamp_model(id: u128, text: Seq<char>, position: Point, style: AnnotationStyle) -> AnnotationModel {
    AnnotationModel {
        id,
        kind: KindModel::Timestamp(text, TEXT_FONT_SIZE),
        bounds: Rect { x: position.x, y: position.y, width: TIMESTAMP_BOX_WIDTH, height: TIMESTAMP_BOX_HEIGHT },
        style,
    }
}

/// Adds a timestamp showing `text` at `position` under a fresh random id,
/// records the addition and returns the id.
pub fn place_timestamp(
    engine: &mut AnnotationEngine,
    history: &mut History,
    position: Point,
    text: String,
    style: AnnotationStyle,
) -> (id: u128)
    ensures
        final(engine)@ == added(old(engine)@, new_timestamp_model(id, text@, position, style)),
        recorded(old(history)@, final(history)@, CommandModel::Add(new_timestamp_model(id, text@, position, style))),
{
    let id = random_id();
    let bounds = Rect { x: position.x, y: position.y, width: TIMESTAMP_BOX_WIDTH, height: TIMESTAMP_BOX_HEIGHT };
    let kind = AnnotationKind::Timestamp(TextData { text, font_size: TEXT_FONT_SIZE });
    commit_new(engine, history, Annotation { id, kind, bounds, style });
    id
}

/// strftime pattern of the text of timestamp annotations.
pub const TIMESTAMP_FORMAT: &'static str = "%Y-%m-%d %H:%M:%S";

/// `c` is an ASCII decimal digit.
pub open spec fn is_digit(c: char) -> bool {
    '0' <= c && c <= '9'
}

/// `t` reads as a date and time in the timestamp pattern: a year of at least
/// four characters, then `-MM-DD HH:MM:SS` with two digits in each field.
pub open spec fn timestamp_shaped(t: Seq<char>) -> bool {
    let n = t.len() as int;
    &&& n >= 19
    &&& t[n - 15] == '-' && t[n - 12] == '-' && t[n - 9] == ' ' && t[n - 6] == ':' && t[n - 3] == ':'
    &&& forall|k: int|
        #![trigger t[n - k]]
        1 <= k <= 14 && k != 3 && k != 6 && k != 9 && k != 12 ==> is_digit(t[n - k])
}

/// Calls `chrono::Local::now` and renders the result with `DateTime::format`
/// in `pattern`. Only the timestamp pattern is admitted, which chrono renders
/// without error. The text depends on the clock and the time zone; the
/// contract claims only its shape: chrono writes the year with at least four
/// characters and every other field with two digits, between the pattern's
/// separators.
#[verifier::external_body]
fn local_now_formatted(pattern: &str) -> (r: String)
    requires
        pattern@ == TIMESTAMP_FORMAT@,
    ensures
        timestamp_shaped(r@),
{
    chrono::Local::now().format(pattern).to_string()
}

/// Adds a timestamp showing the current local time, written as
/// [`TIMESTAMP_FORMAT`], at `position` under a fresh random id, records the
/// addition and returns the id. Whatever the time, the engine gains exactly
/// that one timestamp, and its text is shaped as a date and time.
pub fn place_timestamp_now(
    engine: &mut AnnotationEngine,
    history: &mut History,
    position: Point,
    style: AnnotationStyle,
) -> (id: u128)
    ensures
        exists|text: Seq<char>|
            #![trigger new_timestamp_model(id, text, position, style)]
            {
                &&& timestamp_shaped(text)
                &&& final(engine)@ == added(old(engine)@, new_timestamp_model(id, text, position, style))
                &&& recorded(
                    old(history)@,
                    final(history)@,
                    CommandModel::Add(new_timestamp_model(id, text, position, style)),
                )
            },
{
    let text = local_now_formatted(TIMESTAMP_FORMAT);
    let ghost t = text@;
    let id = place_timestamp(engine, history, position, text, style);
    assert(engine@ == added(old(engine)@, new_timestamp_model(id, t, position, style)));
    id
}

/// How the text editor opens: its title, the text it starts with and the tool
/// whose annotation it makes.
#[derive(Clone, Debug)]
pub struct TextEditorSetup {
    pub title: &'static str,
    pub initial_text: Option<String>,
    pub tool: ActiveTool,
}

/// How the text editor opens for editing annotation `existing`, or for a new
/// annotation with `active_tool` when `existing` is `None`: "Edit Text" with the
/// annotation's text (for a text or callout) and the callout tool for a
/// callout, the text tool otherwise; "Add Text", empty, with the active tool
/// for a new one.
pub fn text_editor_setup(engine: &AnnotationEngine, existing: Option<u128>, active_tool: ActiveTool) -> (r:
    TextEditorSetup)
    ensures
        match existing {
            None => r.title@ == "Add Text"@ && r.initial_text is None && r.tool == active_tool,
            Some(id) => {
                &&& r.title@ == "Edit Text"@
                &&& match position_of(engine@.annotations, id) {
                    Some(i) => {
                        let k = engine@.annotations[i].kind;
                        &&& match editable_text(k) {
                            Some(t) => r.initial_text matches Some(s) && s@ == t,
                            None => r.initial_text is None,
                        }
                        &&& r.tool == (if k is Callout {
                            ActiveTool::Callout
                        } else {
                            ActiveTool::Text
                        })
                    },
                    None => r.initial_text is None && r.tool == ActiveTool::Text,
                }
            },
        },
{
    match existing {
        None => TextEditorSetup { title: "Add Text", initial_text: None, tool: active_tool },
        Some(id) => {
            let (initial_text, tool) = match engine.annotation_at(id) {
                Some(ann) => match &ann.kind {
                    AnnotationKind::Text(d) => (Some(d.text.clone()), ActiveTool::Text),
                    AnnotationKind::Callout(d) => (Some(d.text.clone()), ActiveTool::Callout),
                    _ => (None, ActiveTool::Text),
                },
                None => (None, ActiveTool::Text),
            };
            TextEditorSetup { title: "Edit Text", initial_text, tool }
        },
    }
}

impl AnnotationEngine {
    /// An engine holding `annotations` in the given order, nothing selected,
    /// numbering from 1 (as when a project is reopened).
    pub fn from_annotations(annotations: Vec<Annotation>) -> (engine: Self)
        ensures
            engine@ == (EngineModel {
                annotations: crate::annotations::model::models(annotations@),
                selected: None,
                next_number: 1,
            }),
    {
        let mut engine = AnnotationEngine::new();
        let rest = annotations;
        let ghost all = rest@;
        let mut i: usize = 0;
        let n = rest.len();
        proof {
            assert(crate::annotations::model::models(all.subrange(0, 0)) =~= Seq::<AnnotationModel>::empty());
        }
        while i < n
            invariant
                n == all.len(),
                i <= n,
                rest@ == all,
                engine@ == (EngineModel {
                    annotations: crate::annotations::model::models(all.subrange(0, i as int)),
                    selected: None,
                    next_number: 1,
                }),
            decreases n - i,
        {
            engine.add(rest[i].duplicate());
            proof {
                assert(crate::annotations::model::models(all.subrange(0, i + 1)) =~= crate::annotations::model::models(
                    all.subrange(0, i as int),
                ).push(all[i as int]@));
            }
            i = i + 1;
        }
        proof {
            assert(all.subrange(0, n as int) =~= all);
        }
        engine
    }
}

} // verus!
