use vstd::prelude::*;

use crate::annotations::engine::{
    EngineModel, is_first_with_id, lemma_position_of_exists, lemma_position_of_first, lemma_position_of_same_ids,
    maps_point, position_of, text_of,
};
use crate::annotations::history::{CommandModel, HistoryModel, after_redo, after_undo, applied, inverse};
use crate::annotations::model::{AnnotationModel, AnnotationStyle, KindModel, Point, Rect};

verus! {

/// Reverting a revert gives the command itself back.
pub proof fn law_inverse_is_involution(c: CommandModel)
    ensures
        inverse(inverse(c)) == c,
{
}

/// A redo right after an undo restores both stacks.
pub proof fn law_redo_reverts_undo(h: HistoryModel)
    requires
        h.undo.len() > 0,
    ensures
        after_redo(after_undo(h)) == h,
{
    let h1 = after_undo(h);
    assert(h1.redo.last() == inverse(h.undo.last()));
    assert(after_redo(h1).undo =~= h.undo);
    assert(after_redo(h1).redo =~= h.redo);
}

/// An undo right after a redo restores both stacks.
pub proof fn law_undo_reverts_redo(h: HistoryModel)
    requires
        h.redo.len() > 0,
    ensures
        after_undo(after_redo(h)) == h,
{
    let h1 = after_redo(h);
    assert(h1.undo.last() == inverse(h.redo.last()));
    assert(after_undo(h1).undo =~= h.undo);
    assert(after_undo(h1).redo =~= h.redo);
}

/// Recording a command and undoing it leaves the earlier undo stack and exactly
/// the command's inverse on the redo stack.
pub proof fn law_undo_after_push(h: HistoryModel, c: CommandModel)
    ensures
        after_undo(HistoryModel { undo: h.undo.push(c), redo: Seq::empty() }) == (HistoryModel {
            undo: h.undo,
            redo: seq![inverse(c)],
        }),
{
    let h1 = HistoryModel { undo: h.undo.push(c), redo: Seq::<CommandModel>::empty() };
    assert(after_undo(h1).undo =~= h.undo);
    assert(after_undo(h1).redo =~= seq![inverse(c)]);
}

/// Undoing the addition of an annotation whose id is new to the engine (and is
/// not the selected id) gives back the engine as it was.
pub proof fn law_undo_add_restores<F: Fn(Point, Rect, Rect) -> Point>(
    v: EngineModel,
    v1: EngineModel,
    v2: EngineModel,
    a: AnnotationModel,
    f: F,
)
    requires
        position_of(v.annotations, a.id) is None,
        v.selected != Some(a.id),
        applied(v, v1, CommandModel::Add(a), f),
        applied(v1, v2, inverse(CommandModel::Add(a)), f),
    ensures
        v2 == v,
{
    let n = v.annotations.len() as int;
    assert forall|j: int| 0 <= j < n implies v.annotations[j].id != a.id by {
        if v.annotations[j].id == a.id {
            lemma_position_of_exists(v.annotations, a.id, j);
        }
    }
    assert(is_first_with_id(v1.annotations, a.id, n));
    lemma_position_of_first(v1.annotations, a.id, n);
    assert(v2.annotations =~= v.annotations);
}

/// Undoing the removal of the first annotation with its id puts that same
/// annotation back, on top of the others: the engine holds the same annotations
/// as before (as a multiset), and its counter is unchanged.
pub proof fn law_undo_remove_restores<F: Fn(Point, Rect, Rect) -> Point>(
    v: EngineModel,
    v1: EngineModel,
    v2: EngineModel,
    a: AnnotationModel,
    i: int,
    f: F,
)
    requires
        position_of(v.annotations, a.id) == Some(i),
        v.annotations[i] == a,
        applied(v, v1, CommandModel::Remove(a), f),
        applied(v1, v2, inverse(CommandModel::Remove(a)), f),
    ensures
        v2.annotations == v.annotations.remove(i).push(a),
        v2.annotations.to_multiset() == v.annotations.to_multiset(),
        v2.next_number == v.next_number,
{
    broadcast use vstd::seq_lib::group_to_multiset_ensures;
    assert(is_first_with_id(v.annotations, a.id, i));
    let r = v.annotations.remove(i);
    assert(v.annotations =~= v.annotations.subrange(0, i) + seq![a] + v.annotations.subrange(i + 1, v.annotations.len() as int));
    assert(r =~= v.annotations.subrange(0, i) + v.annotations.subrange(i + 1, v.annotations.len() as int));
    vstd::seq_lib::lemma_multiset_commutative(v.annotations.subrange(0, i) + seq![a], v.annotations.subrange(i + 1, v.annotations.len() as int));
    vstd::seq_lib::lemma_multiset_commutative(v.annotations.subrange(0, i), seq![a]);
    vstd::seq_lib::lemma_multiset_commutative(r, seq![a]);
    vstd::seq_lib::lemma_multiset_commutative(v.annotations.subrange(0, i), v.annotations.subrange(i + 1, v.annotations.len() as int));
    assert(r.push(a) =~= r + seq![a]);
}

/// Undoing a style change of an annotation whose style was the command's old
/// style gives back the engine as it was.
pub proof fn law_undo_style_restores<F: Fn(Point, Rect, Rect) -> Point>(
    v: EngineModel,
    v1: EngineModel,
    v2: EngineModel,
    id: u128,
    old_style: AnnotationStyle,
    new_style: AnnotationStyle,
    i: int,
    f: F,
)
    requires
        position_of(v.annotations, id) == Some(i),
        v.annotations[i].style == old_style,
        applied(v, v1, CommandModel::UpdateStyle { id, old_style, new_style }, f),
        applied(v1, v2, inverse(CommandModel::UpdateStyle { id, old_style, new_style }), f),
    ensures
        v2 == v,
{
    assert(is_first_with_id(v.annotations, id, i));
    lemma_position_of_same_ids(v.annotations, v1.annotations, id);
    assert(v2.annotations =~= v.annotations);
}

/// Undoing a text change of an annotation whose text was the command's old text
/// (or which holds no text) gives back the engine as it was.
pub proof fn law_undo_text_restores<F: Fn(Point, Rect, Rect) -> Point>(
    v: EngineModel,
    v1: EngineModel,
    v2: EngineModel,
    id: u128,
    old_text: Seq<char>,
    new_text: Seq<char>,
    i: int,
    f: F,
)
    requires
        position_of(v.annotations, id) == Some(i),
        text_of(v.annotations[i].kind) is None || text_of(v.annotations[i].kind) == Some(old_text),
        applied(v, v1, CommandModel::UpdateText { id, old_text, new_text }, f),
        applied(v1, v2, inverse(CommandModel::UpdateText { id, old_text, new_text }), f),
    ensures
        v2 == v,
{
    assert(is_first_with_id(v.annotations, id, i));
    lemma_position_of_same_ids(v.annotations, v1.annotations, id);
    assert(v2.annotations =~= v.annotations);
}

/// Undoing a bounds change of an annotation whose bounds were the command's old
/// bounds restores those bounds; id, style and every other annotation are as
/// they were.
pub proof fn law_undo_bounds_restores_bounds<F: Fn(Point, Rect, Rect) -> Point>(
    v: EngineModel,
    v1: EngineModel,
    v2: EngineModel,
    id: u128,
    old_bounds: Rect,
    new_bounds: Rect,
    i: int,
    f: F,
)
    requires
        position_of(v.annotations, id) == Some(i),
        v.annotations[i].bounds == old_bounds,
        applied(v, v1, CommandModel::UpdateBounds { id, old_bounds, new_bounds }, f),
        applied(v1, v2, inverse(CommandModel::UpdateBounds { id, old_bounds, new_bounds }), f),
    ensures
        v2.annotations.len() == v.annotations.len(),
        v2.annotations[i].bounds == old_bounds,
        v2.annotations[i].id == id,
        v2.annotations[i].style == v.annotations[i].style,
        forall|j: int| 0 <= j < v.annotations.len() && j != i ==> v2.annotations[j] == v.annotations[j],
        v2.selected == v.selected,
        v2.next_number == v.next_number,
{
    assert(is_first_with_id(v.annotations, id, i));
    lemma_position_of_same_ids(v.annotations, v1.annotations, id);
}

/// When rescaling from the old bounds to the new ones and back returns every
/// point, undoing a bounds change of an annotation whose bounds were the
/// command's old bounds gives back the engine exactly.
pub proof fn law_undo_bounds_restores<F: Fn(Point, Rect, Rect) -> Point>(
    v: EngineModel,
    v1: EngineModel,
    v2: EngineModel,
    id: u128,
    old_bounds: Rect,
    new_bounds: Rect,
    i: int,
    f: F,
)
    requires
        position_of(v.annotations, id) == Some(i),
        v.annotations[i].bounds == old_bounds,
        forall|p: Point, q: Point, r: Point|
            maps_point(f, old_bounds, new_bounds, p, q) && maps_point(f, new_bounds, old_bounds, q, r) ==> r == p,
        applied(v, v1, CommandModel::UpdateBounds { id, old_bounds, new_bounds }, f),
        applied(v1, v2, inverse(CommandModel::UpdateBounds { id, old_bounds, new_bounds }), f),
    ensures
        v2 == v,
{
    assert(is_first_with_id(v.annotations, id, i));
    lemma_position_of_same_ids(v.annotations, v1.annotations, id);
    let k0 = v.annotations[i].kind;
    let k1 = v1.annotations[i].kind;
    let k2 = v2.annotations[i].kind;
    match k0 {
        KindModel::Freehand(ps) => {
            let qs = k1->Freehand_0;
            let rs = k2->Freehand_0;
            assert forall|m: int| 0 <= m < ps.len() implies rs[m] == ps[m] by {
                assert(maps_point(f, old_bounds, new_bounds, ps[m], qs[m]));
                assert(maps_point(f, new_bounds, old_bounds, qs[m], rs[m]));
            }
            assert(rs =~= ps);
        },
        _ => {},
    }
    assert(k2 == k0);
    assert(v2.annotations[i] == v.annotations[i]);
    assert(v2.annotations =~= v.annotations);
}

/// A redo after an undo that gave back the earlier engine carries the command
/// out again with the same outcome as the first time (for every command but a
/// bounds change, whose outcome rests on the caller's rescaling).
pub proof fn law_redo_reapplies<F: Fn(Point, Rect, Rect) -> Point>(
    v: EngineModel,
    v1: EngineModel,
    v3: EngineModel,
    c: CommandModel,
    f: F,
)
    requires
        !(c is UpdateBounds),
        applied(v, v1, c, f),
        applied(v, v3, inverse(inverse(c)), f),
    ensures
        v3 == v1,
{
    law_inverse_is_involution(c);
}

/// The engine `v` is what carrying out `c` last left: an added annotation is
/// the topmost one and no other carries its id; a removed annotation's id is
/// no longer there; the first annotation with an updated id has the new
/// style, the new text (when it holds text) or the new bounds (when it has no
/// points of its own: not an arrow, a line or a freehand stroke).
pub open spec fn shows_command(v: EngineModel, c: CommandModel) -> bool {
    match c {
        CommandModel::Add(a) => {
            &&& v.annotations.len() > 0
            &&& v.annotations.last() == a
            &&& forall|j: int| 0 <= j < v.annotations.len() - 1 ==> v.annotations[j].id != a.id
        },
        CommandModel::Remove(a) => forall|j: int| 0 <= j < v.annotations.len() ==> v.annotations[j].id != a.id,
        CommandModel::UpdateStyle { id, new_style, .. } => match position_of(v.annotations, id) {
            Some(i) => v.annotations[i].style == new_style,
            None => true,
        },
        CommandModel::UpdateText { id, new_text, .. } => match position_of(v.annotations, id) {
            Some(i) => text_of(v.annotations[i].kind) is None || text_of(v.annotations[i].kind) == Some(new_text),
            None => true,
        },
        CommandModel::UpdateBounds { id, new_bounds, .. } => match position_of(v.annotations, id) {
            Some(i) => {
                &&& v.annotations[i].bounds == new_bounds
                &&& !(v.annotations[i].kind is Arrow || v.annotations[i].kind is Line
                    || v.annotations[i].kind is Freehand)
            },
            None => true,
        },
    }
}

/// Redo right after undo restores the annotation list: when the engine `v`
/// shows the history's latest command (see [`shows_command`]), undoing it
/// (to `v1`) and redoing it (to `v2`) gives back the same annotations in the
/// same order, and the marker counter is unchanged.
pub proof fn law_redo_after_undo_restores<F: Fn(Point, Rect, Rect) -> Point>(
    h: HistoryModel,
    v: EngineModel,
    v1: EngineModel,
    v2: EngineModel,
    f: F,
)
    requires
        h.undo.len() > 0,
        shows_command(v, h.undo.last()),
        applied(v, v1, inverse(h.undo.last()), f),
        applied(v1, v2, inverse(after_undo(h).redo.last()), f),
    ensures
        v2.annotations == v.annotations,
        v2.next_number == v.next_number,
{
    let c = h.undo.last();
    assert(after_undo(h).redo.last() == inverse(c));
    law_inverse_is_involution(c);
    let n = v.annotations.len() as int;
    match c {
        CommandModel::Add(a) => {
            assert(is_first_with_id(v.annotations, a.id, n - 1));
            lemma_position_of_first(v.annotations, a.id, n - 1);
            assert(v1.annotations =~= v.annotations.drop_last());
            assert(v2.annotations =~= v.annotations);
        },
        CommandModel::Remove(a) => {
            assert(v1.annotations == v.annotations.push(a));
            assert(is_first_with_id(v1.annotations, a.id, n));
            lemma_position_of_first(v1.annotations, a.id, n);
            assert(v2.annotations =~= v.annotations);
        },
        CommandModel::UpdateStyle { id, .. } => {
            match position_of(v.annotations, id) {
                Some(i) => {
                    lemma_position_of_same_ids(v.annotations, v1.annotations, id);
                    assert(v2.annotations =~= v.annotations);
                },
                None => {},
            }
        },
        CommandModel::UpdateText { id, .. } => {
            match position_of(v.annotations, id) {
                Some(i) => {
                    lemma_position_of_same_ids(v.annotations, v1.annotations, id);
                    assert(v2.annotations[i].kind == v.annotations[i].kind);
                    assert(v2.annotations =~= v.annotations);
                },
                None => {},
            }
        },
        CommandModel::UpdateBounds { id, .. } => {
            match position_of(v.annotations, id) {
                Some(i) => {
                    lemma_position_of_same_ids(v.annotations, v1.annotations, id);
                    assert(v2.annotations[i] == v.annotations[i]);
                    assert(v2.annotations =~= v.annotations);
                },
                None => {},
            }
        },
    }
}

} // verus!
