use vstd::prelude::*;

use crate::annotations::model::{Annotation, AnnotationKind, AnnotationModel, AnnotationStyle, CalloutData, FreehandData, KindModel, Point, Rect, TextData, models};

verus! {

/// Holds the annotations of the open image in drawing order (later ones are on
/// top), the id of the selected annotation and the next marker number.
pub struct AnnotationEngine {
    annotations: Vec<Annotation>,
    selected_id: Option<u128>,
    next_number: u32,
}

/// The mathematical value of an [`AnnotationEngine`].
pub struct EngineModel {
    pub annotations: Seq<AnnotationModel>,
    pub selected: Option<u128>,
    pub next_number: u32,
}

impl View for AnnotationEngine {
    type V = EngineModel;

    closed spec fn view(&self) -> EngineModel {
        EngineModel {
            annotations: models(self.annotations@),
            selected: self.selected_id,
            next_number: self.next_number,
        }
    }
}

/// `i` is the index of the first annotation in `s` whose id is `id`.
pub open spec fn is_first_with_id(s: Seq<AnnotationModel>, id: u128, i: int) -> bool {
    &&& 0 <= i < s.len()
    &&& s[i].id == id
    &&& forall|j: int| 0 <= j < i ==> s[j].id != id
}

/// Index of the first annotation in `s` with id `id`, if there is one.
pub open spec fn position_of(s: Seq<AnnotationModel>, id: u128) -> Option<int> {
    if exists|i: int| is_first_with_id(s, id, i) {
        Some(choose|i: int| is_first_with_id(s, id, i))
    } else {
        None
    }
}

/// The first annotation carrying `id` is the one `position_of` names.
pub proof fn lemma_position_of_first(s: Seq<AnnotationModel>, id: u128, i: int)
    requires
        is_first_with_id(s, id, i),
    ensures
        position_of(s, id) == Some(i),
{
    let k = choose|k: int| is_first_with_id(s, id, k);
    assert(is_first_with_id(s, id, k));
    if k < i {
        assert(s[k].id != id);
    } else if i < k {
        assert(s[i].id != id);
    }
}

/// No annotation of `s` carries `id`.
pub proof fn lemma_position_of_absent(s: Seq<AnnotationModel>, id: u128)
    requires
        forall|j: int| 0 <= j < s.len() ==> s[j].id != id,
    ensures
        position_of(s, id) is None,
{
}

/// Any annotation carrying `id` makes `position_of` defined.
pub proof fn lemma_position_of_exists(s: Seq<AnnotationModel>, id: u128, j: int)
    requires
        0 <= j < s.len(),
        s[j].id == id,
    ensures
        position_of(s, id) is Some,
    decreases j,
{
    if forall|k: int| 0 <= k < j ==> s[k].id != id {
        assert(is_first_with_id(s, id, j));
    } else {
        let k = choose|k: int| 0 <= k < j && s[k].id == id;
        lemma_position_of_exists(s, id, k);
    }
}

/// The engine with `a` drawn on top of the others.
pub open spec fn added(v: EngineModel, a: AnnotationModel) -> EngineModel {
    EngineModel { annotations: v.annotations.push(a), ..v }
}

/// The engine without the first annotation whose id is `id`; the selection is
/// cleared when it was `id`.
pub open spec fn removed(v: EngineModel, id: u128) -> EngineModel {
    match position_of(v.annotations, id) {
        Some(i) => EngineModel {
            annotations: v.annotations.remove(i),
            selected: if v.selected == Some(id) { None } else { v.selected },
            next_number: v.next_number,
        },
        None => v,
    }
}

/// The engine with the first annotation whose id is `id` replaced by `a`.
pub open spec fn updated_with(v: EngineModel, id: u128, a: AnnotationModel) -> EngineModel {
    match position_of(v.annotations, id) {
        Some(i) => EngineModel { annotations: v.annotations.update(i, a), ..v },
        None => v,
    }
}

/// The engine with the bounds of the first annotation with `id` set to `bounds`.
pub open spec fn bounds_updated(v: EngineModel, id: u128, bounds: Rect) -> EngineModel {
    match position_of(v.annotations, id) {
        Some(i) => updated_with(v, id, AnnotationModel { bounds, ..v.annotations[i] }),
        None => v,
    }
}

/// The engine with the style of the first annotation with `id` set to `style`.
pub open spec fn style_updated(v: EngineModel, id: u128, style: AnnotationStyle) -> EngineModel {
    match position_of(v.annotations, id) {
        Some(i) => updated_with(v, id, AnnotationModel { style, ..v.annotations[i] }),
        None => v,
    }
}

/// `kind` with its text replaced by `text` where it is a text, timestamp or callout.
pub open spec fn text_replaced(kind: KindModel, text: Seq<char>) -> KindModel {
    match kind {
        KindModel::Text(_, size) => KindModel::Text(text, size),
        KindModel::Timestamp(_, size) => KindModel::Timestamp(text, size),
        KindModel::Callout(_, anchor) => KindModel::Callout(text, anchor),
        _ => kind,
    }
}

/// The engine with the text of the first annotation with `id` set to `text`, where
/// that annotation holds text.
pub open spec fn text_updated(v: EngineModel, id: u128, text: Seq<char>) -> EngineModel {
    match position_of(v.annotations, id) {
        Some(i) => updated_with(
            v,
            id,
            AnnotationModel { kind: text_replaced(v.annotations[i].kind, text), ..v.annotations[i] },
        ),
        None => v,
    }
}

/// The text held by `kind` when it is a text, a timestamp or a callout.
pub open spec fn text_of(kind: KindModel) -> Option<Seq<char>> {
    match kind {
        KindModel::Text(t, _) => Some(t),
        KindModel::Timestamp(t, _) => Some(t),
        KindModel::Callout(t, _) => Some(t),
        _ => None,
    }
}

/// Two sequences whose annotations carry the same ids at the same indices have
/// the same first position for every id.
pub proof fn lemma_position_of_same_ids(s1: Seq<AnnotationModel>, s2: Seq<AnnotationModel>, id: u128)
    requires
        s1.len() == s2.len(),
        forall|j: int| 0 <= j < s1.len() ==> s1[j].id == s2[j].id,
    ensures
        position_of(s1, id) == position_of(s2, id),
{
    match position_of(s1, id) {
        Some(i) => {
            assert(is_first_with_id(s1, id, i));
            assert(is_first_with_id(s2, id, i));
            lemma_position_of_first(s2, id, i);
        },
        None => {
            if exists|i: int| is_first_with_id(s2, id, i) {
                let i = choose|i: int| is_first_with_id(s2, id, i);
                assert(is_first_with_id(s1, id, i));
            }
        },
    }
}

/// The text held by `kind` when it is a text or a callout (not a timestamp).
pub open spec fn editable_text(kind: KindModel) -> Option<Seq<char>> {
    match kind {
        KindModel::Text(t, _) => Some(t),
        KindModel::Callout(t, _) => Some(t),
        _ => None,
    }
}

/// `q` is a value that `f` may return for the point `p` mapped from `from` to `to`.
pub open spec fn maps_point<F: Fn(Point, Rect, Rect) -> Point>(
    f: F,
    from: Rect,
    to: Rect,
    p: Point,
    q: Point,
) -> bool {
    call_ensures(f, (p, from, to), q)
}

/// `new` is `old` with every point of an arrow, a line or a freehand stroke (and,
/// when `with_anchor`, the anchor of a callout) mapped by `f` from `from` to `to`;
/// all other data is unchanged.
pub open spec fn kind_mapped<F: Fn(Point, Rect, Rect) -> Point>(
    f: F,
    from: Rect,
    to: Rect,
    old: KindModel,
    new: KindModel,
    with_anchor: bool,
) -> bool {
    match old {
        KindModel::Arrow(d) => new matches KindModel::Arrow(e) && maps_point(f, from, to, d.start, e.start)
            && maps_point(f, from, to, d.end, e.end),
        KindModel::Line(d) => new matches KindModel::Line(e) && maps_point(f, from, to, d.start, e.start)
            && maps_point(f, from, to, d.end, e.end),
        KindModel::Freehand(ps) => new matches KindModel::Freehand(qs) && qs.len() == ps.len() && (
        forall|k: int| 0 <= k < ps.len() ==> #[trigger] maps_point(f, from, to, ps[k], qs[k])),
        KindModel::Callout(t, a) => if with_anchor {
            new matches KindModel::Callout(t2, b) && t2 == t && maps_point(f, from, to, a, b)
        } else {
            new == old
        },
        _ => new == old,
    }
}

/// `new` is `old` where the first annotation with `id` got the bounds `to` and its
/// geometry mapped by `f` (see [`kind_mapped`]); nothing else changed.
pub open spec fn geometry_updated<F: Fn(Point, Rect, Rect) -> Point>(
    old: EngineModel,
    new: EngineModel,
    id: u128,
    f: F,
    from: Rect,
    to: Rect,
    with_anchor: bool,
) -> bool {
    match position_of(old.annotations, id) {
        Some(i) => {
            &&& new.selected == old.selected
            &&& new.next_number == old.next_number
            &&& new.annotations.len() == old.annotations.len()
            &&& forall|j: int| 0 <= j < old.annotations.len() && j != i ==> new.annotations[j] == old.annotations[j]
            &&& new.annotations[i].id == old.annotations[i].id
            &&& new.annotations[i].style == old.annotations[i].style
            &&& new.annotations[i].bounds == to
            &&& kind_mapped(f, from, to, old.annotations[i].kind, new.annotations[i].kind, with_anchor)
        },
        None => new == old,
    }
}

/// `i` is the index of the topmost annotation whose bounds `contains` reports to hold `p`.
pub open spec fn is_topmost_hit<F: Fn(Rect, Point) -> bool>(
    s: Seq<AnnotationModel>,
    contains: F,
    p: Point,
    i: int,
) -> bool {
    &&& 0 <= i < s.len()
    &&& call_ensures(contains, (s[i].bounds, p), true)
    &&& forall|j: int| i < j < s.len() ==> call_ensures(contains, (s[j].bounds, p), false)
}

/// Maps the points of `kind` with `f` from `from` to `to`.
fn map_kind<F: Fn(Point, Rect, Rect) -> Point>(
    kind: &AnnotationKind,
    f: &F,
    from: Rect,
    to: Rect,
    with_anchor: bool,
) -> (out: AnnotationKind)
    requires
        forall|p: Point, a: Rect, b: Rect| call_requires(*f, (p, a, b)),
    ensures
        kind_mapped(*f, from, to, kind@, out@, with_anchor),
{
    match kind {
        AnnotationKind::Arrow(d) => {
            let start = f(d.start, from, to);
            let end = f(d.end, from, to);
            AnnotationKind::Arrow(crate::annotations::model::ArrowData { start, end })
        },
        AnnotationKind::Line(d) => {
            let start = f(d.start, from, to);
            let end = f(d.end, from, to);
            AnnotationKind::Line(crate::annotations::model::ArrowData { start, end })
        },
        AnnotationKind::Freehand(d) => {
            let mut points: Vec<Point> = Vec::new();
            let mut k: usize = 0;
            while k < d.points.len()
                invariant
                    k <= d.points.len(),
                    points.len() == k,
                    forall|p: Point, a: Rect, b: Rect| call_requires(*f, (p, a, b)),
                    forall|m: int| 0 <= m < k ==> #[trigger] maps_point(*f, from, to, d.points@[m], points@[m]),
                decreases d.points.len() - k,
            {
                let q = f(d.points[k], from, to);
                points.push(q);
                k = k + 1;
            }
            AnnotationKind::Freehand(FreehandData { points })
        },
        AnnotationKind::Callout(d) => {
            if with_anchor {
                let anchor = f(d.anchor, from, to);
                AnnotationKind::Callout(CalloutData { text: d.text.clone(), anchor })
            } else {
                kind.duplicate()
            }
        },
        _ => kind.duplicate(),
    }
}

impl AnnotationEngine {
    /// An engine with no annotations, nothing selected, numbering from 1.
    pub fn new() -> (engine: Self)
        ensures
            engine@.annotations == Seq::<AnnotationModel>::empty(),
            engine@.selected is None,
            engine@.next_number == 1,
    {
        let engine = AnnotationEngine { annotations: Vec::new(), selected_id: None, next_number: 1 };
        proof {
            assert(engine@.annotations =~= Seq::<AnnotationModel>::empty());
        }
        engine
    }

    /// Index of the first annotation with `id`.
    fn find_index(&self, id: u128) -> (r: Option<usize>)
        ensures
            match r {
                Some(i) => position_of(self@.annotations, id) == Some(i as int),
                None => position_of(self@.annotations, id) is None,
            },
    {
        let mut i: usize = 0;
        while i < self.annotations.len()
            invariant
                i <= self.annotations.len(),
                forall|j: int| 0 <= j < i ==> self@.annotations[j].id != id,
            decreases self.annotations.len() - i,
        {
            if self.annotations[i].id == id {
                proof {
                    lemma_position_of_first(self@.annotations, id, i as int);
                }
                return Some(i);
            }
            i = i + 1;
        }
        proof {
            lemma_position_of_absent(self@.annotations, id);
        }
        None
    }

    /// Draws `ann` on top of the existing annotations.
    pub fn add(&mut self, ann: Annotation)
        ensures
            final(self)@ == added(old(self)@, ann@),
    {
        self.annotations.push(ann);
        proof {
            assert(models(self.annotations@) =~= models(old(self).annotations@).push(ann@));
        }
    }

    /// Removes the first annotation with `id` and returns it; clears the
    /// selection when it was that id. Returns `None` and changes nothing when no
    /// annotation has `id`.
    pub fn remove(&mut self, id: u128) -> (r: Option<Annotation>)
        ensures
            final(self)@ == removed(old(self)@, id),
            match position_of(old(self)@.annotations, id) {
                Some(i) => r matches Some(a) && a@ == old(self)@.annotations[i],
                None => r is None,
            },
    {
        match self.find_index(id) {
            Some(i) => {
                let removed_ann = self.annotations.remove(i);
                if self.selected_id == Some(id) {
                    self.selected_id = None;
                }
                proof {
                    assert(models(self.annotations@) =~= models(old(self).annotations@).remove(i as int));
                }
                Some(removed_ann)
            },
            None => None,
        }
    }

    /// Sets the bounds of the first annotation with `id`; nothing else changes.
    pub fn update_bounds(&mut self, id: u128, new_bounds: Rect)
        ensures
            final(self)@ == bounds_updated(old(self)@, id, new_bounds),
    {
        if let Some(i) = self.find_index(id) {
            let old_ann = &self.annotations[i];
            let ann = Annotation {
                id: old_ann.id,
                kind: old_ann.kind.duplicate(),
                bounds: new_bounds,
                style: old_ann.style,
            };
            self.annotations.set(i, ann);
            proof {
                assert(models(self.annotations@) =~= models(old(self).annotations@).update(
                    i as int,
                    AnnotationModel { bounds: new_bounds, ..old(self)@.annotations[i as int] },
                ));
            }
        }
    }

    /// Sets the bounds of the first annotation with `id` and maps its geometry
    /// with `f`, called as `f(point, from, to)` on each point of an arrow, a line
    /// or a freehand stroke and on the anchor of a callout when `with_anchor`.
    fn set_geometry<F: Fn(Point, Rect, Rect) -> Point>(
        &mut self,
        id: u128,
        from: Rect,
        to: Rect,
        f: &F,
        with_anchor: bool,
    )
        requires
            forall|p: Point, a: Rect, b: Rect| call_requires(*f, (p, a, b)),
        ensures
            geometry_updated(old(self)@, final(self)@, id, *f, from, to, with_anchor),
    {
        if let Some(i) = self.find_index(id) {
            let kind = map_kind(&self.annotations[i].kind, f, from, to, with_anchor);
            let ann = Annotation { id, kind, bounds: to, style: self.annotations[i].style };
            self.annotations.set(i, ann);
            proof {
                let oldm = old(self)@.annotations;
                let newm = self@.annotations;
                assert(newm.len() == oldm.len());
                assert forall|j: int| 0 <= j < oldm.len() && j != i implies newm[j] == oldm[j] by {
                    assert(self.annotations@[j] == old(self).annotations@[j]);
                }
            }
        }
    }

    /// Moves the first annotation with `id` from `from_bounds` to `to_bounds`:
    /// its bounds become `to_bounds` and every point of an arrow, a line, a
    /// freehand stroke and the anchor of a callout becomes
    /// `shift(point, from_bounds, to_bounds)` (the caller's translation by the
    /// offset between the two bounds).
    pub fn move_to_bounds<F: Fn(Point, Rect, Rect) -> Point>(
        &mut self,
        id: u128,
        from_bounds: Rect,
        to_bounds: Rect,
        shift: &F,
    )
        requires
            forall|p: Point, a: Rect, b: Rect| call_requires(*shift, (p, a, b)),
        ensures
            geometry_updated(old(self)@, final(self)@, id, *shift, from_bounds, to_bounds, true),
    {
        self.set_geometry(id, from_bounds, to_bounds, shift, true);
    }

    /// Resizes the first annotation with `id`: its bounds become `new_bounds` and
    /// every point of an arrow, a line or a freehand stroke becomes
    /// `scale(point, reference_bounds, new_bounds)`; callout anchors stay.
    pub fn resize_to_bounds<F: Fn(Point, Rect, Rect) -> Point>(
        &mut self,
        id: u128,
        reference_bounds: Rect,
        new_bounds: Rect,
        scale: &F,
    )
        requires
            forall|p: Point, a: Rect, b: Rect| call_requires(*scale, (p, a, b)),
        ensures
            geometry_updated(old(self)@, final(self)@, id, *scale, reference_bounds, new_bounds, false),
    {
        self.set_geometry(id, reference_bounds, new_bounds, scale, false);
    }

    /// The first annotation with `id`.
    pub fn annotation_at(&self, id: u128) -> (r: Option<&Annotation>)
        ensures
            match position_of(self@.annotations, id) {
                Some(i) => r matches Some(a) && a@ == self@.annotations[i],
                None => r is None,
            },
    {
        match self.find_index(id) {
            Some(i) => Some(&self.annotations[i]),
            None => None,
        }
    }

    /// Sets the style of the first annotation with `id`.
    pub fn update_style(&mut self, id: u128, new_style: AnnotationStyle)
        ensures
            final(self)@ == style_updated(old(self)@, id, new_style),
    {
        if let Some(i) = self.find_index(id) {
            let old_ann = &self.annotations[i];
            let ann = Annotation {
                id: old_ann.id,
                kind: old_ann.kind.duplicate(),
                bounds: old_ann.bounds,
                style: new_style,
            };
            self.annotations.set(i, ann);
            proof {
                assert(models(self.annotations@) =~= models(old(self).annotations@).update(
                    i as int,
                    AnnotationModel { style: new_style, ..old(self)@.annotations[i as int] },
                ));
            }
        }
    }

    /// Sets the text of the first annotation with `id` when it is a text, a
    /// timestamp or a callout; other kinds are left as they are.
    pub fn update_text(&mut self, id: u128, new_text: String)
        ensures
            final(self)@ == text_updated(old(self)@, id, new_text@),
    {
        if let Some(i) = self.find_index(id) {
            let old_ann = &self.annotations[i];
            let kind = match &old_ann.kind {
                AnnotationKind::Text(d) => AnnotationKind::Text(TextData { text: new_text, font_size: d.font_size }),
                AnnotationKind::Timestamp(d) => AnnotationKind::Timestamp(
                    TextData { text: new_text, font_size: d.font_size },
                ),
                AnnotationKind::Callout(d) => AnnotationKind::Callout(CalloutData { text: new_text, anchor: d.anchor }),
                other => other.duplicate(),
            };
            let ann = Annotation { id: old_ann.id, kind, bounds: old_ann.bounds, style: old_ann.style };
            self.annotations.set(i, ann);
            proof {
                assert(models(self.annotations@) =~= models(old(self).annotations@).update(
                    i as int,
                    AnnotationModel {
                        kind: text_replaced(old(self)@.annotations[i as int].kind, new_text@),
                        ..old(self)@.annotations[i as int]
                    },
                ));
            }
        }
    }

    /// Selects `id` (whether or not an annotation has it).
    pub fn select(&mut self, id: u128)
        ensures
            final(self)@ == (EngineModel { selected: Some(id), ..old(self)@ }),
    {
        self.selected_id = Some(id);
    }

    /// Clears the selection.
    pub fn deselect(&mut self)
        ensures
            final(self)@ == (EngineModel { selected: None, ..old(self)@ }),
    {
        self.selected_id = None;
    }

    /// The selected id.
    pub fn selected_id(&self) -> (r: Option<u128>)
        ensures
            r == self@.selected,
    {
        self.selected_id
    }

    /// The first annotation whose id is the selected id.
    pub fn get_selected(&self) -> (r: Option<&Annotation>)
        ensures
            match self@.selected {
                Some(id) => match position_of(self@.annotations, id) {
                    Some(i) => r matches Some(a) && a@ == self@.annotations[i],
                    None => r is None,
                },
                None => r is None,
            },
    {
        match self.selected_id {
            Some(id) => self.annotation_at(id),
            None => None,
        }
    }

    /// The id of the topmost annotation whose bounds hold `p`, asking
    /// `contains(bounds, p)` from the top annotation down.
    pub fn hit_test<F: Fn(Rect, Point) -> bool>(&self, p: Point, contains: &F) -> (r: Option<u128>)
        requires
            forall|b: Rect, q: Point| call_requires(*contains, (b, q)),
        ensures
            match r {
                Some(id) => exists|i: int|
                    is_topmost_hit(self@.annotations, *contains, p, i) && #[trigger] self@.annotations[i].id == id,
                None => forall|j: int|
                    0 <= j < self@.annotations.len() ==> call_ensures(*contains, (#[trigger] self@.annotations[j].bounds, p), false),
            },
    {
        let n = self.annotations.len();
        let mut k: usize = n;
        while k > 0
            invariant
                k <= n,
                n == self.annotations.len(),
                forall|b: Rect, q: Point| call_requires(*contains, (b, q)),
                forall|j: int| k <= j < n ==> call_ensures(*contains, (#[trigger] self@.annotations[j].bounds, p), false),
            decreases k,
        {
            let i = k - 1;
            let hit = contains(self.annotations[i].bounds, p);
            if hit {
                proof {
                    assert(is_topmost_hit(self@.annotations, *contains, p, i as int));
                    assert(self@.annotations[i as int].id == self.annotations@[i as int].id);
                }
                return Some(self.annotations[i].id);
            }
            k = i;
        }
        None
    }

    /// Returns the next marker number and advances the counter.
    pub fn next_number(&mut self) -> (n: u32)
        requires
            old(self)@.next_number < u32::MAX,
        ensures
            n == old(self)@.next_number,
            final(self)@ == (EngineModel { next_number: (n + 1) as u32, ..old(self)@ }),
    {
        let n = self.next_number;
        self.next_number = n + 1;
        n
    }

    /// The number the next marker gets, without advancing the counter.
    pub fn upcoming_number(&self) -> (n: u32)
        ensures
            n == self@.next_number,
    {
        self.next_number
    }

    /// Restarts marker numbering at 1.
    pub fn reset_number_counter(&mut self)
        ensures
            final(self)@ == (EngineModel { next_number: 1, ..old(self)@ }),
    {
        self.next_number = 1;
    }

    /// All annotations in drawing order.
    pub fn all(&self) -> (r: &[Annotation])
        ensures
            models(r@) == self@.annotations,
    {
        self.annotations.as_slice()
    }
}

impl Default for AnnotationEngine {
    fn default() -> (engine: Self)
        ensures
            engine@.annotations == Seq::<AnnotationModel>::empty(),
            engine@.selected is None,
            engine@.next_number == 1,
    {
        Self::new()
    }
}

} // verus!
