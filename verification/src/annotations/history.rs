use vstd::prelude::*;

use crate::annotations::engine::{
    AnnotationEngine, EngineModel, added, geometry_updated, maps_point, position_of, removed,
    style_updated, text_replaced, text_updated, kind_mapped,
};
use crate::annotations::model::{Annotation, AnnotationModel, AnnotationStyle, KindModel, Point, Rect};

verus! {

/// An edit of the annotations that can be undone.
#[derive(Clone, Debug, PartialEq)]
pub enum AnnotationCommand {
    Add(Annotation),
    Remove(Annotation),
    UpdateBounds { id: u128, old_bounds: Rect, new_bounds: Rect },
    UpdateStyle { id: u128, old_style: AnnotationStyle, new_style: AnnotationStyle },
    UpdateText { id: u128, old_text: String, new_text: String },
}

/// The mathematical value of an [`AnnotationCommand`].
pub enum CommandModel {
    Add(AnnotationModel),
    Remove(AnnotationModel),
    UpdateBounds { id: u128, old_bounds: Rect, new_bounds: Rect },
    UpdateStyle { id: u128, old_style: AnnotationStyle, new_style: AnnotationStyle },
    UpdateText { id: u128, old_text: Seq<char>, new_text: Seq<char> },
}

impl View for AnnotationCommand {
    type V = CommandModel;

    open spec fn view(&self) -> CommandModel {
        match self {
            AnnotationCommand::Add(a) => CommandModel::Add(a@),
            AnnotationCommand::Remove(a) => CommandModel::Remove(a@),
            AnnotationCommand::UpdateBounds { id, old_bounds, new_bounds } => CommandModel::UpdateBounds {
                id: *id,
                old_bounds: *old_bounds,
                new_bounds: *new_bounds,
            },
            AnnotationCommand::UpdateStyle { id, old_style, new_style } => CommandModel::UpdateStyle {
                id: *id,
                old_style: *old_style,
                new_style: *new_style,
            },
            AnnotationCommand::UpdateText { id, old_text, new_text } => CommandModel::UpdateText {
                id: *id,
                old_text: old_text@,
                new_text: new_text@,
            },
        }
    }
}

/// The command that reverts `c`: an addition becomes a removal and back, and an
/// update swaps its old and new values.
pub open spec fn inverse(c: CommandModel) -> CommandModel {
    match c {
        CommandModel::Add(a) => CommandModel::Remove(a),
        CommandModel::Remove(a) => CommandModel::Add(a),
        CommandModel::UpdateBounds { id, old_bounds, new_bounds } => CommandModel::UpdateBounds {
            id,
            old_bounds: new_bounds,
            new_bounds: old_bounds,
        },
        CommandModel::UpdateStyle { id, old_style, new_style } => CommandModel::UpdateStyle {
            id,
            old_style: new_style,
            new_style: old_style,
        },
        CommandModel::UpdateText { id, old_text, new_text } => CommandModel::UpdateText {
            id,
            old_text: new_text,
            new_text: old_text,
        },
    }
}

/// `new` is the engine `old` after `c` was carried out, bounds updates rescaling
/// the geometry with `scale(point, old_bounds, new_bounds)`.
pub open spec fn applied<F: Fn(Point, Rect, Rect) -> Point>(
    old: EngineModel,
    new: EngineModel,
    c: CommandModel,
    scale: F,
) -> bool {
    match c {
        CommandModel::Add(a) => new == added(old, a),
        CommandModel::Remove(a) => new == removed(old, a.id),
        CommandModel::UpdateBounds { id, old_bounds, new_bounds } => geometry_updated(
            old,
            new,
            id,
            scale,
            old_bounds,
            new_bounds,
            false,
        ),
        CommandModel::UpdateStyle { id, new_style, .. } => new == style_updated(old, id, new_style),
        CommandModel::UpdateText { id, new_text, .. } => new == text_updated(old, id, new_text),
    }
}

/// The command that reverts `cmd`.
pub fn inverse_command(cmd: &AnnotationCommand) -> (r: AnnotationCommand)
    ensures
        r@ == inverse(cmd@),
{
    match cmd {
        AnnotationCommand::Add(ann) => AnnotationCommand::Remove(ann.duplicate()),
        AnnotationCommand::Remove(ann) => AnnotationCommand::Add(ann.duplicate()),
        AnnotationCommand::UpdateBounds { id, old_bounds, new_bounds } => AnnotationCommand::UpdateBounds {
            id: *id,
            old_bounds: *new_bounds,
            new_bounds: *old_bounds,
        },
        AnnotationCommand::UpdateStyle { id, old_style, new_style } => AnnotationCommand::UpdateStyle {
            id: *id,
            old_style: *new_style,
            new_style: *old_style,
        },
        AnnotationCommand::UpdateText { id, old_text, new_text } => AnnotationCommand::UpdateText {
            id: *id,
            old_text: new_text.clone(),
            new_text: old_text.clone(),
        },
    }
}

/// Carries out `cmd` on `engine`. A bounds update resizes the annotation, points
/// rescaled by `scale(point, old_bounds, new_bounds)`.
pub fn apply_command<F: Fn(Point, Rect, Rect) -> Point>(
    engine: &mut AnnotationEngine,
    cmd: &AnnotationCommand,
    scale: &F,
)
    requires
        forall|p: Point, a: Rect, b: Rect| call_requires(*scale, (p, a, b)),
    ensures
        applied(old(engine)@, final(engine)@, cmd@, *scale),
{
    match cmd {
        AnnotationCommand::Add(ann) => {
            engine.add(ann.duplicate());
        },
        AnnotationCommand::Remove(ann) => {
            let _ = engine.remove(ann.id);
        },
        AnnotationCommand::UpdateBounds { id, old_bounds, new_bounds } => {
            engine.resize_to_bounds(*id, *old_bounds, *new_bounds, scale);
        },
        AnnotationCommand::UpdateStyle { id, new_style, .. } => {
            engine.update_style(*id, *new_style);
        },
        AnnotationCommand::UpdateText { id, new_text, .. } => {
            engine.update_text(*id, new_text.clone());
        },
    }
}

/// Undo and redo stacks of annotation commands; the last element of each is its top.
pub struct History {
    undo_stack: Vec<AnnotationCommand>,
    redo_stack: Vec<AnnotationCommand>,
}

/// The mathematical value of a [`History`].
pub struct HistoryModel {
    pub undo: Seq<CommandModel>,
    pub redo: Seq<CommandModel>,
}

/// The views of a sequence of commands.
pub open spec fn command_models(s: Seq<AnnotationCommand>) -> Seq<CommandModel> {
    s.map_values(|c: AnnotationCommand| c@)
}

impl View for History {
    type V = HistoryModel;

    closed spec fn view(&self) -> HistoryModel {
        HistoryModel { undo: command_models(self.undo_stack@), redo: command_models(self.redo_stack@) }
    }
}

/// The stacks after an undo: the top undo command leaves, its inverse goes on
/// the redo stack. Nothing changes when there is nothing to undo.
pub open spec fn after_undo(h: HistoryModel) -> HistoryModel {
    if h.undo.len() == 0 {
        h
    } else {
        HistoryModel { undo: h.undo.drop_last(), redo: h.redo.push(inverse(h.undo.last())) }
    }
}

/// The stacks after a redo: the top redo command leaves, its inverse goes on
/// the undo stack. Nothing changes when there is nothing to redo.
pub open spec fn after_redo(h: HistoryModel) -> HistoryModel {
    if h.redo.len() == 0 {
        h
    } else {
        HistoryModel { undo: h.undo.push(inverse(h.redo.last())), redo: h.redo.drop_last() }
    }
}

impl History {
    /// Empty undo and redo stacks.
    pub fn new() -> (h: Self)
        ensures
            h@.undo == Seq::<CommandModel>::empty(),
            h@.redo == Seq::<CommandModel>::empty(),
    {
        let h = History { undo_stack: Vec::new(), redo_stack: Vec::new() };
        proof {
            assert(h@.undo =~= Seq::<CommandModel>::empty());
            assert(h@.redo =~= Seq::<CommandModel>::empty());
        }
        h
    }

    /// Records a command that was just carried out; the redo stack is emptied.
    pub fn push(&mut self, cmd: AnnotationCommand)
        ensures
            final(self)@.undo == old(self)@.undo.push(cmd@),
            final(self)@.redo == Seq::<CommandModel>::empty(),
    {
        self.undo_stack.push(cmd);
        self.redo_stack.clear();
        proof {
            assert(self@.undo =~= old(self)@.undo.push(cmd@));
            assert(self@.redo =~= Seq::<CommandModel>::empty());
        }
    }

    /// Reverts the most recent command: pops it, carries out its inverse on
    /// `engine` and pushes that inverse on the redo stack. Returns false, and
    /// changes nothing, when there is nothing to undo.
    pub fn undo<F: Fn(Point, Rect, Rect) -> Point>(&mut self, engine: &mut AnnotationEngine, scale: &F) -> (r: bool)
        requires
            forall|p: Point, a: Rect, b: Rect| call_requires(*scale, (p, a, b)),
        ensures
            r == (old(self)@.undo.len() > 0),
            final(self)@ == after_undo(old(self)@),
            r ==> applied(old(engine)@, final(engine)@, inverse(old(self)@.undo.last()), *scale),
            !r ==> final(engine)@ == old(engine)@,
    {
        match self.undo_stack.pop() {
            None => {
                proof {
                    assert(old(self).undo_stack@.len() == 0);
                }
                false
            },
            Some(cmd) => {
                let inverse_cmd = inverse_command(&cmd);
                apply_command(engine, &inverse_cmd, scale);
                self.redo_stack.push(inverse_cmd);
                proof {
                    assert(self@.undo =~= old(self)@.undo.drop_last());
                    assert(self@.redo =~= old(self)@.redo.push(inverse(old(self)@.undo.last())));
                }
                true
            },
        }
    }

    /// Re-applies the most recently undone command: pops the top of the redo
    /// stack, carries out its inverse on `engine` and pushes that on the undo
    /// stack. Returns false, and changes nothing, when there is nothing to redo.
    pub fn redo<F: Fn(Point, Rect, Rect) -> Point>(&mut self, engine: &mut AnnotationEngine, scale: &F) -> (r: bool)
        requires
            forall|p: Point, a: Rect, b: Rect| call_requires(*scale, (p, a, b)),
        ensures
            r == (old(self)@.redo.len() > 0),
            final(self)@ == after_redo(old(self)@),
            r ==> applied(old(engine)@, final(engine)@, inverse(old(self)@.redo.last()), *scale),
            !r ==> final(engine)@ == old(engine)@,
    {
        match self.redo_stack.pop() {
            None => {
                proof {
                    assert(old(self).redo_stack@.len() == 0);
                }
                false
            },
            Some(cmd) => {
                let inverse_cmd = inverse_command(&cmd);
                apply_command(engine, &inverse_cmd, scale);
                self.undo_stack.push(inverse_cmd);
                proof {
                    assert(self@.redo =~= old(self)@.redo.drop_last());
                    assert(self@.undo =~= old(self)@.undo.push(inverse(old(self)@.redo.last())));
                }
                true
            },
        }
    }

    /// Whether there is a command to undo.
    pub fn can_undo(&self) -> (r: bool)
        ensures
            r == (self@.undo.len() > 0),
    {
        !self.undo_stack.is_empty()
    }

    /// Whether there is a command to redo.
    pub fn can_redo(&self) -> (r: bool)
        ensures
            r == (self@.redo.len() > 0),
    {
        !self.redo_stack.is_empty()
    }

    /// Empties both stacks.
    pub fn clear(&mut self)
        ensures
            final(self)@.undo == Seq::<CommandModel>::empty(),
            final(self)@.redo == Seq::<CommandModel>::empty(),
    {
        self.undo_stack.clear();
        self.redo_stack.clear();
        proof {
            assert(self@.undo =~= Seq::<CommandModel>::empty());
            assert(self@.redo =~= Seq::<CommandModel>::empty());
        }
    }
}

impl Default for History {
    fn default() -> (h: Self)
        ensures
            h@.undo == Seq::<CommandModel>::empty(),
            h@.redo == Seq::<CommandModel>::empty(),
    {
        Self::new()
    }
}

} // verus!
