use vstd::prelude::*;

verus! {

/// What happens to a timed error dialog: the user answered it, or its time ran out.
#[derive(Clone, Copy, Debug, PartialEq, Eq, Structural)]
pub enum DialogEvent {
    Response,
    Timeout,
}

/// What to do on a dialog event.
#[derive(Clone, Copy, Debug, PartialEq, Eq, Structural)]
pub struct DialogActions {
    /// Remove the pending timeout.
    pub cancel_timer: bool,
    /// Run the callback waiting for the dialog to finish.
    pub run_callback: bool,
    /// Close the dialog.
    pub close_dialog: bool,
}

/// A timed error dialog: whether it has finished.
#[derive(Clone, Copy, Debug, PartialEq, Eq, Structural)]
pub struct TimedDialog {
    pub finished: bool,
}

/// The actions for `event` on a dialog that has (`finished`) or has not
/// finished yet: the first event finishes it, cancelling the timeout and
/// running the callback; later events do neither. A timeout always closes the
/// dialog.
pub open spec fn dialog_actions(finished: bool, event: DialogEvent) -> DialogActions {
    DialogActions { cancel_timer: !finished, run_callback: !finished, close_dialog: event == DialogEvent::Timeout }
}

impl TimedDialog {
    /// A dialog just shown, its timeout pending.
    pub fn new() -> (d: Self)
        ensures
            !d.finished,
    {
        TimedDialog { finished: false }
    }

    /// Handles `event`: see [`dialog_actions`]. The dialog is finished afterwards.
    pub fn on_event(&mut self, event: DialogEvent) -> (r: DialogActions)
        ensures
            r == dialog_actions(old(self).finished, event),
            final(self).finished,
    {
        let first = !self.finished;
        self.finished = true;
        DialogActions { cancel_timer: first, run_callback: first, close_dialog: event == DialogEvent::Timeout }
    }
}

/// How many times the callback runs when `events` reach a dialog that has
/// (`finished`) or has not finished.
pub open spec fn callback_runs(finished: bool, events: Seq<DialogEvent>) -> nat
    decreases events.len(),
{
    if events.len() == 0 {
        0
    } else {
        (if dialog_actions(finished, events[0]).run_callback { 1nat } else { 0nat }) + callback_runs(
            true,
            events.subrange(1, events.len() as int),
        )
    }
}

/// Whatever answers and timeouts reach a timed dialog, its callback runs at
/// most once, and exactly once when anything reaches a fresh dialog.
pub proof fn law_callback_runs_once(events: Seq<DialogEvent>)
    ensures
        callback_runs(false, events) == (if events.len() == 0 { 0nat } else { 1nat }),
{
    if events.len() > 0 {
        lemma_finished_runs_nothing(events.subrange(1, events.len() as int));
    }
}

/// A finished dialog never runs its callback again.
proof fn lemma_finished_runs_nothing(events: Seq<DialogEvent>)
    ensures
        callback_runs(true, events) == 0,
    decreases events.len(),
{
    if events.len() > 0 {
        lemma_finished_runs_nothing(events.subrange(1, events.len() as int));
    }
}

} // verus!
