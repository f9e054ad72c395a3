use screenshot_hero::dialogs::{DialogActions, DialogEvent, TimedDialog};

#[test]
fn first_answer_finishes_the_dialog() {
    let mut d = TimedDialog::new();
    assert_eq!(
        d.on_event(DialogEvent::Response),
        DialogActions { cancel_timer: true, run_callback: true, close_dialog: false }
    );
    assert!(d.finished);
    assert_eq!(
        d.on_event(DialogEvent::Timeout),
        DialogActions { cancel_timer: false, run_callback: false, close_dialog: true }
    );
}

#[test]
fn timeout_closes_and_runs_callback_once() {
    let mut d = TimedDialog::new();
    let first = d.on_event(DialogEvent::Timeout);
    assert!(first.run_callback && first.close_dialog && first.cancel_timer);
    let runs = [DialogEvent::Response, DialogEvent::Timeout, DialogEvent::Response]
        .into_iter()
        .filter(|e| d.on_event(*e).run_callback)
        .count();
    assert_eq!(runs, 0);
}
