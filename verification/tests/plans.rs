use window_hotkeys::bindings::{Action, OsFamily};
use window_hotkeys::error::{HostFailure, ShortcutError};
use window_hotkeys::host::{HostOp, Notification};
use window_hotkeys::plan::{OnFailure, Outcome, Plan, Run, Step};

fn refused(words: &str) -> Result<(), String> {
    Err(words.to_string())
}

fn three_steps(first: OnFailure, second: OnFailure, third: OnFailure) -> Plan {
    let mut plan = Plan::idle();
    plan.push(HostOp::Show, first);
    plan.push(HostOp::SetFocus, second);
    plan.push(HostOp::Emit(Notification::FocusTextInput), third);
    plan
}

#[test]
fn an_idle_plan_is_over_at_once() {
    let run = Run::start(Plan::idle());
    assert_eq!(run.pending(), None);
    assert_eq!(run.finish(), Some(Outcome::Completed));
}

#[test]
fn a_refusal_fails_without_asking() {
    let run = Run::start(Plan::refuse(ShortcutError::MissingWindow));
    assert_eq!(run.pending(), None);
    assert_eq!(run.finish(), Some(Outcome::Failed(ShortcutError::MissingWindow)));
}

#[test]
fn one_makes_a_plan_of_one_step() {
    let plan = Plan::one(HostOp::Hide, OnFailure::Proceed);
    assert_eq!(plan.steps, vec![Step { op: HostOp::Hide, on_failure: OnFailure::Proceed }]);
    assert_eq!(plan.ending, Outcome::Completed);
}

#[test]
fn push_adds_at_the_end_and_keeps_the_ending() {
    let mut plan = Plan::refuse(ShortcutError::MissingWindow);
    plan.push(HostOp::Hide, OnFailure::Proceed);
    plan.push(HostOp::Show, OnFailure::Stop { report: true });
    assert_eq!(
        plan.steps,
        vec![
            Step { op: HostOp::Hide, on_failure: OnFailure::Proceed },
            Step { op: HostOp::Show, on_failure: OnFailure::Stop { report: true } },
        ]
    );
    assert_eq!(plan.ending, Outcome::Failed(ShortcutError::MissingWindow));
}

#[test]
fn a_run_hands_the_steps_out_in_order() {
    let mut run =
        Run::start(three_steps(OnFailure::Proceed, OnFailure::Proceed, OnFailure::Proceed));
    assert_eq!(run.pending().map(|s| s.op), Some(HostOp::Show));
    run.record(Ok(()));
    assert_eq!(run.pending().map(|s| s.op), Some(HostOp::SetFocus));
    run.record(Ok(()));
    assert_eq!(run.pending().map(|s| s.op), Some(HostOp::Emit(Notification::FocusTextInput)));
    run.record(Ok(()));
    assert_eq!(run.pending(), None);
    assert_eq!(run.finish(), Some(Outcome::Completed));
}

#[test]
fn a_run_is_not_over_while_a_step_is_pending() {
    let mut run =
        Run::start(three_steps(OnFailure::Proceed, OnFailure::Proceed, OnFailure::Proceed));
    run.record(Ok(()));
    assert_eq!(run.finish(), None);
}

#[test]
fn a_tolerated_failure_lets_the_run_go_on() {
    let mut run =
        Run::start(three_steps(OnFailure::Proceed, OnFailure::Proceed, OnFailure::Proceed));
    run.record(refused("no show"));
    assert_eq!(run.pending().map(|s| s.op), Some(HostOp::SetFocus));
    run.record(refused("no focus"));
    run.record(refused("no listener"));
    assert_eq!(run.finish(), Some(Outcome::Completed));
}

#[test]
fn a_stopping_failure_ends_the_run_without_an_error() {
    let mut run = Run::start(three_steps(
        OnFailure::Stop { report: false },
        OnFailure::Proceed,
        OnFailure::Proceed,
    ));
    run.record(refused("no show"));
    assert_eq!(run.pending(), None);
    assert_eq!(run.finish(), Some(Outcome::Stopped));
}

#[test]
fn a_raising_failure_ends_the_run_with_the_hosts_words() {
    let mut run = Run::start(three_steps(
        OnFailure::Proceed,
        OnFailure::Raise(HostFailure::AlwaysOnTop),
        OnFailure::Proceed,
    ));
    run.record(Ok(()));
    run.record(refused("denied"));
    assert_eq!(run.pending(), None);
    assert_eq!(
        run.finish(),
        Some(Outcome::Failed(ShortcutError::Host {
            failure: HostFailure::AlwaysOnTop,
            detail: "denied".to_string(),
        }))
    );
}

#[test]
fn a_finished_run_ignores_further_replies() {
    let mut run = Run::start(three_steps(
        OnFailure::Stop { report: true },
        OnFailure::Proceed,
        OnFailure::Proceed,
    ));
    run.record(refused("no show"));
    run.record(Ok(()));
    run.record(refused("late"));
    assert_eq!(run.pending(), None);
    assert_eq!(run.finish(), Some(Outcome::Stopped));

    let mut done = Run::start(Plan::one(HostOp::Hide, OnFailure::Raise(HostFailure::AlwaysOnTop)));
    done.record(Ok(()));
    done.record(refused("late"));
    assert_eq!(done.finish(), Some(Outcome::Completed));
}

#[test]
fn a_run_that_passes_every_step_ends_as_the_plan_says() {
    let mut plan = Plan::refuse(ShortcutError::Parse {
        os: OsFamily::Linux,
        action: Action::Screenshot,
    });
    plan.push(HostOp::Hide, OnFailure::Stop { report: false });
    let mut run = Run::start(plan);
    run.record(Ok(()));
    assert_eq!(
        run.finish(),
        Some(Outcome::Failed(ShortcutError::Parse {
            os: OsFamily::Linux,
            action: Action::Screenshot,
        }))
    );
}

#[test]
fn status_tells_the_caller_what_happened() {
    assert_eq!(Outcome::Completed.status(), Ok(true));
    assert_eq!(Outcome::Stopped.status(), Ok(false));
    assert_eq!(
        Outcome::Failed(ShortcutError::MissingWindow).status(),
        Err(ShortcutError::MissingWindow)
    );
}

#[test]
fn reports_says_which_failures_are_logged() {
    assert!(OnFailure::Proceed.reports());
    assert!(OnFailure::Stop { report: true }.reports());
    assert!(!OnFailure::Stop { report: false }.reports());
    assert!(!OnFailure::Raise(HostFailure::ActivationPolicy).reports());
}

#[test]
fn messages_of_host_failures() {
    let message = |failure: HostFailure| {
        ShortcutError::Host { failure, detail: "boom".to_string() }.message()
    };
    assert_eq!(
        message(HostFailure::Registration(Action::ToggleWindow)),
        "Failed to register toggle shortcut: boom"
    );
    assert_eq!(
        message(HostFailure::Registration(Action::StartAudio)),
        "Failed to register audio shortcut: boom"
    );
    assert_eq!(
        message(HostFailure::Registration(Action::Screenshot)),
        "Failed to register screenshot shortcut: boom"
    );
    assert_eq!(
        message(HostFailure::Registration(Action::ToggleSystemAudio)),
        "Failed to register system audio shortcut: boom"
    );
    assert_eq!(message(HostFailure::ActivationPolicy), "Failed to set activation policy: boom");
    assert_eq!(message(HostFailure::TaskbarVisibility), "Failed to set taskbar visibility: boom");
    assert_eq!(message(HostFailure::PanelVisibility), "Failed to set panel visibility: boom");
    assert_eq!(message(HostFailure::AlwaysOnTop), "Failed to set always on top: boom");
}

#[test]
fn message_of_a_host_failure_without_words() {
    let error = ShortcutError::Host { failure: HostFailure::AlwaysOnTop, detail: String::new() };
    assert_eq!(error.message(), "Failed to set always on top: ");
}

#[test]
fn messages_of_the_other_errors() {
    assert_eq!(ShortcutError::MissingWindow.message(), "Main window not found");
    assert_eq!(
        ShortcutError::Parse { os: OsFamily::Windows, action: Action::ToggleWindow }.message(),
        "Failed to parse shortcut: ctrl+backslash"
    );
    assert_eq!(
        ShortcutError::Parse { os: OsFamily::MacOs, action: Action::ToggleSystemAudio }.message(),
        "Failed to parse shortcut: cmd+shift+m"
    );
}

#[test]
fn failure_text_is_the_message_without_the_hosts_words() {
    assert_eq!(HostFailure::AlwaysOnTop.text(), "Failed to set always on top");
    assert_eq!(
        HostFailure::Registration(Action::ToggleSystemAudio).text(),
        "Failed to register system audio shortcut"
    );
}
