//! The action dispatcher: what a pressed hotkey asks of the host.

use crate::bindings::{Action, OsFamily};
use crate::host::{HostOp, Notification, Visibility, WindowStatus};
use crate::model::{all_done, done_replies, host_after, host_at, observe, HostModel};
use crate::plan::{
    idle_plan, outcome, outcome_from, performed, reached, single, OnFailure, Outcome, Plan,
    PlanView, Reply, Step,
};
use crate::visibility::WindowVisibility;
use vstd::prelude::*;

verus! {

/// Whether the visibility of the window is tracked by the application on
/// `os`, because the host cannot be asked reliably right after a toggle.
pub open spec fn tracks_visibility(os: OsFamily) -> bool {
    os is Windows
}

/// What the caller looks up before it dispatches.
#[derive(Clone, Copy, Debug, PartialEq, Eq, Structural)]
pub enum Probe {
    /// Whether the window exists. Its visibility is passed as unknown.
    Presence,
    /// Whether the window exists and, if so, whether it is visible. A failed
    /// question is logged where `log_failure` is set, and passed as unknown.
    Visibility { log_failure: bool },
}

/// What is looked up before `action` is dispatched on `os`.
pub open spec fn probe_for(os: OsFamily, action: Action) -> Probe {
    match action {
        Action::ToggleWindow => if tracks_visibility(os) {
            Probe::Presence
        } else {
            Probe::Visibility { log_failure: true }
        },
        Action::StartAudio => Probe::Visibility { log_failure: true },
        Action::Screenshot => Probe::Presence,
        Action::ToggleSystemAudio => Probe::Visibility { log_failure: true },
    }
}

/// The plan that maps the window, gives it the focus and then emits.
pub open spec fn reveal_then_emit(on_show_failure: OnFailure, notification: Notification) -> PlanView {
    PlanView {
        steps: seq![
            Step { op: HostOp::Show, on_failure: on_show_failure },
            Step { op: HostOp::SetFocus, on_failure: OnFailure::Proceed },
            Step { op: HostOp::Emit(notification), on_failure: OnFailure::Proceed },
        ],
        ending: Outcome::Completed,
    }
}

/// What the toggle hotkey asks for, where `hidden` is the tracked flag before
/// the press.
///
/// Without a window nothing happens. Where visibility is tracked, the host is
/// not asked: the flag is flipped and its new value emitted. Elsewhere a
/// visible window is hidden, a hidden one is shown, focused and told to focus
/// its text input, and a window of unknown visibility is left alone.
pub open spec fn toggle_plan(os: OsFamily, window: WindowStatus, hidden: bool) -> PlanView {
    match window {
        WindowStatus::Missing => idle_plan(),
        WindowStatus::Present(visibility) => if tracks_visibility(os) {
            single(HostOp::Emit(Notification::ToggleWindowVisibility(!hidden)), OnFailure::Proceed)
        } else {
            match visibility {
                Visibility::Visible => single(HostOp::Hide, OnFailure::Proceed),
                Visibility::Hidden => reveal_then_emit(
                    OnFailure::Proceed,
                    Notification::FocusTextInput,
                ),
                Visibility::Unknown => idle_plan(),
            }
        },
    }
}

/// The tracked flag after a press of the toggle hotkey.
pub open spec fn flag_after_toggle(os: OsFamily, window: WindowStatus, hidden: bool) -> bool {
    if tracks_visibility(os) && window is Present {
        !hidden
    } else {
        hidden
    }
}

/// The tracked flag after a press of the hotkey of `action`: only the toggle
/// hotkey touches it.
pub open spec fn flag_after(os: OsFamily, action: Action, window: WindowStatus, hidden: bool) -> bool {
    if action is ToggleWindow {
        flag_after_toggle(os, window, hidden)
    } else {
        hidden
    }
}

/// Whether a press of the hotkey of `action` reads and changes the tracked
/// flag: the toggle hotkey does, where visibility is tracked and the window
/// exists.
pub open spec fn consults_flag(os: OsFamily, action: Action, window: WindowStatus) -> bool {
    action is ToggleWindow && tracks_visibility(os) && window is Present
}

/// What a hotkey that announces a capture asks for. A visible window gets the
/// notification at once. A hidden window is shown and focused first, and the
/// run ends if it cannot be shown; a failure to show is logged where `report`
/// is set. Without a window, and on a window whose visibility the host could
/// not tell, the action is abandoned: nothing is asked and nothing emitted.
pub open spec fn capture_plan(
    window: WindowStatus,
    notification: Notification,
    report: bool,
) -> PlanView {
    match window {
        WindowStatus::Missing => idle_plan(),
        WindowStatus::Present(Visibility::Visible) => single(
            HostOp::Emit(notification),
            OnFailure::Proceed,
        ),
        WindowStatus::Present(Visibility::Hidden) => reveal_then_emit(
            OnFailure::Stop { report },
            notification,
        ),
        WindowStatus::Present(Visibility::Unknown) => idle_plan(),
    }
}

/// What the audio hotkey asks for.
pub open spec fn audio_plan(window: WindowStatus) -> PlanView {
    capture_plan(window, Notification::StartAudioRecording, false)
}

/// What the system-audio hotkey asks for.
pub open spec fn system_audio_plan(window: WindowStatus) -> PlanView {
    capture_plan(window, Notification::ToggleSystemAudio, true)
}

/// What the screenshot hotkey asks for.
pub open spec fn screenshot_plan(window: WindowStatus) -> PlanView {
    match window {
        WindowStatus::Missing => idle_plan(),
        WindowStatus::Present(_) => single(
            HostOp::Emit(Notification::TriggerScreenshot),
            OnFailure::Proceed,
        ),
    }
}

/// What a pressed hotkey asks for.
pub open spec fn dispatch_plan(
    os: OsFamily,
    action: Action,
    window: WindowStatus,
    hidden: bool,
) -> PlanView {
    match action {
        Action::ToggleWindow => toggle_plan(os, window, hidden),
        Action::StartAudio => audio_plan(window),
        Action::Screenshot => screenshot_plan(window),
        Action::ToggleSystemAudio => system_audio_plan(window),
    }
}

impl OsFamily {
    /// Whether the visibility of the window is tracked by the application.
    pub fn tracks_visibility(self) -> (tracks: bool)
        ensures
            tracks == tracks_visibility(self),
    {
        match self {
            OsFamily::Windows => true,
            _ => false,
        }
    }
}

/// What the caller looks up before it dispatches `action` on `os`.
pub fn visibility_probe(os: OsFamily, action: Action) -> (probe: Probe)
    ensures
        probe == probe_for(os, action),
{
    match action {
        Action::ToggleWindow => if os.tracks_visibility() {
            Probe::Presence
        } else {
            Probe::Visibility { log_failure: true }
        },
        Action::StartAudio => Probe::Visibility { log_failure: true },
        Action::Screenshot => Probe::Presence,
        Action::ToggleSystemAudio => Probe::Visibility { log_failure: true },
    }
}

fn plan_reveal_then_emit(on_show_failure: OnFailure, notification: Notification) -> (plan: Plan)
    ensures
        plan@ == reveal_then_emit(on_show_failure, notification),
{
    let mut plan = Plan::idle();
    plan.push(HostOp::Show, on_show_failure);
    plan.push(HostOp::SetFocus, OnFailure::Proceed);
    plan.push(HostOp::Emit(notification), OnFailure::Proceed);
    assert(plan@.steps =~= reveal_then_emit(on_show_failure, notification).steps);
    plan
}

fn plan_capture(window: WindowStatus, notification: Notification, report: bool) -> (plan: Plan)
    ensures
        plan@ == capture_plan(window, notification, report),
{
    match window {
        WindowStatus::Missing => Plan::idle(),
        WindowStatus::Present(Visibility::Visible) => Plan::one(
            HostOp::Emit(notification),
            OnFailure::Proceed,
        ),
        WindowStatus::Present(Visibility::Hidden) => plan_reveal_then_emit(
            OnFailure::Stop { report },
            notification,
        ),
        WindowStatus::Present(Visibility::Unknown) => Plan::idle(),
    }
}

/// Handles a press of the toggle hotkey.
///
/// `state` is the tracked flag; the caller holds its lock for this call only,
/// so that nothing is emitted while it is held. The flag is flipped exactly
/// where visibility is tracked and the window exists.
pub fn handle_toggle_window(os: OsFamily, window: WindowStatus, state: &mut WindowVisibility) -> (plan:
    Plan)
    ensures
        plan@ == toggle_plan(os, window, old(state).is_hidden),
        final(state).is_hidden == flag_after_toggle(os, window, old(state).is_hidden),
{
    match window {
        WindowStatus::Missing => Plan::idle(),
        WindowStatus::Present(visibility) => if os.tracks_visibility() {
            let now_hidden = state.flip();
            Plan::one(
                HostOp::Emit(Notification::ToggleWindowVisibility(now_hidden)),
                OnFailure::Proceed,
            )
        } else {
            match visibility {
                Visibility::Visible => Plan::one(HostOp::Hide, OnFailure::Proceed),
                Visibility::Hidden => plan_reveal_then_emit(
                    OnFailure::Proceed,
                    Notification::FocusTextInput,
                ),
                Visibility::Unknown => Plan::idle(),
            }
        },
    }
}

/// Handles a press of the audio hotkey.
pub fn handle_audio_shortcut(window: WindowStatus) -> (plan: Plan)
    ensures
        plan@ == audio_plan(window),
{
    plan_capture(window, Notification::StartAudioRecording, false)
}

/// Handles a press of the screenshot hotkey.
pub fn handle_screenshot_shortcut(window: WindowStatus) -> (plan: Plan)
    ensures
        plan@ == screenshot_plan(window),
{
    match window {
        WindowStatus::Missing => Plan::idle(),
        WindowStatus::Present(_) => Plan::one(
            HostOp::Emit(Notification::TriggerScreenshot),
            OnFailure::Proceed,
        ),
    }
}

/// Handles a press of the system-audio hotkey.
pub fn handle_system_audio_shortcut(window: WindowStatus) -> (plan: Plan)
    ensures
        plan@ == system_audio_plan(window),
{
    plan_capture(window, Notification::ToggleSystemAudio, true)
}

/// Whether a press of the hotkey of `action` needs the tracked flag. Where it
/// does not, [`dispatch`] neither reads nor changes the flag it is handed.
pub fn needs_flag(os: OsFamily, action: Action, window: WindowStatus) -> (needed: bool)
    ensures
        needed == consults_flag(os, action, window),
{
    match (action, window) {
        (Action::ToggleWindow, WindowStatus::Present(_)) => os.tracks_visibility(),
        _ => false,
    }
}

/// Handles a press of the hotkey of `action`.
pub fn dispatch(os: OsFamily, action: Action, window: WindowStatus, state: &mut WindowVisibility) -> (plan:
    Plan)
    ensures
        plan@ == dispatch_plan(os, action, window, old(state).is_hidden),
        final(state).is_hidden == flag_after(os, action, window, old(state).is_hidden),
{
    match action {
        Action::ToggleWindow => handle_toggle_window(os, window, state),
        Action::StartAudio => handle_audio_shortcut(window),
        Action::Screenshot => handle_screenshot_shortcut(window),
        Action::ToggleSystemAudio => handle_system_audio_shortcut(window),
    }
}

/// Whether the window of `host` is shown exactly when the flag says so.
pub open spec fn coherent(host: HostModel, hidden: bool) -> bool {
    host.window matches Some(window) ==> window.visible == !hidden
}

/// Where the host is asked, a press of the toggle hotkey flips the visibility
/// of the window, provided that the hide or show itself succeeds: a visible
/// window is hidden by one press, a hidden one is shown.
pub proof fn law_toggle_flips_window(
    os: OsFamily,
    host: HostModel,
    hidden: bool,
    replies: Seq<Reply>,
)
    requires
        !tracks_visibility(os),
        host.window is Some,
        replies.len() == toggle_plan(os, observe(host), hidden).steps.len(),
        replies[0] is Ok,
    ensures
        host_after(toggle_plan(os, observe(host), hidden), replies, host).window is Some,
        host_after(toggle_plan(os, observe(host), hidden), replies, host).window->0.visible
            == !host.window->0.visible,
        flag_after_toggle(os, observe(host), hidden) == hidden,
{
    reveal_with_fuel(host_at, 4);
    reveal_with_fuel(reached, 4);
}

/// Where the host is asked, two presses of the toggle hotkey bring a visible
/// window back to visible, whatever becomes of the focus and of the
/// notification in between.
pub proof fn law_toggle_twice_restores_window(
    os: OsFamily,
    host: HostModel,
    hidden: bool,
    first: Seq<Reply>,
    second: Seq<Reply>,
)
    requires
        !tracks_visibility(os),
        host.window is Some,
        host.window->0.visible,
        first.len() == 1,
        first[0] is Ok,
        second.len() == 3,
        second[0] is Ok,
    ensures
        ({
            let once = host_after(toggle_plan(os, observe(host), hidden), first, host);
            let twice = host_after(toggle_plan(os, observe(once), hidden), second, once);
            &&& once.window is Some
            &&& !once.window->0.visible
            &&& twice.window is Some
            &&& twice.window->0.visible
        }),
{
    let once = host_after(toggle_plan(os, observe(host), hidden), first, host);
    law_toggle_flips_window(os, host, hidden, first);
    law_toggle_flips_window(os, once, hidden, second);
}

/// Where visibility is tracked, a press of the toggle hotkey on an existing
/// window flips the flag and emits the negation of the value that the flag
/// had before the press, and nothing else; a second press restores the flag.
pub proof fn law_tracked_toggle_emits_negation(
    os: OsFamily,
    window: WindowStatus,
    hidden: bool,
    host: HostModel,
    replies: Seq<Reply>,
)
    requires
        tracks_visibility(os),
        window is Present,
        replies.len() == 1,
    ensures
        flag_after_toggle(os, window, hidden) == !hidden,
        flag_after_toggle(os, window, flag_after_toggle(os, window, hidden)) == hidden,
        performed(toggle_plan(os, window, hidden), replies, 0),
        toggle_plan(os, window, hidden).steps[0].op == HostOp::Emit(
            Notification::ToggleWindowVisibility(!hidden),
        ),
        host_after(toggle_plan(os, window, hidden), replies, host).emitted == (if replies[0] is Ok {
            host.emitted.push(Notification::ToggleWindowVisibility(!hidden))
        } else {
            host.emitted
        }),
        outcome(toggle_plan(os, window, hidden), replies) == Outcome::Completed,
{
    reveal_with_fuel(host_at, 2);
    reveal_with_fuel(reached, 2);
    reveal_with_fuel(outcome_from, 2);
}

/// Where visibility is tracked, the window and the flag agree after every
/// press whose notification is delivered: the window is shown exactly when
/// the flag says that it is not hidden. No press creates or destroys the
/// window.
pub proof fn law_tracked_toggle_keeps_coherence(
    os: OsFamily,
    host: HostModel,
    hidden: bool,
    replies: Seq<Reply>,
)
    requires
        tracks_visibility(os),
        replies.len() == toggle_plan(os, observe(host), hidden).steps.len(),
        all_done(replies),
        coherent(host, hidden),
    ensures
        coherent(
            host_after(toggle_plan(os, observe(host), hidden), replies, host),
            flag_after_toggle(os, observe(host), hidden),
        ),
        host_after(toggle_plan(os, observe(host), hidden), replies, host).window is Some
            <==> host.window is Some,
{
    reveal_with_fuel(host_at, 2);
    reveal_with_fuel(reached, 2);
}

/// Where visibility is tracked, one press hides a window that is shown and
/// known to be, and a second press shows it again, provided that both
/// notifications are delivered.
pub proof fn law_tracked_toggle_twice_restores_window(
    os: OsFamily,
    host: HostModel,
    first: Seq<Reply>,
    second: Seq<Reply>,
)
    requires
        tracks_visibility(os),
        host.window is Some,
        host.window->0.visible,
        first.len() == 1,
        second.len() == 1,
        all_done(first),
        all_done(second),
    ensures
        ({
            let once = host_after(toggle_plan(os, observe(host), false), first, host);
            let flag = flag_after_toggle(os, observe(host), false);
            let twice = host_after(toggle_plan(os, observe(once), flag), second, once);
            &&& flag
            &&& once.window is Some
            &&& !once.window->0.visible
            &&& !flag_after_toggle(os, observe(once), flag)
            &&& twice.window is Some
            &&& twice.window->0.visible
        }),
{
    let once = host_after(toggle_plan(os, observe(host), false), first, host);
    law_tracked_toggle_keeps_coherence(os, host, false, first);
    reveal_with_fuel(host_at, 2);
    reveal_with_fuel(reached, 2);
}

/// Where visibility is tracked, a press whose notification is lost leaves the
/// flag flipped and the window as it was: the two then disagree, and nothing
/// in the library brings them together again but a later press that is lost
/// as well.
pub proof fn law_tracked_toggle_diverges_on_lost_notification(
    os: OsFamily,
    host: HostModel,
    hidden: bool,
    replies: Seq<Reply>,
)
    requires
        tracks_visibility(os),
        host.window is Some,
        replies.len() == 1,
        replies[0] is Err,
        coherent(host, hidden),
    ensures
        host_after(toggle_plan(os, observe(host), hidden), replies, host) == host,
        !coherent(
            host_after(toggle_plan(os, observe(host), hidden), replies, host),
            flag_after_toggle(os, observe(host), hidden),
        ),
{
    reveal_with_fuel(host_at, 2);
    reveal_with_fuel(reached, 2);
}

/// Where visibility is tracked, a capture hotkey that shows a hidden window
/// leaves the flag as it was: the window is then shown while the flag still
/// says hidden, and the next press of the toggle hotkey flips the flag to
/// visible and asks for a window that is shown already.
pub proof fn law_capture_leaves_flag_behind(
    os: OsFamily,
    action: Action,
    host: HostModel,
    hidden: bool,
    replies: Seq<Reply>,
)
    requires
        tracks_visibility(os),
        action is StartAudio || action is ToggleSystemAudio,
        observe(host) == WindowStatus::Present(Visibility::Hidden),
        coherent(host, hidden),
        replies.len() == 3,
        replies[0] is Ok,
    ensures
        flag_after(os, action, observe(host), hidden) == hidden,
        hidden,
        host_after(dispatch_plan(os, action, observe(host), hidden), replies, host).window is Some,
        host_after(dispatch_plan(os, action, observe(host), hidden), replies, host).window->0.visible,
        !coherent(
            host_after(dispatch_plan(os, action, observe(host), hidden), replies, host),
            flag_after(os, action, observe(host), hidden),
        ),
{
    reveal_with_fuel(host_at, 4);
    reveal_with_fuel(reached, 4);
}

/// What the caller of a capture hotkey hands in when it has looked for the
/// window of `host`: the visibility that the host holds if it `answered` the
/// question, and unknown if the question failed.
pub open spec fn found(host: HostModel, answered: bool) -> WindowStatus {
    if host.window is Some && !answered {
        WindowStatus::Present(Visibility::Unknown)
    } else {
        observe(host)
    }
}

/// A capture hotkey emits to a visible window only, whatever the caller found
/// and whatever the host replies. If the question about the visibility
/// failed, or there is no window, nothing is asked of the host. If the window
/// is hidden and the show fails, the run stops and nothing is emitted. If the
/// show succeeds, the window is visible when the notification is handed to
/// the host, and focused as well if the host gave it the focus.
pub proof fn law_capture_shows_before_emitting(
    notification: Notification,
    report: bool,
    host: HostModel,
    answered: bool,
    replies: Seq<Reply>,
)
    requires
        replies.len() == capture_plan(found(host, answered), notification, report).steps.len(),
    ensures
        ({
            let plan = capture_plan(found(host, answered), notification, report);
            &&& forall|i: int|
                #[trigger] performed(plan, replies, i) && plan.steps[i].op is Emit ==> {
                    &&& plan.steps[i].op == HostOp::Emit(notification)
                    &&& host_at(plan, replies, host, i).window is Some
                    &&& host_at(plan, replies, host, i).window->0.visible
                    &&& host_at(plan, replies, host, i).emitted == host.emitted
                }
            &&& found(host, answered) is Missing || found(host, answered)
                == WindowStatus::Present(Visibility::Unknown) ==> {
                &&& plan == idle_plan()
                &&& host_after(plan, replies, host) == host
            }
            &&& found(host, answered) == WindowStatus::Present(Visibility::Hidden) ==> {
                &&& plan.steps[2].op == HostOp::Emit(notification)
                &&& performed(plan, replies, 2) <==> replies[0] is Ok
                &&& replies[0] is Err ==> {
                    &&& outcome(plan, replies) == Outcome::Stopped
                    &&& host_after(plan, replies, host) == host
                }
                &&& replies[0] is Ok && replies[1] is Ok ==> host_at(
                    plan,
                    replies,
                    host,
                    2,
                ).window->0.focused
            }
        }),
{
    reveal_with_fuel(host_at, 4);
    reveal_with_fuel(reached, 4);
    reveal_with_fuel(outcome_from, 4);
}

/// A capture hotkey emits its notification and no other, and at most once.
pub proof fn law_capture_emits_once(
    window: WindowStatus,
    notification: Notification,
    report: bool,
    host: HostModel,
    replies: Seq<Reply>,
)
    requires
        replies.len() == capture_plan(window, notification, report).steps.len(),
    ensures
        ({
            let after = host_after(capture_plan(window, notification, report), replies, host);
            after.emitted == host.emitted || after.emitted == host.emitted.push(notification)
        }),
{
    reveal_with_fuel(host_at, 4);
    reveal_with_fuel(reached, 4);
}

/// The screenshot hotkey leaves the window as it is, whatever the window was
/// and whatever the host replies.
pub proof fn law_screenshot_keeps_window(window: WindowStatus, host: HostModel, replies: Seq<Reply>)
    requires
        replies.len() == screenshot_plan(window).steps.len(),
    ensures
        host_after(screenshot_plan(window), replies, host).window == host.window,
        outcome(screenshot_plan(window), replies) == Outcome::Completed,
{
    reveal_with_fuel(host_at, 2);
    reveal_with_fuel(reached, 2);
    reveal_with_fuel(outcome_from, 2);
}

/// Without a window no hotkey asks anything of the host, and the flag stays
/// as it is.
pub proof fn law_missing_window_is_ignored(os: OsFamily, action: Action, hidden: bool)
    ensures
        dispatch_plan(os, action, WindowStatus::Missing, hidden) == idle_plan(),
        flag_after_toggle(os, WindowStatus::Missing, hidden) == hidden,
{
}

/// No press consults both the flag and the host. An action for which the host
/// is asked about the window's visibility neither reads nor changes the flag;
/// an action for which it is not asked does not depend on what the host would
/// have said. The flag is read and changed by the toggle hotkey alone, and
/// only where the host is not asked.
pub proof fn law_flag_or_host_never_both(
    os: OsFamily,
    action: Action,
    window: WindowStatus,
    hidden: bool,
    other_hidden: bool,
    visibility: Visibility,
    other_visibility: Visibility,
)
    ensures
        consults_flag(os, action, window) ==> probe_for(os, action) is Presence,
        !consults_flag(os, action, window) ==> {
            &&& dispatch_plan(os, action, window, hidden) == dispatch_plan(
                os,
                action,
                window,
                other_hidden,
            )
            &&& flag_after(os, action, window, hidden) == hidden
        },
        probe_for(os, action) is Presence ==> dispatch_plan(
            os,
            action,
            WindowStatus::Present(visibility),
            hidden,
        ) == dispatch_plan(os, action, WindowStatus::Present(other_visibility), hidden),
{
}

/// A failure behind a hotkey never reaches a caller as an error: whatever the
/// host replies, the run of a pressed hotkey completes or stops.
pub proof fn law_hotkeys_never_fail(
    os: OsFamily,
    action: Action,
    window: WindowStatus,
    hidden: bool,
    replies: Seq<Reply>,
)
    requires
        replies.len() == dispatch_plan(os, action, window, hidden).steps.len(),
    ensures
        !(outcome(dispatch_plan(os, action, window, hidden), replies) is Failed),
{
    reveal_with_fuel(outcome_from, 4);
}

/// The host and the flag after one press of the toggle hotkey, on a host that
/// answers the lookup by what it holds and carries every operation out.
pub open spec fn after_press(os: OsFamily, host: HostModel, hidden: bool) -> (HostModel, bool) {
    let plan = toggle_plan(os, observe(host), hidden);
    (host_after(plan, done_replies(plan.steps.len()), host), flag_after_toggle(os, observe(host), hidden))
}

/// The host and the flag after `count` presses of the toggle hotkey in a row.
pub open spec fn after_presses(os: OsFamily, host: HostModel, hidden: bool, count: nat) -> (
    HostModel,
    bool,
)
    decreases count,
{
    if count == 0 {
        (host, hidden)
    } else {
        let before = after_presses(os, host, hidden, (count - 1) as nat);
        after_press(os, before.0, before.1)
    }
}

/// On every OS family a run of presses of the toggle hotkey leaves the window
/// as it was if their number is even, and flips its visibility if it is odd.
/// Where visibility is tracked, the flag goes with the window.
pub proof fn law_toggle_presses_alternate(os: OsFamily, host: HostModel, hidden: bool, count: nat)
    requires
        host.window is Some,
        tracks_visibility(os) ==> coherent(host, hidden),
    ensures
        after_presses(os, host, hidden, count).0.window is Some,
        after_presses(os, host, hidden, count).0.window->0.visible == (if count % 2 == 0 {
            host.window->0.visible
        } else {
            !host.window->0.visible
        }),
        tracks_visibility(os) ==> coherent(
            after_presses(os, host, hidden, count).0,
            after_presses(os, host, hidden, count).1,
        ),
        !tracks_visibility(os) ==> after_presses(os, host, hidden, count).1 == hidden,
    decreases count,
{
    if count > 0 {
        law_toggle_presses_alternate(os, host, hidden, (count - 1) as nat);
        let before = after_presses(os, host, hidden, (count - 1) as nat);
        let plan = toggle_plan(os, observe(before.0), before.1);
        let replies = done_replies(plan.steps.len());
        assert(all_done(replies));
        assert(replies[0] is Ok);
        if tracks_visibility(os) {
            law_tracked_toggle_keeps_coherence(os, before.0, before.1, replies);
        } else {
            law_toggle_flips_window(os, before.0, before.1, replies);
        }
    }
}

} // verus!
