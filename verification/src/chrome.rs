//! The chrome controller: the icon of the application and the rank of its
//! window among the others.

use crate::bindings::OsFamily;
use crate::error::{HostFailure, ShortcutError};
use crate::host::{ActivationPolicy, HostOp, WindowStatus};
use crate::model::{all_done, host_after, host_at, observe, HostModel};
use crate::plan::{
    idle_plan, outcome, outcome_from, reached, refusal, single, OnFailure, Outcome, Plan,
    PlanView, Reply,
};
use vstd::prelude::*;

verus! {

/// The activation policy under which the icon is visible, or not.
pub open spec fn policy_for(visible: bool) -> ActivationPolicy {
    if visible {
        ActivationPolicy::Regular
    } else {
        ActivationPolicy::Accessory
    }
}

/// What showing or hiding the icon of the application asks for.
///
/// On macOS the activation policy of the application is switched, and no
/// window is needed. Elsewhere the window is kept out of the taskbar or panel
/// exactly when the icon is to be hidden; without a window nothing is asked
/// and the command succeeds.
pub open spec fn icon_plan(os: OsFamily, visible: bool, window: WindowStatus) -> PlanView {
    match os {
        OsFamily::MacOs => single(
            HostOp::SetActivationPolicy(policy_for(visible)),
            OnFailure::Raise(HostFailure::ActivationPolicy),
        ),
        OsFamily::Windows => match window {
            WindowStatus::Missing => idle_plan(),
            WindowStatus::Present(_) => single(
                HostOp::SetSkipTaskbar(!visible),
                OnFailure::Raise(HostFailure::TaskbarVisibility),
            ),
        },
        OsFamily::Linux => match window {
            WindowStatus::Missing => idle_plan(),
            WindowStatus::Present(_) => single(
                HostOp::SetSkipTaskbar(!visible),
                OnFailure::Raise(HostFailure::PanelVisibility),
            ),
        },
    }
}

/// What keeping the window above the others, or ceasing to, asks for: one
/// call on the window, and an error at once where there is no window.
pub open spec fn always_on_top_plan(enabled: bool, window: WindowStatus) -> PlanView {
    match window {
        WindowStatus::Missing => refusal(ShortcutError::MissingWindow),
        WindowStatus::Present(_) => single(
            HostOp::SetAlwaysOnTop(enabled),
            OnFailure::Raise(HostFailure::AlwaysOnTop),
        ),
    }
}

/// Shows or hides the icon of the application in the dock, taskbar or panel.
pub fn set_app_icon_visibility(os: OsFamily, visible: bool, window: WindowStatus) -> (plan: Plan)
    ensures
        plan@ == icon_plan(os, visible, window),
{
    match os {
        OsFamily::MacOs => {
            let policy = if visible {
                ActivationPolicy::Regular
            } else {
                ActivationPolicy::Accessory
            };
            Plan::one(
                HostOp::SetActivationPolicy(policy),
                OnFailure::Raise(HostFailure::ActivationPolicy),
            )
        },
        OsFamily::Windows => match window {
            WindowStatus::Missing => Plan::idle(),
            WindowStatus::Present(_) => Plan::one(
                HostOp::SetSkipTaskbar(!visible),
                OnFailure::Raise(HostFailure::TaskbarVisibility),
            ),
        },
        OsFamily::Linux => match window {
            WindowStatus::Missing => Plan::idle(),
            WindowStatus::Present(_) => Plan::one(
                HostOp::SetSkipTaskbar(!visible),
                OnFailure::Raise(HostFailure::PanelVisibility),
            ),
        },
    }
}

/// Whether the absence of the window is logged when the icon's visibility is
/// set: where the window would have been asked, and is not there.
pub fn icon_logs_missing_window(os: OsFamily, window: WindowStatus) -> (logged: bool)
    ensures
        logged == (window is Missing && !(os is MacOs)),
{
    match (os, window) {
        (OsFamily::MacOs, _) => false,
        (_, WindowStatus::Missing) => true,
        (_, WindowStatus::Present(_)) => false,
    }
}

/// Keeps the window above the others, or stops doing so.
pub fn set_always_on_top(enabled: bool, window: WindowStatus) -> (plan: Plan)
    ensures
        plan@ == always_on_top_plan(enabled, window),
{
    match window {
        WindowStatus::Missing => Plan::refuse(ShortcutError::MissingWindow),
        WindowStatus::Present(_) => Plan::one(
            HostOp::SetAlwaysOnTop(enabled),
            OnFailure::Raise(HostFailure::AlwaysOnTop),
        ),
    }
}

/// Whether the icon of the application is shown on `os`.
pub open spec fn icon_shown(os: OsFamily, host: HostModel) -> bool {
    match os {
        OsFamily::MacOs => host.activation == ActivationPolicy::Regular,
        _ => host.window matches Some(window) && !window.skip_taskbar,
    }
}

/// Setting the icon's visibility on a host that carries the call out brings
/// the host to the value asked for, wherever a call is made at all.
pub proof fn law_icon_visibility_takes_effect(
    os: OsFamily,
    visible: bool,
    host: HostModel,
    replies: Seq<Reply>,
)
    requires
        replies.len() == icon_plan(os, visible, observe(host)).steps.len(),
        all_done(replies),
        os is MacOs || host.window is Some,
    ensures
        icon_shown(os, host_after(icon_plan(os, visible, observe(host)), replies, host)) == visible,
        outcome(icon_plan(os, visible, observe(host)), replies) == Outcome::Completed,
{
    reveal_with_fuel(host_at, 2);
    reveal_with_fuel(reached, 2);
    reveal_with_fuel(outcome_from, 2);
}

/// Setting the icon's visibility is idempotent: on a host that carries the
/// calls out, the second application of a value changes nothing and ends
/// without an error.
pub proof fn law_icon_visibility_idempotent(
    os: OsFamily,
    visible: bool,
    host: HostModel,
    first: Seq<Reply>,
    second: Seq<Reply>,
)
    requires
        first.len() == icon_plan(os, visible, observe(host)).steps.len(),
        second.len() == first.len(),
        all_done(first),
        all_done(second),
    ensures
        ({
            let once = host_after(icon_plan(os, visible, observe(host)), first, host);
            let twice = host_after(icon_plan(os, visible, observe(once)), second, once);
            &&& icon_plan(os, visible, observe(once)) == icon_plan(os, visible, observe(host))
            &&& twice == once
            &&& outcome(icon_plan(os, visible, observe(once)), second) == Outcome::Completed
        }),
{
    reveal_with_fuel(host_at, 2);
    reveal_with_fuel(reached, 2);
    reveal_with_fuel(outcome_from, 2);
}

/// Setting always-on-top is idempotent: on a host that carries the calls out,
/// the second application of a value changes nothing and ends as the first
/// did, which is without an error where the window exists.
pub proof fn law_always_on_top_idempotent(
    enabled: bool,
    host: HostModel,
    first: Seq<Reply>,
    second: Seq<Reply>,
)
    requires
        first.len() == always_on_top_plan(enabled, observe(host)).steps.len(),
        second.len() == first.len(),
        all_done(first),
        all_done(second),
    ensures
        ({
            let once = host_after(always_on_top_plan(enabled, observe(host)), first, host);
            let twice = host_after(always_on_top_plan(enabled, observe(once)), second, once);
            &&& twice == once
            &&& outcome(always_on_top_plan(enabled, observe(once)), second) == outcome(
                always_on_top_plan(enabled, observe(host)),
                first,
            )
            &&& host.window is Some ==> {
                &&& once.window is Some
                &&& once.window->0.always_on_top == enabled
                &&& outcome(always_on_top_plan(enabled, observe(once)), second)
                    == Outcome::Completed
            }
        }),
{
    reveal_with_fuel(host_at, 2);
    reveal_with_fuel(reached, 2);
    reveal_with_fuel(outcome_from, 2);
}

/// Setting always-on-top without a window fails with the error that names the
/// missing window, and asks nothing of the host.
pub proof fn law_always_on_top_needs_window(enabled: bool, replies: Seq<Reply>)
    ensures
        always_on_top_plan(enabled, WindowStatus::Missing).steps.len() == 0,
        outcome(always_on_top_plan(enabled, WindowStatus::Missing), replies) == Outcome::Failed(
            ShortcutError::MissingWindow,
        ),
{
}

/// A call that the host refuses reaches the caller of either command as an
/// error that names the call and carries the host's words, and leaves the
/// host as it was.
pub proof fn law_refused_call_reaches_caller(
    os: OsFamily,
    value: bool,
    window: WindowStatus,
    host: HostModel,
    replies: Seq<Reply>,
)
    requires
        replies.len() == 1,
        replies[0] is Err,
    ensures
        icon_plan(os, value, window).steps.len() == 1 ==> {
            &&& outcome(icon_plan(os, value, window), replies) == Outcome::Failed(
                ShortcutError::Host {
                    failure: match os {
                        OsFamily::MacOs => HostFailure::ActivationPolicy,
                        OsFamily::Windows => HostFailure::TaskbarVisibility,
                        OsFamily::Linux => HostFailure::PanelVisibility,
                    },
                    detail: replies[0]->Err_0,
                },
            )
            &&& host_after(icon_plan(os, value, window), replies, host) == host
        },
        window is Present ==> {
            &&& outcome(always_on_top_plan(value, window), replies) == Outcome::Failed(
                ShortcutError::Host { failure: HostFailure::AlwaysOnTop, detail: replies[0]->Err_0 },
            )
            &&& host_after(always_on_top_plan(value, window), replies, host) == host
        },
{
    reveal_with_fuel(host_at, 2);
    reveal_with_fuel(reached, 2);
    reveal_with_fuel(outcome_from, 2);
}

} // verus!
