//! A model of the window host.
//!
//! The laws of this library speak of what a run does to the host. This module
//! says what that means: what the host holds, what each operation does to it
//! when it succeeds, and the state of the host at each position of a run. An
//! operation that fails changes nothing.

use crate::host::{ActivationPolicy, HostOp, Notification, Visibility, WindowStatus};
use crate::plan::{lemma_reached_passes, passes, performed, reached, PlanView, Reply};
use global_hotkey::hotkey::HotKey;
use vstd::prelude::*;

verus! {

/// The target window, as the host holds it.
pub struct WindowModel {
    pub visible: bool,
    pub focused: bool,
    pub skip_taskbar: bool,
    pub always_on_top: bool,
}

/// The window host and the hotkey service.
pub struct HostModel {
    /// The target window, if it exists.
    pub window: Option<WindowModel>,
    pub activation: ActivationPolicy,
    /// The combinations that a handler is attached to.
    pub handlers: Set<HotKey>,
    /// The combinations that are registered.
    pub registered: Set<HotKey>,
    /// The notifications delivered so far, oldest first.
    pub emitted: Seq<Notification>,
}

/// What the caller finds when it looks for the window and asks for its
/// visibility.
pub open spec fn observe(host: HostModel) -> WindowStatus {
    match host.window {
        None => WindowStatus::Missing,
        Some(window) => if window.visible {
            WindowStatus::Present(Visibility::Visible)
        } else {
            WindowStatus::Present(Visibility::Hidden)
        },
    }
}

/// The window after the listener of the application has received the new
/// value of the tracked flag: it maps or unmaps the window to match.
pub open spec fn follow_flag(window: WindowModel, hidden: bool) -> WindowModel {
    WindowModel { visible: !hidden, focused: window.focused && !hidden, ..window }
}

/// The window after an operation on it has succeeded.
pub open spec fn window_effect(op: HostOp, window: WindowModel) -> WindowModel {
    match op {
        HostOp::Hide => WindowModel { visible: false, focused: false, ..window },
        HostOp::Show => WindowModel { visible: true, ..window },
        HostOp::SetFocus => WindowModel { focused: true, ..window },
        HostOp::SetSkipTaskbar(skip) => WindowModel { skip_taskbar: skip, ..window },
        HostOp::SetAlwaysOnTop(enabled) => WindowModel { always_on_top: enabled, ..window },
        HostOp::Emit(Notification::ToggleWindowVisibility(hidden)) => follow_flag(window, hidden),
        _ => window,
    }
}

/// The host after `op` has succeeded.
pub open spec fn effect(op: HostOp, host: HostModel) -> HostModel {
    let window = match host.window {
        None => None,
        Some(window) => Some(window_effect(op, window)),
    };
    match op {
        HostOp::Emit(notification) => HostModel {
            window,
            emitted: host.emitted.push(notification),
            ..host
        },
        HostOp::SetActivationPolicy(policy) => HostModel { activation: policy, ..host },
        HostOp::AttachHandler(binding) => HostModel {
            handlers: host.handlers.insert(binding.shortcut),
            ..host
        },
        HostOp::Register(binding) => HostModel {
            registered: host.registered.insert(binding.shortcut),
            ..host
        },
        _ => HostModel { window, ..host },
    }
}

/// The host when a run of `plan` that began at `host` stands at position
/// `index`: the steps before `index` that were performed and succeeded have
/// had their effect, in order.
pub open spec fn host_at(plan: PlanView, replies: Seq<Reply>, host: HostModel, index: int) -> HostModel
    decreases index,
{
    if index <= 0 {
        host
    } else {
        let before = host_at(plan, replies, host, index - 1);
        if index <= plan.steps.len() && reached(plan, replies, index - 1) && replies[index - 1] is Ok {
            effect(plan.steps[index - 1].op, before)
        } else {
            before
        }
    }
}

/// The host after a run of `plan` that began at `host`.
pub open spec fn host_after(plan: PlanView, replies: Seq<Reply>, host: HostModel) -> HostModel {
    host_at(plan, replies, host, plan.steps.len() as int)
}

/// Whether the hotkey service answers each question of the run by what it
/// holds at that moment.
pub open spec fn answers_truthfully(plan: PlanView, replies: Seq<Reply>, host: HostModel) -> bool {
    forall|i: int|
        0 <= i < plan.steps.len() ==> (#[trigger] plan.steps[i].op matches HostOp::IsRegistered(
            binding,
        ) ==> (replies[i] is Ok <==> host_at(plan, replies, host, i).registered.contains(
            binding.shortcut,
        )))
}

/// The replies of a host that carries `count` operations out.
pub open spec fn done_replies(count: nat) -> Seq<Reply> {
    Seq::new(count, |i: int| Ok::<(), String>(()))
}

/// Whether the host carries every operation out.
pub open spec fn all_done(replies: Seq<Reply>) -> bool {
    forall|i: int| 0 <= i < replies.len() ==> (#[trigger] replies[i]) is Ok
}

/// A step that is performed and succeeds has its effect on the host.
pub proof fn lemma_step_takes_effect(
    plan: PlanView,
    replies: Seq<Reply>,
    host: HostModel,
    index: int,
)
    requires
        performed(plan, replies, index),
        replies[index] is Ok,
    ensures
        host_at(plan, replies, host, index + 1) == effect(
            plan.steps[index].op,
            host_at(plan, replies, host, index),
        ),
{
}

/// No operation detaches a handler or takes a registration back: what the
/// hotkey service holds at one position of a run it holds at every later one.
pub proof fn lemma_registry_only_grows(
    plan: PlanView,
    replies: Seq<Reply>,
    host: HostModel,
    from: int,
    to: int,
)
    requires
        0 <= from <= to,
    ensures
        host_at(plan, replies, host, from).handlers.subset_of(
            host_at(plan, replies, host, to).handlers,
        ),
        host_at(plan, replies, host, from).registered.subset_of(
            host_at(plan, replies, host, to).registered,
        ),
    decreases to,
{
    if from < to {
        lemma_registry_only_grows(plan, replies, host, from, to - 1);
    }
}

/// Once a step has ended a run, the host stays as that step found it.
pub proof fn lemma_host_rests_after_halt(
    plan: PlanView,
    replies: Seq<Reply>,
    host: HostModel,
    stop: int,
    index: int,
)
    requires
        0 <= stop <= index,
        stop < plan.steps.len(),
        !passes(plan.steps[stop], replies[stop]),
    ensures
        host_at(plan, replies, host, index) == host_at(plan, replies, host, stop),
    decreases index,
{
    if stop < index {
        lemma_host_rests_after_halt(plan, replies, host, stop, index - 1);
        if stop < index - 1 && reached(plan, replies, index - 1) {
            lemma_reached_passes(plan, replies, index - 1, stop);
        }
    }
}

/// A run that only asks whether combinations are registered leaves the host
/// as it is.
pub proof fn lemma_questions_change_nothing(
    plan: PlanView,
    replies: Seq<Reply>,
    host: HostModel,
    index: int,
)
    requires
        forall|i: int| 0 <= i < plan.steps.len() ==> (#[trigger] plan.steps[i]).op is IsRegistered,
    ensures
        host_at(plan, replies, host, index) == host,
    decreases index,
{
    if index > 0 {
        lemma_questions_change_nothing(plan, replies, host, index - 1);
    }
}

} // verus!
