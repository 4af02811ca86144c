//! The registration manager: the combinations are parsed, bound to their
//! handlers and registered, and their registration is checked.

use crate::bindings::{action_at, default_combination, default_shortcut, Action, OsFamily, ACTION_COUNT};
use crate::error::{HostFailure, ShortcutError};
use crate::host::{Binding, HostOp, KeyState};
use crate::model::{
    all_done, answers_truthfully, host_after, host_at, lemma_host_rests_after_halt,
    lemma_questions_change_nothing, lemma_registry_only_grows, lemma_step_takes_effect, HostModel,
};
use crate::plan::{
    all_pass, lemma_outcome_from_reached, lemma_reached_iff_all_pass, lemma_reached_passes,
    outcome, outcome_from, passes, performed, reached, refusal, status_of, OnFailure, Outcome,
    Plan, PlanView, Reply, Step,
};
use global_hotkey::hotkey::{HotKey, HotKeyParseError};
use std::str::FromStr;
use vstd::prelude::*;

verus! {

/// `HotKeyParseError` of the hotkey service: the error with which its parser
/// rejects a combination string. The library tells it from success and reads
/// nothing in it.
#[verifier::external_type_specification]
#[verifier::external_body]
pub struct ExHotKeyParseError(HotKeyParseError);

/// What `HotKey::from_str` of the hotkey service makes of `text`: the parsed
/// combination, or `None` where it rejects the text. For a text that is not
/// [`target_free`] the contract of the parser fixes only whether this is
/// `Some`.
pub uninterp spec fn hotkey_text_parsed(text: Seq<char>) -> Option<HotKey>;

/// Whether `text` is ASCII and holds no letter o.
///
/// The parser reads one modifier by the target it was built for: "command or
/// control", in four spellings, each of which holds the letters "or". A text
/// without the letter o holds none of them, so that what it parses to is the
/// same on every target.
pub open spec fn target_free(text: Seq<char>) -> bool {
    forall|i: int|
        0 <= i < text.len() ==> (#[trigger] text[i]) as u32 <= 127 && text[i] != 'o' && text[i]
            != 'O'
}

/// Parses a combination string with `HotKey::from_str` of the hotkey service.
///
/// The parser splits the text at each plus sign, reads modifier names and
/// one key name without regard to case, and rejects a text with an empty
/// token, an unknown key, no key, or anything after the key. Whether it
/// accepts a text depends on the text alone. What it parses an accepted text
/// to depends on the text alone as well, unless a token spells "command or
/// control", which stands for one modifier on macOS and for another
/// elsewhere. So the contract names the parsed value for the texts that are
/// [`target_free`], and for the others only whether they are accepted.
/// Nothing is claimed of the error.
#[verifier::external_body]
fn parse_hotkey(text: &str) -> (parsed: Result<HotKey, HotKeyParseError>)
    ensures
        parsed is Ok <==> hotkey_text_parsed(text@) is Some,
        target_free(text@) ==> (parsed matches Ok(key) ==> hotkey_text_parsed(text@) == Some(key)),
{
    HotKey::from_str(text)
}

/// What the hotkey service makes of the combination of `action` on `os`.
pub open spec fn parsed_default(os: OsFamily, action: Action) -> Option<HotKey> {
    hotkey_text_parsed(default_combination(os, action))
}

/// Whether the combination of `action` on `os` is accepted by the hotkey
/// service.
pub open spec fn binds(os: OsFamily, action: Action) -> bool {
    parsed_default(os, action) is Some
}

/// The descriptor of `action` on `os`, or the parse error that names the
/// action where its combination is rejected.
pub open spec fn bound_default(os: OsFamily, action: Action) -> Result<Binding, ShortcutError> {
    match parsed_default(os, action) {
        Some(shortcut) => Ok(Binding { action, shortcut }),
        None => Err(ShortcutError::Parse { os, action }),
    }
}

/// No default combination holds a token that the parser reads by its target.
pub proof fn lemma_defaults_are_target_free(os: OsFamily, action: Action)
    ensures
        target_free(default_combination(os, action)),
{
    reveal_strlit("cmd");
    reveal_strlit("ctrl");
    reveal_strlit("+");
    reveal_strlit("backslash");
    reveal_strlit("shift+a");
    reveal_strlit("shift+s");
    reveal_strlit("shift+m");
}

/// The number of actions, in binding order, before the first whose
/// combination on `os` is rejected.
pub open spec fn accepted_prefix(os: OsFamily) -> nat {
    if !binds(os, action_at(0)) {
        0
    } else if !binds(os, action_at(1)) {
        1
    } else if !binds(os, action_at(2)) {
        2
    } else if !binds(os, action_at(3)) {
        3
    } else {
        4
    }
}

/// The parsed combination of `action` on `os`; meaningful where it is
/// accepted.
pub open spec fn parsed_key(os: OsFamily, action: Action) -> HotKey {
    parsed_default(os, action)->0
}

/// The four validated descriptors, one for each action.
#[derive(Clone, Copy, Debug, PartialEq, Eq)]
pub struct ShortcutSet {
    pub toggle: HotKey,
    pub audio: HotKey,
    pub screenshot: HotKey,
    pub system_audio: HotKey,
}

impl ShortcutSet {
    /// The parsed combination of `action`.
    pub open spec fn shortcut(self, action: Action) -> HotKey {
        match action {
            Action::ToggleWindow => self.toggle,
            Action::StartAudio => self.audio,
            Action::Screenshot => self.screenshot,
            Action::ToggleSystemAudio => self.system_audio,
        }
    }

    /// The descriptor of `action`.
    pub open spec fn binding_of(self, action: Action) -> Binding {
        Binding { action, shortcut: self.shortcut(action) }
    }

    /// The parsed combinations in binding order.
    pub open spec fn keys(self) -> Seq<HotKey> {
        seq![self.toggle, self.audio, self.screenshot, self.system_audio]
    }

    /// The descriptor of `action`.
    pub fn binding(&self, action: Action) -> (binding: Binding)
        ensures
            binding == self.binding_of(action),
    {
        let shortcut = match action {
            Action::ToggleWindow => self.toggle,
            Action::StartAudio => self.audio,
            Action::Screenshot => self.screenshot,
            Action::ToggleSystemAudio => self.system_audio,
        };
        Binding { action, shortcut }
    }
}

/// Whether the handler of a combination fires on this transition of the key:
/// on the press, and neither on the release nor on anything else.
pub fn handler_fires(key: KeyState) -> (fires: bool)
    ensures
        fires == (key is Pressed),
{
    match key {
        KeyState::Pressed => true,
        KeyState::Released => false,
    }
}

/// The step that attaches the handler of a binding.
pub open spec fn attach_step(binding: Binding) -> Step {
    Step {
        op: HostOp::AttachHandler(binding),
        on_failure: OnFailure::Raise(HostFailure::Registration(binding.action)),
    }
}

/// The step that registers a binding.
pub open spec fn register_step(binding: Binding) -> Step {
    Step {
        op: HostOp::Register(binding),
        on_failure: OnFailure::Raise(HostFailure::Registration(binding.action)),
    }
}

/// The step that asks whether a binding is registered. A binding that is not
/// ends the run without an error.
pub open spec fn query_step(binding: Binding) -> Step {
    Step { op: HostOp::IsRegistered(binding), on_failure: OnFailure::Stop { report: false } }
}

/// What setup asks for once all four combinations are parsed: the four
/// handlers are attached in binding order, then the four combinations are
/// registered in binding order. The first failure ends the run with an error
/// that names the binding; nothing that was done before is undone.
pub open spec fn setup_plan(set: ShortcutSet) -> PlanView {
    PlanView {
        steps: Seq::new(
            8,
            |i: int|
                if i < 4 {
                    attach_step(set.binding_of(action_at(i)))
                } else {
                    register_step(set.binding_of(action_at(i - 4)))
                },
        ),
        ending: Outcome::Completed,
    }
}

/// What the registration check asks for, where `keys` holds the parsed
/// combinations of the actions before the first that was rejected: one
/// question for each of them, in binding order, and then success if all four
/// were parsed, and else the parse error of the first that was not.
pub open spec fn check_plan(os: OsFamily, keys: Seq<HotKey>) -> PlanView {
    let count = if keys.len() < 4 {
        keys.len()
    } else {
        4
    };
    PlanView {
        steps: Seq::new(
            count,
            |i: int| query_step(Binding { action: action_at(i), shortcut: keys[i] }),
        ),
        ending: if keys.len() < 4 {
            Outcome::Failed(ShortcutError::Parse { os, action: action_at(keys.len() as int) })
        } else {
            Outcome::Completed
        },
    }
}

/// The descriptors that the default combinations of `os` parse to.
pub open spec fn parsed_set(os: OsFamily) -> ShortcutSet {
    ShortcutSet {
        toggle: parsed_key(os, Action::ToggleWindow),
        audio: parsed_key(os, Action::StartAudio),
        screenshot: parsed_key(os, Action::Screenshot),
        system_audio: parsed_key(os, Action::ToggleSystemAudio),
    }
}

/// The parsed combinations of `os` in binding order, up to the first that is
/// rejected.
pub open spec fn parsed_keys(os: OsFamily) -> Seq<HotKey> {
    Seq::new(accepted_prefix(os), |i: int| parsed_key(os, action_at(i)))
}

/// What setup asks for on `os`: nothing but the parse error of the first
/// combination that is rejected, if one is, and else the plan of
/// [`setup_plan`] for what the four combinations parse to.
pub open spec fn setup_plan_on(os: OsFamily) -> PlanView {
    if accepted_prefix(os) == 4 {
        setup_plan(parsed_set(os))
    } else {
        refusal(ShortcutError::Parse { os, action: action_at(accepted_prefix(os) as int) })
    }
}

/// What the registration check asks for on `os`.
pub open spec fn check_plan_on(os: OsFamily) -> PlanView {
    check_plan(os, parsed_keys(os))
}

/// Turns the parser's answer for the combination of `action` on `os` into a
/// descriptor, or into the parse error that names the action.
pub fn bind_parsed(os: OsFamily, action: Action, parsed: Result<HotKey, HotKeyParseError>) -> (bound:
    Result<Binding, ShortcutError>)
    ensures
        bound == (match parsed {
            Ok(shortcut) => Ok::<Binding, ShortcutError>(Binding { action, shortcut }),
            Err(_) => Err::<Binding, ShortcutError>(ShortcutError::Parse { os, action }),
        }),
{
    match parsed {
        Ok(shortcut) => Ok(Binding { action, shortcut }),
        Err(_) => Err(ShortcutError::Parse { os, action }),
    }
}

/// Parses the combination of `action` on `os` into a descriptor.
pub fn bind(os: OsFamily, action: Action) -> (bound: Result<Binding, ShortcutError>)
    ensures
        bound == bound_default(os, action),
{
    proof {
        lemma_defaults_are_target_free(os, action);
    }
    bind_parsed(os, action, parse_hotkey(default_shortcut(os, action)))
}

/// The plan of setup for four parsed combinations.
pub fn plan_setup(set: &ShortcutSet) -> (plan: Plan)
    ensures
        plan@ == setup_plan(*set),
{
    let mut plan = Plan::idle();
    let mut index: usize = 0;
    while index < ACTION_COUNT
        invariant
            index <= ACTION_COUNT,
            plan@.ending == Outcome::Completed,
            plan@.steps == setup_plan(*set).steps.take(index as int),
        decreases ACTION_COUNT - index,
    {
        let binding = set.binding(Action::from_index(index));
        plan.push(HostOp::AttachHandler(binding), OnFailure::Raise(HostFailure::Registration(binding.action)));
        index = index + 1;
    }
    index = 0;
    while index < ACTION_COUNT
        invariant
            index <= ACTION_COUNT,
            plan@.ending == Outcome::Completed,
            plan@.steps == setup_plan(*set).steps.take(index + 4),
        decreases ACTION_COUNT - index,
    {
        let binding = set.binding(Action::from_index(index));
        plan.push(HostOp::Register(binding), OnFailure::Raise(HostFailure::Registration(binding.action)));
        index = index + 1;
    }
    assert(plan@.steps =~= setup_plan(*set).steps);
    plan
}

/// The plan of the registration check, where `keys` holds the parsed
/// combinations of the actions before the first that was rejected. Keys
/// beyond the fourth are ignored.
pub fn plan_registration_check(os: OsFamily, keys: &Vec<HotKey>) -> (plan: Plan)
    ensures
        plan@ == check_plan(os, keys@),
{
    let count: usize = if keys.len() < ACTION_COUNT {
        keys.len()
    } else {
        ACTION_COUNT
    };
    let mut plan = if keys.len() < ACTION_COUNT {
        Plan::refuse(ShortcutError::Parse { os, action: Action::from_index(keys.len()) })
    } else {
        Plan::idle()
    };
    let mut index: usize = 0;
    while index < count
        invariant
            index <= count,
            count <= keys@.len(),
            count == check_plan(os, keys@).steps.len(),
            plan@.ending == check_plan(os, keys@).ending,
            plan@.steps == check_plan(os, keys@).steps.take(index as int),
        decreases count - index,
    {
        let binding = Binding { action: Action::from_index(index), shortcut: keys[index] };
        plan.push(HostOp::IsRegistered(binding), OnFailure::Stop { report: false });
        index = index + 1;
    }
    assert(plan@.steps =~= check_plan(os, keys@).steps);
    plan
}

/// Prepares the registration of the global hotkeys on `os`.
///
/// All four combinations are parsed before anything is asked of the host. If
/// one is rejected, the plan asks nothing and fails with the parse error of
/// the first that was: no handler is attached and nothing is registered.
/// Otherwise the plan is that of [`setup_plan`] for what they parse to.
pub fn setup_global_shortcuts(os: OsFamily) -> (plan: Plan)
    ensures
        plan@ == setup_plan_on(os),
{
    let toggle = match bind(os, Action::ToggleWindow) {
        Ok(binding) => binding.shortcut,
        Err(error) => {
            return Plan::refuse(error);
        },
    };
    let audio = match bind(os, Action::StartAudio) {
        Ok(binding) => binding.shortcut,
        Err(error) => {
            return Plan::refuse(error);
        },
    };
    let screenshot = match bind(os, Action::Screenshot) {
        Ok(binding) => binding.shortcut,
        Err(error) => {
            return Plan::refuse(error);
        },
    };
    let system_audio = match bind(os, Action::ToggleSystemAudio) {
        Ok(binding) => binding.shortcut,
        Err(error) => {
            return Plan::refuse(error);
        },
    };
    let set = ShortcutSet { toggle, audio, screenshot, system_audio };
    plan_setup(&set)
}

/// Prepares the check that all four combinations are registered on `os`.
///
/// The combinations are parsed in binding order up to the first that is
/// rejected. The plan asks once for each parsed combination and stops at the
/// first that is not registered; it completes if all four are registered, and
/// fails with the parse error if it gets as far as the rejected combination.
pub fn check_shortcuts_registered(os: OsFamily) -> (plan: Plan)
    ensures
        plan@ == check_plan_on(os),
{
    let mut keys: Vec<HotKey> = Vec::new();
    let mut index: usize = 0;
    let mut rejected = false;
    while index < ACTION_COUNT && !rejected
        invariant
            index <= ACTION_COUNT,
            keys@.len() == index,
            forall|i: int| 0 <= i < index ==> binds(os, #[trigger] action_at(i)),
            forall|i: int| 0 <= i < index ==> keys@[i] == parsed_key(os, #[trigger] action_at(i)),
            rejected ==> index < ACTION_COUNT && !binds(os, action_at(index as int)),
        decreases ACTION_COUNT - index, if rejected { 0int } else { 1int },
    {
        match bind(os, Action::from_index(index)) {
            Ok(binding) => {
                keys.push(binding.shortcut);
                index = index + 1;
            },
            Err(_) => {
                rejected = true;
            },
        }
    }
    assert(keys@ =~= parsed_keys(os));
    plan_registration_check(os, &keys)
}

/// The registration check succeeds exactly when the host confirms all four
/// combinations; if it denies one, the check stops there, asks no further and
/// answers `false`. The check changes nothing in the host.
pub proof fn law_check_needs_all_four(
    os: OsFamily,
    keys: Seq<HotKey>,
    host: HostModel,
    replies: Seq<Reply>,
)
    requires
        keys.len() == 4,
        replies.len() == 4,
    ensures
        outcome(check_plan(os, keys), replies) == Outcome::Completed <==> all_done(replies),
        !all_done(replies) ==> outcome(check_plan(os, keys), replies) == Outcome::Stopped,
        status_of(outcome(check_plan(os, keys), replies)) == Ok::<bool, ShortcutError>(
            all_done(replies),
        ),
        forall|i: int, j: int|
            #![trigger replies[i], performed(check_plan(os, keys), replies, j)]
            0 <= i < j < 4 && replies[i] is Err ==> !performed(check_plan(os, keys), replies, j),
        host_after(check_plan(os, keys), replies, host) == host,
{
    let plan = check_plan(os, keys);
    reveal_with_fuel(outcome_from, 5);
    assert forall|i: int, j: int|
        #![trigger replies[i], performed(plan, replies, j)]
        0 <= i < j < 4 && replies[i] is Err implies !performed(plan, replies, j) by {
        if reached(plan, replies, j) {
            lemma_reached_passes(plan, replies, j, i);
        }
    }
    lemma_questions_change_nothing(plan, replies, host, 4);
}

/// With a hotkey service that answers by what it holds, the registration
/// check answers `true` exactly when all four combinations are registered, so
/// that taking any one of them away turns the answer into `false`.
pub proof fn law_check_reports_registration(
    os: OsFamily,
    keys: Seq<HotKey>,
    host: HostModel,
    replies: Seq<Reply>,
)
    requires
        keys.len() == 4,
        replies.len() == 4,
        answers_truthfully(check_plan(os, keys), replies, host),
    ensures
        status_of(outcome(check_plan(os, keys), replies)) == Ok::<bool, ShortcutError>(
            forall|i: int| 0 <= i < 4 ==> host.registered.contains(#[trigger] keys[i]),
        ),
        forall|i: int|
            0 <= i < 4 && !host.registered.contains(#[trigger] keys[i]) ==> status_of(
                outcome(check_plan(os, keys), replies),
            ) == Ok::<bool, ShortcutError>(false),
{
    let plan = check_plan(os, keys);
    law_check_needs_all_four(os, keys, host, replies);
    assert forall|i: int| 0 <= i < 4 implies ((#[trigger] replies[i]) is Ok
        <==> host.registered.contains(keys[i])) by {
        lemma_questions_change_nothing(plan, replies, host, i);
        assert(plan.steps[i].op == HostOp::IsRegistered(
            Binding { action: action_at(i), shortcut: keys[i] },
        ));
    }
    if all_done(replies) {
        assert forall|i: int| 0 <= i < 4 implies host.registered.contains(#[trigger] keys[i]) by {
            assert(replies[i] is Ok);
        }
    }
}

/// A combination that is rejected turns the registration check into an error
/// that is no answer: if every combination before it is registered, the check
/// fails with the parse error that names the action, and if one of them is
/// not, the check has answered `false` before it comes to the rejected one.
pub proof fn law_check_reports_parse_failure(os: OsFamily, keys: Seq<HotKey>, replies: Seq<Reply>)
    requires
        keys.len() < 4,
        replies.len() == keys.len(),
    ensures
        all_done(replies) ==> outcome(check_plan(os, keys), replies) == Outcome::Failed(
            ShortcutError::Parse { os, action: action_at(keys.len() as int) },
        ),
        !all_done(replies) ==> outcome(check_plan(os, keys), replies) == Outcome::Stopped,
{
    reveal_with_fuel(outcome_from, 5);
}

/// The action whose binding step `index` of setup works on.
pub open spec fn setup_action(index: int) -> Action {
    if index < 4 {
        action_at(index)
    } else {
        action_at(index - 4)
    }
}

/// Setup on a host that carries every call out attaches a handler to each of
/// the four combinations and registers each of them, and a registration check
/// of the same combinations that follows answers `true`.
pub proof fn law_setup_then_check(
    os: OsFamily,
    set: ShortcutSet,
    host: HostModel,
    setup_replies: Seq<Reply>,
    check_replies: Seq<Reply>,
)
    requires
        setup_replies.len() == 8,
        all_done(setup_replies),
        check_replies.len() == 4,
        answers_truthfully(
            check_plan(os, set.keys()),
            check_replies,
            host_after(setup_plan(set), setup_replies, host),
        ),
    ensures
        outcome(setup_plan(set), setup_replies) == Outcome::Completed,
        forall|action: Action|
            host_after(setup_plan(set), setup_replies, host).handlers.contains(
                #[trigger] set.shortcut(action),
            ),
        forall|action: Action|
            host_after(setup_plan(set), setup_replies, host).registered.contains(
                #[trigger] set.shortcut(action),
            ),
        status_of(outcome(check_plan(os, set.keys()), check_replies)) == Ok::<bool, ShortcutError>(
            true,
        ),
{
    let plan = setup_plan(set);
    let after = host_after(plan, setup_replies, host);
    assert forall|i: int| 0 <= i <= 8 implies #[trigger] reached(plan, setup_replies, i) by {
        lemma_reached_iff_all_pass(plan, setup_replies, i);
    }
    lemma_outcome_from_reached(plan, setup_replies, 8);
    assert forall|action: Action|
        after.handlers.contains(#[trigger] set.shortcut(action)) && after.registered.contains(
            set.shortcut(action),
        ) by {
        let i = action.index_of();
        lemma_step_takes_effect(plan, setup_replies, host, i);
        lemma_step_takes_effect(plan, setup_replies, host, i + 4);
        lemma_registry_only_grows(plan, setup_replies, host, i + 1, 8);
        lemma_registry_only_grows(plan, setup_replies, host, i + 5, 8);
    }
    law_check_reports_registration(os, set.keys(), after, check_replies);
    assert forall|i: int| 0 <= i < 4 implies after.registered.contains(
        #[trigger] set.keys()[i],
    ) by {
        assert(set.keys()[i] == set.shortcut(action_at(i)));
    }
}

/// A failure during setup ends it with the error that names the binding whose
/// step failed and carries the host's words. The steps before it have had
/// their effect and keep it; the steps after it are not performed.
pub proof fn law_setup_failure_names_binding(
    set: ShortcutSet,
    host: HostModel,
    replies: Seq<Reply>,
    failed: int,
)
    requires
        replies.len() == 8,
        0 <= failed < 8,
        replies[failed] is Err,
        forall|i: int| 0 <= i < failed ==> (#[trigger] replies[i]) is Ok,
    ensures
        outcome(setup_plan(set), replies) == Outcome::Failed(
            ShortcutError::Host {
                failure: HostFailure::Registration(setup_action(failed)),
                detail: replies[failed]->Err_0,
            },
        ),
        forall|i: int|
            0 <= i < 8 ==> (#[trigger] performed(setup_plan(set), replies, i) <==> i <= failed),
        forall|i: int|
            0 <= i < 4 && i < failed ==> host_after(setup_plan(set), replies, host).handlers.contains(
                set.shortcut(#[trigger] action_at(i)),
            ),
        forall|i: int|
            0 <= i < 4 && i + 4 < failed ==> host_after(
                setup_plan(set),
                replies,
                host,
            ).registered.contains(set.shortcut(#[trigger] action_at(i))),
        host_after(setup_plan(set), replies, host) == host_at(setup_plan(set), replies, host, failed),
{
    let plan = setup_plan(set);
    assert forall|i: int| 0 <= i <= failed implies #[trigger] reached(plan, replies, i) by {
        lemma_reached_iff_all_pass(plan, replies, i);
    }
    lemma_outcome_from_reached(plan, replies, failed);
    assert forall|i: int| 0 <= i < 8 implies (#[trigger] performed(plan, replies, i) <==> i
        <= failed) by {
        if i > failed && reached(plan, replies, i) {
            lemma_reached_passes(plan, replies, i, failed);
        }
    }
    lemma_host_rests_after_halt(plan, replies, host, failed, 8);
    assert forall|i: int| 0 <= i < 4 && i < failed implies host_after(
        plan,
        replies,
        host,
    ).handlers.contains(set.shortcut(#[trigger] action_at(i))) by {
        lemma_step_takes_effect(plan, replies, host, i);
        lemma_registry_only_grows(plan, replies, host, i + 1, failed);
    }
    assert forall|i: int| 0 <= i < 4 && i + 4 < failed implies host_after(
        plan,
        replies,
        host,
    ).registered.contains(set.shortcut(#[trigger] action_at(i))) by {
        lemma_step_takes_effect(plan, replies, host, i + 4);
        lemma_registry_only_grows(plan, replies, host, i + 5, failed);
    }
}

/// A combination that is rejected keeps setup from asking anything of the
/// host: whatever the host would reply, nothing is attached or registered,
/// and setup fails with the parse error.
pub proof fn law_rejected_combination_stops_setup(
    error: ShortcutError,
    host: HostModel,
    replies: Seq<Reply>,
)
    ensures
        host_after(refusal(error), replies, host) == host,
        outcome(refusal(error), replies) == Outcome::Failed(error),
        forall|i: int| !performed(refusal(error), replies, i),
{
}

/// The plans of setup and of the registration check work on the combinations
/// that are listed: for each action, the handler is attached to, the
/// registration is made of, and the question is asked about what the hotkey
/// service parses the action's default combination to.
pub proof fn law_plans_use_the_listed_combinations(os: OsFamily, action: Action)
    ensures
        accepted_prefix(os) == 4 ==> {
            let binding = Binding { action, shortcut: parsed_key(os, action) };
            &&& bound_default(os, action) == Ok::<Binding, ShortcutError>(binding)
            &&& setup_plan_on(os).steps[action.index_of()] == attach_step(binding)
            &&& setup_plan_on(os).steps[action.index_of() + 4] == register_step(binding)
            &&& check_plan_on(os).steps[action.index_of()] == query_step(binding)
        },
{
}

/// Where the hotkey service accepts the four default combinations of `os`,
/// setup on a host that carries every call out succeeds, and a registration
/// check that follows and is answered by what the service holds answers
/// `true`. Whatever the service answers, the check is no error.
pub proof fn law_setup_then_check_on(
    os: OsFamily,
    host: HostModel,
    setup_replies: Seq<Reply>,
    check_replies: Seq<Reply>,
)
    requires
        setup_replies.len() == 8,
        all_done(setup_replies),
        check_replies.len() == 4,
    ensures
        accepted_prefix(os) == 4 ==> {
            &&& status_of(outcome(setup_plan_on(os), setup_replies)) == Ok::<bool, ShortcutError>(
                true,
            )
            &&& status_of(outcome(check_plan_on(os), check_replies)) is Ok
            &&& answers_truthfully(
                check_plan_on(os),
                check_replies,
                host_after(setup_plan_on(os), setup_replies, host),
            ) ==> status_of(outcome(check_plan_on(os), check_replies)) == Ok::<bool, ShortcutError>(
                true,
            )
        },
{
    if accepted_prefix(os) == 4 {
        let set = parsed_set(os);
        assert(parsed_keys(os) =~= set.keys());
        let after = host_after(setup_plan(set), setup_replies, host);
        law_check_needs_all_four(os, set.keys(), after, check_replies);
        assert forall|i: int| 0 <= i <= 8 implies #[trigger] reached(
            setup_plan(set),
            setup_replies,
            i,
        ) by {
            lemma_reached_iff_all_pass(setup_plan(set), setup_replies, i);
        }
        lemma_outcome_from_reached(setup_plan(set), setup_replies, 8);
        if answers_truthfully(check_plan(os, set.keys()), check_replies, after) {
            law_setup_then_check(os, set, host, setup_replies, check_replies);
        }
    }
}

} // verus!
