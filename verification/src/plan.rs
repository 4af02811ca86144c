//! Plans and runs.
//!
//! A plan is what a command asks of the host: a list of operations, each with
//! the answer to its failure, and the outcome that is reached when no step
//! ends the run early. A run hands the steps out one by one and takes the
//! host's reply to each.

use crate::error::{HostFailure, ShortcutError};
use crate::host::HostOp;
use vstd::prelude::*;

verus! {

/// The host's reply to one operation: done, or refused with the host's words.
pub type Reply = Result<(), String>;

/// What becomes of a run when a step fails.
#[derive(Clone, Copy, Debug, PartialEq, Eq, Structural)]
pub enum OnFailure {
    /// The failure is logged and the run goes on with the next step.
    Proceed,
    /// The run ends there and the caller is told of no error. The failure is
    /// logged where `report` is set.
    Stop { report: bool },
    /// The run ends with an error for the caller.
    Raise(HostFailure),
}

/// One operation of a plan.
#[derive(Clone, Copy, Debug, PartialEq, Eq)]
pub struct Step {
    pub op: HostOp,
    pub on_failure: OnFailure,
}

/// How a run ended.
#[derive(Clone, Debug, PartialEq, Eq)]
pub enum Outcome {
    /// No step ended the run.
    Completed,
    /// A step failed and ended the run; the caller is told of no error.
    Stopped,
    /// The run ended with an error for the caller.
    Failed(ShortcutError),
}

/// What a command asks of the host.
#[derive(Clone, Debug, PartialEq, Eq)]
pub struct Plan {
    pub steps: Vec<Step>,
    /// The outcome of a run that no step ends.
    pub ending: Outcome,
}

/// A plan as a mathematical value.
pub struct PlanView {
    pub steps: Seq<Step>,
    pub ending: Outcome,
}

impl View for Plan {
    type V = PlanView;

    open spec fn view(&self) -> PlanView {
        PlanView { steps: self.steps@, ending: self.ending }
    }
}

/// The plan that asks nothing and completes.
pub open spec fn idle_plan() -> PlanView {
    PlanView { steps: Seq::empty(), ending: Outcome::Completed }
}

/// The plan that asks nothing and fails with `error`.
pub open spec fn refusal(error: ShortcutError) -> PlanView {
    PlanView { steps: Seq::empty(), ending: Outcome::Failed(error) }
}

/// The plan that asks for one operation and completes after it.
pub open spec fn single(op: HostOp, on_failure: OnFailure) -> PlanView {
    PlanView { steps: seq![Step { op, on_failure }], ending: Outcome::Completed }
}

/// Whether a run goes on after `step` was answered with `reply`.
pub open spec fn passes(step: Step, reply: Reply) -> bool {
    reply is Ok || step.on_failure is Proceed
}

/// The outcome with which `step` ends the run when `reply` does not pass.
pub open spec fn halt(step: Step, reply: Reply) -> Outcome {
    match (step.on_failure, reply) {
        (OnFailure::Raise(failure), Err(detail)) => Outcome::Failed(
            ShortcutError::Host { failure, detail },
        ),
        _ => Outcome::Stopped,
    }
}

/// Whether a run of `plan` gets as far as position `index`, where
/// `replies[i]` is the host's reply to step `i`: every step before `index`
/// was performed and passed.
pub open spec fn reached(plan: PlanView, replies: Seq<Reply>, index: int) -> bool
    decreases index,
{
    if index <= 0 {
        true
    } else {
        &&& index <= plan.steps.len()
        &&& reached(plan, replies, index - 1)
        &&& passes(plan.steps[index - 1], replies[index - 1])
    }
}

/// Whether step `index` of `plan` is handed to the host.
pub open spec fn performed(plan: PlanView, replies: Seq<Reply>, index: int) -> bool {
    0 <= index < plan.steps.len() && reached(plan, replies, index)
}

/// The outcome of the part of a run that starts at step `index`.
pub open spec fn outcome_from(plan: PlanView, replies: Seq<Reply>, index: int) -> Outcome
    decreases plan.steps.len() - index,
{
    if index < 0 || index >= plan.steps.len() {
        plan.ending
    } else if passes(plan.steps[index], replies[index]) {
        outcome_from(plan, replies, index + 1)
    } else {
        halt(plan.steps[index], replies[index])
    }
}

/// The outcome of a run of `plan` in which step `i`, if it is performed, is
/// answered with `replies[i]`.
pub open spec fn outcome(plan: PlanView, replies: Seq<Reply>) -> Outcome {
    outcome_from(plan, replies, 0)
}

/// What the caller of a command is told, as a spec value.
pub open spec fn status_of(outcome: Outcome) -> Result<bool, ShortcutError> {
    match outcome {
        Outcome::Completed => Ok(true),
        Outcome::Stopped => Ok(false),
        Outcome::Failed(error) => Err(error),
    }
}

impl Outcome {
    /// What the caller of a command is told: `Ok(true)` after a run that
    /// completed, `Ok(false)` after one that a step ended without an error,
    /// and the error otherwise.
    pub fn status(self) -> (status: Result<bool, ShortcutError>)
        ensures
            status == status_of(self),
    {
        match self {
            Outcome::Completed => Ok(true),
            Outcome::Stopped => Ok(false),
            Outcome::Failed(error) => Err(error),
        }
    }
}

impl OnFailure {
    /// Whether a failure under this policy is logged.
    pub fn reports(self) -> (logged: bool)
        ensures
            logged == (match self {
                OnFailure::Proceed => true,
                OnFailure::Stop { report } => report,
                OnFailure::Raise(_) => false,
            }),
    {
        match self {
            OnFailure::Proceed => true,
            OnFailure::Stop { report } => report,
            OnFailure::Raise(_) => false,
        }
    }
}

impl Plan {
    /// The plan that asks nothing and completes.
    pub fn idle() -> (plan: Plan)
        ensures
            plan@ == idle_plan(),
    {
        Plan { steps: Vec::new(), ending: Outcome::Completed }
    }

    /// The plan that asks nothing and fails with `error`.
    pub fn refuse(error: ShortcutError) -> (plan: Plan)
        ensures
            plan@ == refusal(error),
    {
        Plan { steps: Vec::new(), ending: Outcome::Failed(error) }
    }

    /// The plan that asks for one operation and completes after it.
    pub fn one(op: HostOp, on_failure: OnFailure) -> (plan: Plan)
        ensures
            plan@ == single(op, on_failure),
    {
        let mut plan = Plan::idle();
        plan.push(op, on_failure);
        plan
    }

    /// Adds a step at the end.
    pub fn push(&mut self, op: HostOp, on_failure: OnFailure)
        ensures
            final(self)@.steps == old(self)@.steps.push(Step { op, on_failure }),
            final(self)@.ending == old(self)@.ending,
    {
        self.steps.push(Step { op, on_failure });
    }
}

/// How far a run has come.
pub struct Progress {
    /// The number of steps that were answered and passed.
    pub cursor: nat,
    /// The outcome with which a step ended the run, if one did.
    pub halted: Option<Outcome>,
}

/// The progress of a run that has not begun.
pub open spec fn at_start() -> Progress {
    Progress { cursor: 0, halted: None }
}

/// The step that a run of `plan` at `progress` waits for a reply to.
pub open spec fn pending_step(plan: PlanView, progress: Progress) -> Option<Step> {
    if progress.halted is None && progress.cursor < plan.steps.len() {
        Some(plan.steps[progress.cursor as int])
    } else {
        None
    }
}

/// The progress after `reply` was recorded. A run that waits for no reply
/// ignores it.
pub open spec fn advance(plan: PlanView, progress: Progress, reply: Reply) -> Progress {
    match pending_step(plan, progress) {
        None => progress,
        Some(step) => if passes(step, reply) {
            Progress { cursor: progress.cursor + 1, halted: None }
        } else {
            Progress { cursor: progress.cursor, halted: Some(halt(step, reply)) }
        },
    }
}

/// The outcome of a run at `progress`, once it waits for no reply.
pub open spec fn settled(plan: PlanView, progress: Progress) -> Option<Outcome> {
    if progress.halted is Some {
        progress.halted
    } else if progress.cursor >= plan.steps.len() {
        Some(plan.ending)
    } else {
        None
    }
}

/// The progress of a run of `plan` after the first `count` of `replies` were
/// recorded in order.
pub open spec fn progress_after(plan: PlanView, replies: Seq<Reply>, count: nat) -> Progress
    decreases count,
{
    if count == 0 {
        at_start()
    } else {
        advance(plan, progress_after(plan, replies, (count - 1) as nat), replies[count - 1])
    }
}

/// A plan that is being carried out.
pub struct Run {
    plan: Plan,
    cursor: usize,
    halted: Option<Outcome>,
}

impl Run {
    /// The plan that is carried out.
    pub closed spec fn plan(&self) -> PlanView {
        self.plan@
    }

    /// How far the run has come.
    pub closed spec fn progress(&self) -> Progress {
        Progress { cursor: self.cursor as nat, halted: self.halted }
    }

    /// Begins a run of `plan`.
    pub fn start(plan: Plan) -> (run: Run)
        ensures
            run.plan() == plan@,
            run.progress() == at_start(),
    {
        Run { plan, cursor: 0, halted: None }
    }

    /// The step that the host is to perform now, or `None` when the run is
    /// over.
    pub fn pending(&self) -> (step: Option<Step>)
        ensures
            step == pending_step(self.plan(), self.progress()),
    {
        if self.halted.is_none() && self.cursor < self.plan.steps.len() {
            Some(self.plan.steps[self.cursor])
        } else {
            None
        }
    }

    /// Records the host's reply to the pending step.
    pub fn record(&mut self, reply: Reply)
        ensures
            final(self).plan() == old(self).plan(),
            final(self).progress() == advance(old(self).plan(), old(self).progress(), reply),
    {
        if self.halted.is_none() && self.cursor < self.plan.steps.len() {
            let step = self.plan.steps[self.cursor];
            match reply {
                Ok(_) => {
                    self.cursor = self.cursor + 1;
                },
                Err(detail) => match step.on_failure {
                    OnFailure::Proceed => {
                        self.cursor = self.cursor + 1;
                    },
                    OnFailure::Stop { report: _ } => {
                        self.halted = Some(Outcome::Stopped);
                    },
                    OnFailure::Raise(failure) => {
                        self.halted = Some(
                            Outcome::Failed(ShortcutError::Host { failure, detail }),
                        );
                    },
                },
            }
        }
    }

    /// The outcome of the run, or `None` while a step is pending.
    pub fn finish(self) -> (outcome: Option<Outcome>)
        ensures
            outcome == settled(self.plan(), self.progress()),
    {
        if self.halted.is_some() {
            self.halted
        } else if self.cursor >= self.plan.steps.len() {
            Some(self.plan.ending)
        } else {
            None
        }
    }
}

/// How the progress of a run reads in terms of the plan: while no step has
/// ended it, the cursor counts the replies; once one has, the run stays where
/// it is.
proof fn lemma_progress(plan: PlanView, replies: Seq<Reply>, count: nat)
    requires
        count <= plan.steps.len(),
    ensures
        reached(plan, replies, count as int) ==> progress_after(plan, replies, count) == (Progress {
            cursor: count,
            halted: None,
        }),
        !reached(plan, replies, count as int) ==> exists|stop: int|
            0 <= stop < count && #[trigger] reached(plan, replies, stop) && !passes(
                plan.steps[stop],
                replies[stop],
            ) && progress_after(plan, replies, count) == (Progress {
                cursor: stop as nat,
                halted: Some(halt(plan.steps[stop], replies[stop])),
            }),
    decreases count,
{
    if count > 0 {
        let before = (count - 1) as nat;
        lemma_progress(plan, replies, before);
    }
}

/// Whether the steps from `from` up to, and not including, `to` all pass.
pub open spec fn all_pass(plan: PlanView, replies: Seq<Reply>, from: int, to: int) -> bool {
    forall|i: int| from <= i < to ==> #[trigger] passes(plan.steps[i], replies[i])
}

/// A run reaches a position exactly when every step before it passes.
pub proof fn lemma_reached_iff_all_pass(plan: PlanView, replies: Seq<Reply>, index: int)
    requires
        0 <= index <= plan.steps.len(),
    ensures
        reached(plan, replies, index) <==> all_pass(plan, replies, 0, index),
    decreases index,
{
    if index > 0 {
        lemma_reached_iff_all_pass(plan, replies, index - 1);
    }
}

/// A position that a run reaches lies behind steps that were all reached and
/// passed.
pub proof fn lemma_reached_passes(plan: PlanView, replies: Seq<Reply>, index: int, before: int)
    requires
        0 <= before < index,
        reached(plan, replies, index),
    ensures
        index <= plan.steps.len(),
        reached(plan, replies, before),
        passes(plan.steps[before], replies[before]),
    decreases index,
{
    if before < index - 1 {
        lemma_reached_passes(plan, replies, index - 1, before);
    }
}

/// The outcome from a position that the run reaches is the outcome of the run.
pub proof fn lemma_outcome_from_reached(plan: PlanView, replies: Seq<Reply>, index: int)
    requires
        0 <= index <= plan.steps.len(),
        reached(plan, replies, index),
    ensures
        outcome_from(plan, replies, index) == outcome(plan, replies),
    decreases index,
{
    if index > 0 {
        lemma_outcome_from_reached(plan, replies, index - 1);
    }
}

/// A run that is fed one reply for each step of its plan is over, and ends
/// with the outcome that the plan has under those replies. The host is handed
/// step `i` exactly when the steps before it all passed.
pub proof fn law_run_follows_plan(plan: PlanView, replies: Seq<Reply>)
    requires
        replies.len() == plan.steps.len(),
    ensures
        settled(plan, progress_after(plan, replies, replies.len())) == Some(outcome(plan, replies)),
        forall|i: int|
            0 <= i < plan.steps.len() ==> (#[trigger] performed(plan, replies, i) <==> pending_step(
                plan,
                progress_after(plan, replies, i as nat),
            ) == Some(plan.steps[i])),
{
    let count = replies.len();
    lemma_progress(plan, replies, count);
    if reached(plan, replies, count as int) {
        lemma_outcome_from_reached(plan, replies, count as int);
    } else {
        let stop = choose|stop: int|
            0 <= stop < count && #[trigger] reached(plan, replies, stop) && !passes(
                plan.steps[stop],
                replies[stop],
            ) && progress_after(plan, replies, count) == (Progress {
                cursor: stop as nat,
                halted: Some(halt(plan.steps[stop], replies[stop])),
            });
        lemma_outcome_from_reached(plan, replies, stop);
    }
    assert forall|i: int| 0 <= i < plan.steps.len() implies (#[trigger] performed(plan, replies, i)
        <==> pending_step(plan, progress_after(plan, replies, i as nat)) == Some(
        plan.steps[i],
    )) by {
        lemma_progress(plan, replies, i as nat);
    }
}

} // verus!
