//! Carrying a plan out: which step comes next, and when to stop.
//!
//! The caller performs each step on the filesystem and reports how it went;
//! the decisions are made here. Steps are handed out strictly in order, and
//! the first failure ends the run with the later steps untouched and the
//! earlier ones left as they are.

use vstd::prelude::*;
use crate::plan::{steps_of, StepView, Transfer, TransferStep};

verus! {

/// What the caller reports.
#[derive(Clone, Copy, Debug, PartialEq, Eq, Structural)]
pub enum StepEvent {
    /// Nothing yet: the run begins, or is taken up again where it stood.
    Started,
    /// The step that was handed out last has been carried out.
    Succeeded,
    /// The step that was handed out last has failed.
    Failed,
}

/// What the caller is to do next.
#[derive(Debug, PartialEq, Eq)]
pub enum StepAction {
    /// Carry this step out and report how it went.
    Perform(TransferStep),
    /// Every step has been carried out.
    Finish,
    /// A step has failed: stop, and undo nothing.
    Abort,
}

/// The mathematical content of a `StepAction`.
pub ghost enum ActionView {
    Perform(StepView),
    Finish,
    Abort,
}

impl View for StepAction {
    type V = ActionView;

    open spec fn view(&self) -> ActionView {
        match self {
            StepAction::Perform(step) => ActionView::Perform(step@),
            StepAction::Finish => ActionView::Finish,
            StepAction::Abort => ActionView::Abort,
        }
    }
}

/// A plan under way: its steps, and how many of them have been carried out.
#[derive(Debug)]
pub struct Execution {
    steps: Vec<TransferStep>,
    completed: usize,
}

/// The mathematical content of an `Execution`.
pub ghost struct ExecutionView {
    pub steps: Seq<StepView>,
    pub completed: nat,
}

impl View for Execution {
    type V = ExecutionView;

    closed spec fn view(&self) -> ExecutionView {
        ExecutionView { steps: steps_of(self.steps@), completed: self.completed as nat }
    }
}

/// The number of steps carried out once `event` has been taken in: one more
/// after a success while steps are left, and as many as before otherwise.
pub open spec fn completed_after(state: ExecutionView, event: StepEvent) -> nat {
    if event == StepEvent::Succeeded && state.completed < state.steps.len() {
        state.completed + 1
    } else {
        state.completed
    }
}

/// What `event` calls for in `state`: after a failure, to stop; otherwise
/// the first step not yet carried out, or to finish where none is left.
pub open spec fn action_after(state: ExecutionView, event: StepEvent) -> ActionView {
    let completed = completed_after(state, event);
    if event == StepEvent::Failed {
        ActionView::Abort
    } else if completed < state.steps.len() {
        ActionView::Perform(state.steps[completed as int])
    } else {
        ActionView::Finish
    }
}

/// The state of a run of `steps` in which `count` steps have been reported
/// as carried out, one after the other from the beginning.
pub open spec fn after_successes(steps: Seq<StepView>, count: nat) -> ExecutionView
    decreases count,
{
    if count == 0 {
        ExecutionView { steps, completed: 0 }
    } else {
        let before = after_successes(steps, (count - 1) as nat);
        ExecutionView { steps, completed: completed_after(before, StepEvent::Succeeded) }
    }
}

/// The steps are handed out strictly in order: at the start the first, and
/// after as many successes as there are steps before it, each later one; once
/// all have succeeded, the run finishes. A failure at any point stops the run
/// and leaves the count of steps carried out as it was.
pub proof fn lemma_steps_in_order(steps: Seq<StepView>, count: nat)
    requires
        count <= steps.len(),
    ensures
        after_successes(steps, count).completed == count,
        action_after(after_successes(steps, count), StepEvent::Started) == if count
            < steps.len() {
            ActionView::Perform(steps[count as int])
        } else {
            ActionView::Finish
        },
        count > 0 ==> action_after(
            after_successes(steps, (count - 1) as nat),
            StepEvent::Succeeded,
        ) == action_after(after_successes(steps, count), StepEvent::Started),
        action_after(after_successes(steps, count), StepEvent::Failed) == ActionView::Abort,
        completed_after(after_successes(steps, count), StepEvent::Failed) == count,
    decreases count,
{
    if count > 0 {
        lemma_steps_in_order(steps, (count - 1) as nat);
    }
}

impl TransferStep {
    /// A step with the same paths.
    pub fn duplicate(&self) -> (step: TransferStep)
        ensures
            step@ == self@,
    {
        match self {
            TransferStep::MkDir(path) => TransferStep::MkDir(path.clone()),
            TransferStep::Cp(source, destination) => TransferStep::Cp(
                source.clone(),
                destination.clone(),
            ),
        }
    }
}

impl Execution {
    #[verifier::type_invariant]
    spec fn inv(self) -> bool {
        self.completed <= self.steps.len()
    }

    /// Takes a plan up, with none of its steps carried out.
    pub fn new(transfer: Transfer) -> (execution: Execution)
        ensures
            execution@ == (ExecutionView { steps: transfer@, completed: 0 }),
    {
        let steps = transfer.into_steps();
        Execution { steps, completed: 0 }
    }

    /// The number of steps carried out so far. It never exceeds the number
    /// of steps.
    pub fn completed(&self) -> (completed: usize)
        ensures
            completed == self@.completed,
            completed <= self@.steps.len(),
    {
        proof {
            use_type_invariant(self);
        }
        self.completed
    }
}

/// Takes `event` in and says what to do next.
///
/// The steps are handed out in the order of the plan, each after the one
/// before it has succeeded. A failure ends the run: the step count stays,
/// and no later step is handed out for it.
pub fn do_transfer(execution: Execution, event: StepEvent) -> (next: (Execution, StepAction))
    ensures
        next.0@ == (ExecutionView {
            steps: execution@.steps,
            completed: completed_after(execution@, event),
        }),
        next.1@ == action_after(execution@, event),
{
    proof {
        use_type_invariant(&execution);
    }
    let mut execution = execution;
    match event {
        StepEvent::Failed => (execution, StepAction::Abort),
        _ => {
            if event == StepEvent::Succeeded && execution.completed < execution.steps.len() {
                execution.completed += 1;
            }
            if execution.completed < execution.steps.len() {
                let step = execution.steps[execution.completed].duplicate();
                (execution, StepAction::Perform(step))
            } else {
                (execution, StepAction::Finish)
            }
        },
    }
}

} // verus!
