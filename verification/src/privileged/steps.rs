//! The steps of the privileged phase and the runner that executes them in
//! order, stopping at the first step that fails or needs a confirmation,
//! and reporting every transition as a `StepEvent`.

use vstd::prelude::*;
use vstd::string::StringExecFns;
use super::protocol::{ConfirmationRequest, StepEvent, StepStatus};
use super::PrivilegedPhaseOptions;
use crate::text::owned;

verus! {

/// What a step can report besides success: a failure, or a question only
/// the user can answer (kept apart from a failure on purpose).
#[derive(Debug, Clone, PartialEq, Eq)]
pub enum StepRunError {
    Failed(String),
    NeedsConfirmation(ConfirmationRequest),
}

/// A step: its id, its label, and what runs it.
pub struct PrivilegedStep<R> {
    pub id: &'static str,
    pub label: &'static str,
    pub run: R,
}

/// Which real work a step of the default sequence stands for.
#[derive(Debug, Clone, Copy, PartialEq, Eq, Structural)]
pub enum StepKind {
    Ollama,
    /// The GPU step, with whether the user already confirmed a driver install.
    Gpu { confirmed: bool },
    WebuiDeps,
}

/// The default sequence: Ollama, then the GPU (which restarts an already
/// running Ollama service, so Ollama must come first), then, unless Open
/// WebUI is skipped, its prerequisites.
pub fn default_privileged_steps(opts: &PrivilegedPhaseOptions) -> (steps: Vec<PrivilegedStep<StepKind>>)
    ensures
        steps@.len() == if opts.skip_webui { 2int } else { 3int },
        steps@[0].id@ == "ollama"@ && steps@[0].label@ == "Installing Ollama"@ && steps@[0].run
            == StepKind::Ollama,
        steps@[1].id@ == "gpu"@ && steps@[1].label@ == "Configuring GPU"@ && steps@[1].run
            == (StepKind::Gpu { confirmed: opts.confirm_nvidia_driver_install }),
        !opts.skip_webui ==> steps@[2].id@ == "webui-deps"@ && steps@[2].label@
            == "Installing Open WebUI prerequisites"@ && steps@[2].run == StepKind::WebuiDeps,
{
    let mut steps: Vec<PrivilegedStep<StepKind>> = Vec::new();
    steps.push(PrivilegedStep { id: "ollama", label: "Installing Ollama", run: StepKind::Ollama });
    steps.push(PrivilegedStep { id: "gpu", label: "Configuring GPU", run: StepKind::Gpu { confirmed: opts.confirm_nvidia_driver_install } });
    if !opts.skip_webui {
        steps.push(
            PrivilegedStep {
                id: "webui-deps",
                label: "Installing Open WebUI prerequisites",
                run: StepKind::WebuiDeps,
            },
        );
    }
    steps
}

/// Why the sequence stopped: which step, why, and the question when the
/// step needs a confirmation (never together with a failure message of its
/// own: the message then restates the question).
#[derive(Debug, Clone, PartialEq, Eq)]
pub struct StepFailure {
    pub step_id: String,
    pub message: String,
    pub confirmation: Option<ConfirmationRequest>,
}

pub open spec fn failure_text(f: StepFailure) -> Seq<char> {
    match f.confirmation {
        Some(c) => "step '"@ + f.step_id@ + "' needs confirmation: "@ + c.prompt_message@ + " ("@
            + c.action_description@ + ")"@,
        None => "step '"@ + f.step_id@ + "' failed: "@ + f.message@,
    }
}

impl StepFailure {
    /// The one-line description shown to the user.
    pub fn describe(&self) -> (s: String)
        ensures
            s@ == failure_text(*self),
    {
        let mut s = owned("step '");
        s.append(self.step_id.as_str());
        match &self.confirmation {
            Some(c) => {
                s.append("' needs confirmation: ");
                s.append(c.prompt_message.as_str());
                s.append(" (");
                s.append(c.action_description.as_str());
                s.append(")");
            },
            None => {
                s.append("' failed: ");
                s.append(self.message.as_str());
            },
        }
        s
    }
}

/// The event reported when a step starts.
pub open spec fn is_started_event(e: StepEvent, id: Seq<char>, label: Seq<char>) -> bool {
    &&& e.id@ == id
    &&& e.label@ == label
    &&& e.status == StepStatus::Running
    &&& e.error is None
    &&& e.confirmation is None
    &&& e.message is None
}

/// The failure a step's error stops the sequence with.
pub open spec fn failure_for(id: Seq<char>, err: StepRunError) -> (Seq<char>, Seq<char>, Option<ConfirmationRequest>) {
    match err {
        StepRunError::Failed(m) => (id, m@, None),
        StepRunError::NeedsConfirmation(c) => (id, c.prompt_title@ + ": "@ + c.prompt_message@, Some(c)),
    }
}

/// The event reported when a step ends with `outcome`.
pub open spec fn is_finished_event(
    e: StepEvent,
    id: Seq<char>,
    label: Seq<char>,
    outcome: Result<(), StepRunError>,
) -> bool {
    &&& e.id@ == id
    &&& e.label@ == label
    &&& e.message is None
    &&& match outcome {
        Ok(()) => e.status == StepStatus::Done && e.error is None && e.confirmation is None,
        Err(StepRunError::Failed(m)) => e.status == StepStatus::Failed && (e.error matches Some(x)
            && x@ == m@) && e.confirmation is None,
        Err(StepRunError::NeedsConfirmation(c)) => e.status == StepStatus::NeedsConfirmation
            && e.error is None && e.confirmation == Some(c),
    }
}

pub fn started_event(id: &str, label: &str) -> (e: StepEvent)
    ensures
        is_started_event(e, id@, label@),
{
    StepEvent {
        id: owned(id),
        label: owned(label),
        status: StepStatus::Running,
        error: None,
        confirmation: None,
        message: None,
    }
}

pub fn finished_event(id: &str, label: &str, outcome: &Result<(), StepRunError>) -> (e: StepEvent)
    ensures
        is_finished_event(e, id@, label@, *outcome),
{
    match outcome {
        Ok(()) => StepEvent {
            id: owned(id),
            label: owned(label),
            status: StepStatus::Done,
            error: None,
            confirmation: None,
            message: None,
        },
        Err(StepRunError::Failed(m)) => StepEvent {
            id: owned(id),
            label: owned(label),
            status: StepStatus::Failed,
            error: Some(owned(m.as_str())),
            confirmation: None,
            message: None,
        },
        Err(StepRunError::NeedsConfirmation(c)) => StepEvent {
            id: owned(id),
            label: owned(label),
            status: StepStatus::NeedsConfirmation,
            error: None,
            confirmation: Some(clone_confirmation(c)),
            message: None,
        },
    }
}

fn clone_confirmation(c: &ConfirmationRequest) -> (r: ConfirmationRequest)
    ensures
        r == *c,
{
    ConfirmationRequest {
        prompt_title: c.prompt_title.clone(),
        prompt_message: c.prompt_message.clone(),
        action_description: c.action_description.clone(),
    }
}

pub fn failure_of(id: &str, err: StepRunError) -> (f: StepFailure)
    ensures
        (f.step_id@, f.message@, f.confirmation) == failure_for(id@, err),
{
    match err {
        StepRunError::Failed(message) => StepFailure { step_id: owned(id), message, confirmation: None },
        StepRunError::NeedsConfirmation(c) => {
            let mut message = owned(c.prompt_title.as_str());
            message.append(": ");
            message.append(c.prompt_message.as_str());
            StepFailure { step_id: owned(id), message, confirmation: Some(c) }
        },
    }
}

/// A report about one of `steps`: its started event, or a finished event
/// for some outcome.
pub open spec fn is_step_report<F>(steps: Seq<PrivilegedStep<F>>, e: StepEvent) -> bool {
    exists|i: int|
        0 <= i < steps.len() && (is_started_event(e, #[trigger] steps[i].id@, steps[i].label@) || exists|
            o: Result<(), StepRunError>,
        | is_finished_event(e, steps[i].id@, steps[i].label@, o))
}

/// `outcomes` is what the first `outcomes.len()` steps returned, in order:
/// every one but the last succeeded, and the sequence went on to the end
/// unless the last one failed.
pub open spec fn is_run_trace<F: Fn() -> Result<(), StepRunError>>(
    steps: Seq<PrivilegedStep<F>>,
    outcomes: Seq<Result<(), StepRunError>>,
) -> bool {
    &&& outcomes.len() <= steps.len()
    &&& forall|i: int| 0 <= i < outcomes.len() ==> call_ensures(steps[i].run, (), #[trigger] outcomes[i])
    &&& forall|i: int| 0 <= i < outcomes.len() - 1 ==> #[trigger] outcomes[i] is Ok
    &&& outcomes.len() < steps.len() ==> outcomes.len() > 0 && outcomes.last() is Err
}

/// `emit` was handed a started event for the step `id`/`label`.
#[verifier::opaque]
pub open spec fn started_reported<E: Fn(StepEvent)>(emit: E, id: Seq<char>, label: Seq<char>) -> bool {
    exists|e: StepEvent| is_started_event(e, id, label) && #[trigger] call_ensures(emit, (e,), ())
}

/// `emit` was handed a finished event with `outcome` for the step `id`/`label`.
#[verifier::opaque]
pub open spec fn finished_reported<E: Fn(StepEvent)>(
    emit: E,
    id: Seq<char>,
    label: Seq<char>,
    outcome: Result<(), StepRunError>,
) -> bool {
    exists|e: StepEvent| is_finished_event(e, id, label, outcome) && #[trigger] call_ensures(emit, (e,), ())
}

/// For each of the first `n` steps, `emit` was handed its started event and
/// its finished event with the step's outcome.
pub open spec fn reported_upto<F, E: Fn(StepEvent)>(
    emit: E,
    steps: Seq<PrivilegedStep<F>>,
    outcomes: Seq<Result<(), StepRunError>>,
    n: int,
) -> bool {
    &&& forall|k: int| 0 <= k < n ==> started_reported(emit, (#[trigger] steps[k]).id@, steps[k].label@)
    &&& forall|k: int|
        0 <= k < n ==> finished_reported(emit, steps[k].id@, steps[k].label@, #[trigger] outcomes[k])
}

proof fn lemma_reported_one_more<F, E: Fn(StepEvent)>(
    emit: E,
    steps: Seq<PrivilegedStep<F>>,
    outcomes: Seq<Result<(), StepRunError>>,
    i: int,
)
    requires
        0 <= i,
        reported_upto(emit, steps, outcomes, i),
        started_reported(emit, steps[i].id@, steps[i].label@),
        finished_reported(emit, steps[i].id@, steps[i].label@, outcomes[i]),
    ensures
        reported_upto(emit, steps, outcomes, i + 1),
{
    assert forall|k: int| 0 <= k < i + 1 implies started_reported(emit, (#[trigger] steps[k]).id@, steps[k].label@) by {
        if k < i {
            assert(started_reported(emit, steps[k].id@, steps[k].label@));
        }
    }
    assert forall|k: int| 0 <= k < i + 1 implies finished_reported(
        emit,
        steps[k].id@,
        steps[k].label@,
        #[trigger] outcomes[k],
    ) by {
        if k < i {
            assert(finished_reported(emit, steps[k].id@, steps[k].label@, outcomes[k]));
        }
    }
}

/// Where a run of the steps stands.
#[derive(Debug, Clone, Copy, PartialEq, Eq, Structural)]
pub enum RunnerState {
    /// Step `i` comes next; every step before it succeeded.
    Before(usize),
    /// Step `i` was started; its outcome is awaited.
    Awaiting(usize),
    /// The sequence is over.
    Over,
}

/// One move of the runner: report `report` (when there is one), then run
/// step `run` or finish with `finish` (when there is one), and go on from
/// `next`.
pub struct RunnerMove {
    pub report: Option<StepEvent>,
    pub run: Option<usize>,
    pub finish: Option<Result<(), StepFailure>>,
    pub next: RunnerState,
}

/// The runner's next move from `state`, `outcome` being what the awaited
/// step returned: a step about to run is first reported started; a step
/// that ran is reported finished with its outcome, and the sequence goes
/// on after a success and stops with that step's failure otherwise; once
/// every step succeeded it finishes with success.
pub fn runner_move<F>(steps: &[PrivilegedStep<F>], state: RunnerState, outcome: Option<Result<(), StepRunError>>) -> (m:
    RunnerMove)
    requires
        state != RunnerState::Over,
        state matches RunnerState::Before(i) ==> i <= steps@.len() && outcome is None,
        state matches RunnerState::Awaiting(i) ==> i < steps@.len() && outcome is Some,
    ensures
        state matches RunnerState::Before(i) ==> (i < steps@.len() ==> (m.report matches Some(e)
            && is_started_event(e, steps@[i as int].id@, steps@[i as int].label@)) && m.run == Some(i)
            && m.finish is None && m.next == RunnerState::Awaiting(i)),
        state matches RunnerState::Before(i) ==> (i == steps@.len() ==> m.report is None && m.run is None
            && m.finish == Some(Ok::<(), StepFailure>(())) && m.next == RunnerState::Over),
        state matches RunnerState::Awaiting(i) ==> (m.report matches Some(e) && is_finished_event(
            e,
            steps@[i as int].id@,
            steps@[i as int].label@,
            outcome->0,
        )) && m.run is None,
        state matches RunnerState::Awaiting(i) ==> (outcome->0 is Ok ==> m.finish is None && m.next
            == RunnerState::Before((i + 1) as usize)),
        state matches RunnerState::Awaiting(i) ==> (outcome->0 matches Err(err) ==> (m.finish matches Some(
            Err(f),
        ) && (f.step_id@, f.message@, f.confirmation) == failure_for(steps@[i as int].id@, err))
            && m.next == RunnerState::Over),
{
    match state {
        RunnerState::Before(i) => {
            if i < steps.len() {
                RunnerMove {
                    report: Some(started_event(steps[i].id, steps[i].label)),
                    run: Some(i),
                    finish: None,
                    next: RunnerState::Awaiting(i),
                }
            } else {
                RunnerMove { report: None, run: None, finish: Some(Ok(())), next: RunnerState::Over }
            }
        },
        RunnerState::Awaiting(i) => {
            let o = match outcome {
                Some(o) => o,
                None => Ok(()),
            };
            let report = Some(finished_event(steps[i].id, steps[i].label, &o));
            match o {
                Ok(()) => RunnerMove { report, run: None, finish: None, next: RunnerState::Before(i + 1) },
                Err(err) => RunnerMove {
                    report,
                    run: None,
                    finish: Some(Err(failure_of(steps[i].id, err))),
                    next: RunnerState::Over,
                },
            }
        },
        RunnerState::Over => RunnerMove { report: None, run: None, finish: Some(Ok(())), next: RunnerState::Over },
    }
}

pub open spec fn runner_measure(state: RunnerState, n: int) -> int {
    match state {
        RunnerState::Before(i) => 2 * (n - i) + 2,
        RunnerState::Awaiting(i) => 2 * (n - i) + 1,
        RunnerState::Over => 0,
    }
}

/// Runs `steps` in order, following `runner_move`: every report of a move
/// goes to `emit` before the step runs or the sequence ends. `emit` is
/// handed, for every step that ran, its started event and its finished
/// event with the step's outcome, and only ever reports about these steps.
/// Stops at the first step that fails or needs a confirmation, and returns
/// which one and why.
pub fn run_steps<F: Fn() -> Result<(), StepRunError>, E: Fn(StepEvent)>(
    steps: &[PrivilegedStep<F>],
    emit: &E,
) -> (r: Result<(), StepFailure>)
    requires
        forall|i: int| 0 <= i < steps@.len() ==> call_requires(#[trigger] steps@[i].run, ()),
        forall|e: StepEvent| is_step_report(steps@, e) ==> call_requires(*emit, (e,)),
    ensures
        exists|outcomes: Seq<Result<(), StepRunError>>|
            {
                &&& is_run_trace(steps@, outcomes)
                &&& reported_upto(*emit, steps@, outcomes, outcomes.len() as int)
                &&& match r {
                    Ok(()) => outcomes.len() == steps@.len() && forall|i: int|
                        0 <= i < outcomes.len() ==> #[trigger] outcomes[i] is Ok,
                    Err(f) => outcomes.len() > 0 && (outcomes.last() matches Err(e) && (
                    f.step_id@,
                    f.message@,
                    f.confirmation,
                ) == failure_for(steps@[outcomes.len() - 1].id@, e)),
                }
            },
{
    let ghost mut outs: Seq<Result<(), StepRunError>> = seq![];
    let mut state = RunnerState::Before(0);
    let mut outcome: Option<Result<(), StepRunError>> = None;
    let n = steps.len();
    loop
        invariant
            n == steps@.len(),
            forall|k: int| 0 <= k < steps@.len() ==> call_requires(#[trigger] steps@[k].run, ()),
            forall|e: StepEvent| is_step_report(steps@, e) ==> call_requires(*emit, (e,)),
            state != RunnerState::Over,
            state matches RunnerState::Before(i) ==> i <= steps@.len() && outcome is None && outs.len() == i,
            state matches RunnerState::Awaiting(i) ==> i < steps@.len() && outcome is Some && outs.len() == i + 1
                && outs[i as int] == outcome->0,
            forall|k: int| 0 <= k < outs.len() ==> call_ensures(steps@[k].run, (), #[trigger] outs[k]),
            forall|k: int| 0 <= k < outs.len() - 1 ==> #[trigger] outs[k] is Ok,
            state is Before ==> forall|k: int| 0 <= k < outs.len() ==> #[trigger] outs[k] is Ok,
            state matches RunnerState::Before(i) ==> reported_upto(*emit, steps@, outs, i as int),
            state matches RunnerState::Awaiting(i) ==> reported_upto(*emit, steps@, outs, i as int)
                && started_reported(*emit, steps@[i as int].id@, steps@[i as int].label@),
        decreases runner_measure(state, steps@.len() as int),
    {
        let ghost before = state;
        let m = runner_move(steps, state, outcome);
        match m.report {
            Some(e) => {
                assert(is_step_report(steps@, e));
                emit(e);
                proof {
                    match before {
                        RunnerState::Before(i) => {
                            if i < steps@.len() {
                                assert(started_reported(*emit, steps@[i as int].id@, steps@[i as int].label@))
                                    by {
                                    reveal(started_reported);
                                }
                            }
                        },
                        RunnerState::Awaiting(i) => {
                            assert(finished_reported(
                                *emit,
                                steps@[i as int].id@,
                                steps@[i as int].label@,
                                outs[i as int],
                            )) by {
                                reveal(finished_reported);
                            }
                            lemma_reported_one_more(*emit, steps@, outs, i as int);
                        },
                        RunnerState::Over => {},
                    }
                }
            },
            None => {},
        }
        match m.finish {
            Some(r) => {
                assert(is_run_trace(steps@, outs));
                assert(reported_upto(*emit, steps@, outs, outs.len() as int));
                return r;
            },
            None => {},
        }
        outcome = match m.run {
            Some(i) => {
                let o = (steps[i].run)();
                proof {
                    let old_outs = outs;
                    outs = outs.push(o);
                    assert(reported_upto(*emit, steps@, old_outs, i as int));
                    assert forall|k: int| 0 <= k < i implies finished_reported(
                        *emit,
                        steps@[k].id@,
                        steps@[k].label@,
                        #[trigger] outs[k],
                    ) by {
                        assert(outs[k] == old_outs[k]);
                    }
                }
                Some(o)
            },
            None => None,
        };
        state = m.next;
    }
}

} // verus!
