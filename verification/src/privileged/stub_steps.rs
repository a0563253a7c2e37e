//! A stand-in step sequence with the same order and the same runner
//! contract as `steps`, whose steps only say what they would do. It shows
//! the sequencing on its own: one process, steps in order, and a failing
//! step stops the sequence.

use vstd::prelude::*;
use vstd::string::StringExecFns;
use super::protocol::{StepEvent, StepStatus};
use super::PrivilegedPhaseOptions;
use crate::text::owned;

verus! {

pub struct PrivilegedStep<R> {
    pub id: &'static str,
    pub label: &'static str,
    pub run: R,
}

/// The stand-in steps; each only prints what it would do.
#[derive(Debug, Clone, Copy, PartialEq, Eq, Structural)]
pub enum StubStep {
    InstallOllama,
    ConfigureGpu,
    InstallWebuiDeps,
}

impl StubStep {
    /// What the stand-in step prints.
    pub fn message(&self) -> (m: &'static str)
        ensures
            *self == StubStep::InstallOllama ==> m@
                == "(stub) would install Ollama here"@,
            *self == StubStep::ConfigureGpu ==> m@
                == "(stub) would detect/configure the GPU here"@,
            *self == StubStep::InstallWebuiDeps ==> m@
                == "(stub) would install Open WebUI prerequisites here"@,
    {
        match self {
            StubStep::InstallOllama => "(stub) would install Ollama here",
            StubStep::ConfigureGpu => "(stub) would detect/configure the GPU here",
            StubStep::InstallWebuiDeps => "(stub) would install Open WebUI prerequisites here",
        }
    }
}

/// Ollama, then the GPU, then (unless Open WebUI is skipped) its prerequisites.
pub fn default_privileged_steps(opts: &PrivilegedPhaseOptions) -> (steps: Vec<PrivilegedStep<StubStep>>)
    ensures
        steps@.len() == if opts.skip_webui { 2int } else { 3int },
        steps@[0].id@ == "ollama"@ && steps@[0].label@ == "Installing Ollama"@ && steps@[0].run
            == StubStep::InstallOllama,
        steps@[1].id@ == "gpu"@ && steps@[1].label@ == "Configuring GPU"@ && steps@[1].run
            == StubStep::ConfigureGpu,
        !opts.skip_webui ==> steps@[2].id@ == "webui-deps"@ && steps@[2].label@
            == "Installing Open WebUI prerequisites"@ && steps@[2].run == StubStep::InstallWebuiDeps,
{
    let mut steps: Vec<PrivilegedStep<StubStep>> = Vec::new();
    steps.push(PrivilegedStep { id: "ollama", label: "Installing Ollama", run: StubStep::InstallOllama });
    steps.push(PrivilegedStep { id: "gpu", label: "Configuring GPU", run: StubStep::ConfigureGpu });
    if !opts.skip_webui {
        steps.push(
            PrivilegedStep {
                id: "webui-deps",
                label: "Installing Open WebUI prerequisites",
                run: StubStep::InstallWebuiDeps,
            },
        );
    }
    steps
}

/// Which step failed, and why.
#[derive(Debug, Clone, PartialEq, Eq)]
pub struct StepFailure {
    pub step_id: String,
    pub message: String,
}

impl StepFailure {
    /// The one-line description shown to the user.
    pub fn describe(&self) -> (s: String)
        ensures
            s@ == "step '"@ + self.step_id@ + "' failed: "@ + self.message@,
    {
        let mut s = owned("step '");
        s.append(self.step_id.as_str());
        s.append("' failed: ");
        s.append(self.message.as_str());
        s
    }
}

pub open spec fn is_event(e: StepEvent, id: Seq<char>, label: Seq<char>, status: StepStatus, error: Option<Seq<char>>) -> bool {
    &&& e.id@ == id
    &&& e.label@ == label
    &&& e.status == status
    &&& match error {
        Some(m) => e.error matches Some(x) && x@ == m,
        None => e.error is None,
    }
    &&& e.confirmation is None
    &&& e.message is None
}

fn event(id: &str, label: &str, status: StepStatus, error: Option<&str>) -> (e: StepEvent)
    ensures
        is_event(
            e,
            id@,
            label@,
            status,
            match error {
                Some(m) => Some(m@),
                None => None,
            },
        ),
{
    StepEvent {
        id: owned(id),
        label: owned(label),
        status,
        error: match error {
            Some(m) => Some(owned(m)),
            None => None,
        },
        confirmation: None,
        message: None,
    }
}

/// A report about one of `steps`: running, done, or failed with a message.
pub open spec fn is_step_report<F>(steps: Seq<PrivilegedStep<F>>, e: StepEvent) -> bool {
    exists|i: int|
        0 <= i < steps.len() && {
            ||| is_event(e, #[trigger] steps[i].id@, steps[i].label@, StepStatus::Running, None)
            ||| is_event(e, steps[i].id@, steps[i].label@, StepStatus::Done, None)
            ||| exists|m: Seq<char>| is_event(e, steps[i].id@, steps[i].label@, StepStatus::Failed, Some(m))
        }
}

/// `outcomes` is what the first `outcomes.len()` steps returned, in order,
/// all but the last successful, the last failed unless every step ran.
pub open spec fn is_run_trace<F: Fn() -> Result<(), String>>(
    steps: Seq<PrivilegedStep<F>>,
    outcomes: Seq<Result<(), String>>,
) -> bool {
    &&& outcomes.len() <= steps.len()
    &&& forall|i: int| 0 <= i < outcomes.len() ==> call_ensures(steps[i].run, (), #[trigger] outcomes[i])
    &&& forall|i: int| 0 <= i < outcomes.len() - 1 ==> #[trigger] outcomes[i] is Ok
    &&& outcomes.len() < steps.len() ==> outcomes.len() > 0 && outcomes.last() is Err
}

/// `emit` was handed the event `id`/`label`/`status`/`error`.
#[verifier::opaque]
pub open spec fn event_reported<E: Fn(StepEvent)>(
    emit: E,
    id: Seq<char>,
    label: Seq<char>,
    status: StepStatus,
    error: Option<Seq<char>>,
) -> bool {
    exists|e: StepEvent| is_event(e, id, label, status, error) && #[trigger] call_ensures(emit, (e,), ())
}

/// The event a step's outcome is reported with once it ran: done, or
/// failed with the message.
pub open spec fn finished_status(outcome: Result<(), String>) -> (StepStatus, Option<Seq<char>>) {
    match outcome {
        Ok(()) => (StepStatus::Done, None),
        Err(m) => (StepStatus::Failed, Some(m@)),
    }
}

/// For each of the first `n` steps, `emit` was handed its running event and
/// the event of its outcome.
pub open spec fn reported_upto<F, E: Fn(StepEvent)>(
    emit: E,
    steps: Seq<PrivilegedStep<F>>,
    outcomes: Seq<Result<(), String>>,
    n: int,
) -> bool {
    &&& forall|k: int|
        0 <= k < n ==> event_reported(emit, (#[trigger] steps[k]).id@, steps[k].label@, StepStatus::Running, None)
    &&& forall|k: int|
        0 <= k < n ==> event_reported(
            emit,
            steps[k].id@,
            steps[k].label@,
            finished_status(#[trigger] outcomes[k]).0,
            finished_status(outcomes[k]).1,
        )
}

proof fn lemma_reported_one_more<F, E: Fn(StepEvent)>(
    emit: E,
    steps: Seq<PrivilegedStep<F>>,
    outcomes: Seq<Result<(), String>>,
    i: int,
)
    requires
        0 <= i < outcomes.len(),
        reported_upto(emit, steps, outcomes, i),
        event_reported(emit, steps[i].id@, steps[i].label@, StepStatus::Running, None),
        event_reported(
            emit,
            steps[i].id@,
            steps[i].label@,
            finished_status(outcomes[i]).0,
            finished_status(outcomes[i]).1,
        ),
    ensures
        reported_upto(emit, steps, outcomes, i + 1),
{
    assert forall|k: int| 0 <= k < i + 1 implies event_reported(
        emit,
        (#[trigger] steps[k]).id@,
        steps[k].label@,
        StepStatus::Running,
        None,
    ) by {
        if k < i {
            assert(event_reported(emit, steps[k].id@, steps[k].label@, StepStatus::Running, None));
        }
    }
    assert forall|k: int| 0 <= k < i + 1 implies event_reported(
        emit,
        steps[k].id@,
        steps[k].label@,
        finished_status(#[trigger] outcomes[k]).0,
        finished_status(outcomes[k]).1,
    ) by {
        if k < i {
            assert(event_reported(
                emit,
                steps[k].id@,
                steps[k].label@,
                finished_status(outcomes[k]).0,
                finished_status(outcomes[k]).1,
            ));
        }
    }
}

/// Runs `steps` in order, handing `emit` a running event before each and a
/// done or failed event after it (and no other report): for every step that
/// ran, both were handed over. Stops at the first failure.
pub fn run_steps<F: Fn() -> Result<(), String>, E: Fn(StepEvent)>(steps: &[PrivilegedStep<F>], emit: &E) -> (r:
    Result<(), StepFailure>)
    requires
        forall|i: int| 0 <= i < steps@.len() ==> call_requires(#[trigger] steps@[i].run, ()),
        forall|e: StepEvent| is_step_report(steps@, e) ==> call_requires(*emit, (e,)),
    ensures
        exists|outcomes: Seq<Result<(), String>>|
            {
                &&& is_run_trace(steps@, outcomes)
                &&& reported_upto(*emit, steps@, outcomes, outcomes.len() as int)
                &&& match r {
                    Ok(()) => outcomes.len() == steps@.len() && forall|i: int|
                        0 <= i < outcomes.len() ==> #[trigger] outcomes[i] is Ok,
                    Err(f) => outcomes.len() > 0 && (outcomes.last() matches Err(m) && f.step_id@
                        == steps@[outcomes.len() - 1].id@ && f.message@ == m@),
                }
            },
{
    let ghost mut outs: Seq<Result<(), String>> = seq![];
    let mut i: usize = 0;
    while i < steps.len()
        invariant
            i <= steps.len(),
            outs.len() == i,
            forall|k: int| 0 <= k < steps@.len() ==> call_requires(#[trigger] steps@[k].run, ()),
            forall|e: StepEvent| is_step_report(steps@, e) ==> call_requires(*emit, (e,)),
            forall|k: int| 0 <= k < i ==> call_ensures(steps@[k].run, (), #[trigger] outs[k]),
            forall|k: int| 0 <= k < i ==> #[trigger] outs[k] is Ok,
            reported_upto(*emit, steps@, outs, i as int),
        decreases steps.len() - i,
    {
        let step = &steps[i];
        let running = event(step.id, step.label, StepStatus::Running, None);
        assert(is_step_report(steps@, running));
        emit(running);
        assert(event_reported(*emit, steps@[i as int].id@, steps@[i as int].label@, StepStatus::Running, None))
            by {
            reveal(event_reported);
        }
        let outcome = (step.run)();
        let ghost old_outs = outs;
        proof {
            outs = outs.push(outcome);
            assert forall|k: int| 0 <= k < i implies event_reported(
                *emit,
                steps@[k].id@,
                steps@[k].label@,
                finished_status(#[trigger] outs[k]).0,
                finished_status(outs[k]).1,
            ) by {
                assert(outs[k] == old_outs[k]);
            }
        }
        match outcome {
            Ok(()) => {
                let done = event(step.id, step.label, StepStatus::Done, None);
                assert(is_step_report(steps@, done));
                emit(done);
                assert(event_reported(*emit, steps@[i as int].id@, steps@[i as int].label@, StepStatus::Done, None))
                    by {
                    reveal(event_reported);
                }
                proof {
                    lemma_reported_one_more(*emit, steps@, outs, i as int);
                }
            },
            Err(message) => {
                let failed = event(step.id, step.label, StepStatus::Failed, Some(message.as_str()));
                assert(is_step_report(steps@, failed));
                emit(failed);
                assert(event_reported(
                    *emit,
                    steps@[i as int].id@,
                    steps@[i as int].label@,
                    StepStatus::Failed,
                    Some(message@),
                )) by {
                    reveal(event_reported);
                }
                proof {
                    lemma_reported_one_more(*emit, steps@, outs, i as int);
                }
                assert(is_run_trace(steps@, outs));
                return Err(StepFailure { step_id: owned(step.id), message });
            },
        }
        i = i + 1;
    }
    assert(is_run_trace(steps@, outs));
    Ok(())
}

} // verus!
