//! The installer window's logic: the detection result it shows, the step
//! list it draws, the arguments of the scripts it runs, how the privileged
//! phase's reports become window updates, and how an install ends. The
//! window, the processes and the events are the caller's business.

use vstd::prelude::*;
use vstd::string::StringExecFns;
use crate::detect::distro::DistroInfo;
use crate::detect::gpu::GpuInfo;
use crate::install::tier::{
    candidate_table, candidates, compute_tier, default_models, default_table, law_computed_tier_has_tables,
    opt_view, tier_of, TierCandidates, TierModels,
};
use crate::privileged::protocol::{ConfirmationRequest, StepEvent, StepStatus};
use crate::privileged::steps::{is_finished_event, StepRunError};
use crate::text::{
    first_where, first_where_from, join_with, lines_of, lines_of_str, owned, push_char, starts_with,
    starts_with_sub, strip_prefix, strip_prefix_sub, string_from, to_chars, views,
};

verus! {

// ---------------------------------------------------------------------------
// Detection
// ---------------------------------------------------------------------------

/// Everything the window shows about the machine before installing.
pub struct DetectResult {
    pub distro_pretty: String,
    pub gpu_vendor: String,
    pub gpu_name: String,
    pub cpu_model: String,
    pub cpu_threads: u32,
    pub ram_gb: u64,
    pub tier: String,
    pub tier_models: TierModels,
    pub candidates: TierCandidates,
}

/// The detection result from what was read off the machine: the tier the
/// RAM and GPU call for (or the one the user forced), with its default
/// models and candidates. A forced tier that has no tables is an error.
pub fn detect_result(
    distro: DistroInfo,
    gpu: GpuInfo,
    cpu_model: String,
    cpu_threads: u32,
    ram_gb: u64,
    forced_tier: Option<&str>,
) -> (r: Result<DetectResult, String>)
    ensures
        ({
            let t = tier_of(ram_gb as int, gpu.vendor@, opt_view(forced_tier));
            &&& default_table(t) is None ==> (r matches Err(e) && e@ == "no default models for tier "@ + t)
            &&& default_table(t) is Some && candidate_table(t) is None ==> (r matches Err(e) && e@
                == "no candidates for tier "@ + t)
            &&& default_table(t) is Some && candidate_table(t) is Some ==> (r matches Ok(d) && {
                &&& d.distro_pretty == distro.pretty
                &&& d.gpu_vendor == gpu.vendor
                &&& d.gpu_name == gpu.name
                &&& d.cpu_model == cpu_model
                &&& d.cpu_threads == cpu_threads
                &&& d.ram_gb == ram_gb
                &&& d.tier@ == t
                &&& default_table(t) == Some(d.tier_models.view_entries())
                &&& candidate_table(t) == Some(d.candidates.view_entries())
                &&& d.tier_models.well_formed()
                &&& d.candidates.well_formed()
            })
        }),
        forced_tier is None ==> r is Ok,
{
    proof {
        law_computed_tier_has_tables(ram_gb as int, gpu.vendor@);
    }
    let tier = compute_tier(ram_gb, gpu.vendor.as_str(), forced_tier);
    let tier_models = match default_models(tier.as_str()) {
        Some(m) => m,
        None => {
            let mut e = owned("no default models for tier ");
            e.append(tier.as_str());
            return Err(e);
        },
    };
    let cands = match candidates(tier.as_str()) {
        Some(c) => c,
        None => {
            let mut e = owned("no candidates for tier ");
            e.append(tier.as_str());
            return Err(e);
        },
    };
    Ok(
        DetectResult {
            distro_pretty: distro.pretty,
            gpu_vendor: gpu.vendor,
            gpu_name: gpu.name,
            cpu_model,
            cpu_threads,
            ram_gb,
            tier,
            tier_models,
            candidates: cands,
        },
    )
}

pub open spec fn is_detect_line(line: Seq<char>) -> bool {
    starts_with(line, "__DETECT__"@)
}

pub open spec fn detect_line() -> spec_fn(Seq<char>) -> bool {
    |l: Seq<char>| is_detect_line(l)
}

/// The detection JSON a script printed: what follows the marker on the
/// first line that starts with `__DETECT__`, the log lines before it left
/// aside.
pub open spec fn detect_json_of(output: Seq<char>) -> Option<Seq<char>> {
    let ls = lines_of(output);
    match first_where(ls, detect_line()) {
        Some(i) => strip_prefix(ls[i], "__DETECT__"@),
        None => None,
    }
}

pub fn detect_json_payload(output: &str) -> (r: Result<String, String>)
    ensures
        detect_json_of(output@) matches Some(j) ==> (r matches Ok(s) && s@ == j),
        detect_json_of(output@) is None ==> (r matches Err(e) && e@
            == "no detection output (__DETECT__ line) found in script output"@),
{
    let ls = lines_of_str(output);
    let prefix = to_chars("__DETECT__");
    let ghost pred = detect_line();
    let ghost lv = views(ls@);
    let mut i: usize = 0;
    while i < ls.len()
        invariant
            i <= ls.len(),
            lv == views(ls@),
            lv == lines_of(output@),
            prefix@ == "__DETECT__"@,
            pred == detect_line(),
            first_where(lv, pred) == first_where_from(lv, pred, i as int),
        decreases ls.len() - i,
    {
        assert(lv[i as int] == ls@[i as int]@);
        if starts_with_sub(&ls[i], &prefix) {
            assert(first_where_from(lv, pred, i as int) == Some(i as int));
            match strip_prefix_sub(&ls[i], &prefix) {
                Some(json) => {
                    return Ok(string_from(&json));
                },
                None => {
                    assert(false);
                },
            }
        }
        i = i + 1;
    }
    assert(first_where_from(lv, pred, i as int) is None);
    Err(owned("no detection output (__DETECT__ line) found in script output"))
}

/// JSON values, as `serde_json` parses them. The library only carries them.
#[verifier::external_type_specification]
#[verifier::external_body]
pub struct ExJsonValue(serde_json::Value);

/// Whether `serde_json` accepts a text as one JSON value.
pub uninterp spec fn json_well_formed(text: Seq<char>) -> bool;

/// The value `serde_json` parses a text it accepts into.
pub uninterp spec fn json_value_of(text: Seq<char>) -> serde_json::Value;

/// The message `serde_json` gives for a text it does not accept.
pub uninterp spec fn json_error_text(text: Seq<char>) -> Seq<char>;

/// `serde_json::from_str` into a `serde_json::Value`. Claimed: it succeeds
/// exactly on the texts named by `json_well_formed`, with the value named by
/// `json_value_of`, and otherwise fails with the message named by
/// `json_error_text`; all three depend on the text alone.
#[verifier::external_body]
fn parse_json_value(text: &str) -> (r: Result<serde_json::Value, String>)
    ensures
        r is Ok <==> json_well_formed(text@),
        r matches Ok(v) ==> v == json_value_of(text@),
        r matches Err(m) ==> m@ == json_error_text(text@),
{
    serde_json::from_str(text).map_err(|e| e.to_string())
}

/// The detection result once its JSON text was parsed: the value, or the
/// parse error as a detection failure.
pub fn detect_parse_outcome(parsed: Result<serde_json::Value, String>) -> (r: Result<serde_json::Value, String>)
    ensures
        parsed is Ok ==> r == parsed,
        parsed matches Err(m) ==> (r matches Err(e) && e@ == "failed to parse detection output: "@ + m@),
{
    match parsed {
        Ok(v) => Ok(v),
        Err(m) => {
            let mut e = owned("failed to parse detection output: ");
            e.append(m.as_str());
            Err(e)
        },
    }
}

/// The detection JSON a script printed, parsed.
pub fn extract_detect_json(output: &str) -> (r: Result<serde_json::Value, String>)
    ensures
        detect_json_of(output@) is None ==> (r matches Err(e) && e@
            == "no detection output (__DETECT__ line) found in script output"@),
        detect_json_of(output@) matches Some(j) ==> ((r is Ok <==> json_well_formed(j)) && (r matches Ok(v)
            ==> v == json_value_of(j)) && (r matches Err(e) ==> e@ == "failed to parse detection output: "@
            + json_error_text(j))),
{
    let json = match detect_json_payload(output) {
        Ok(j) => j,
        Err(e) => {
            return Err(e);
        },
    };
    detect_parse_outcome(parse_json_value(json.as_str()))
}

// ---------------------------------------------------------------------------
// The step list
// ---------------------------------------------------------------------------

/// A step as the window's step list draws it.
#[derive(Debug, Clone, PartialEq, Eq)]
pub struct InstallStep {
    pub id: String,
    pub label: String,
    pub status: String,
    /// Only beside `running-silent`: a fixed status line, never a figure.
    pub message: Option<String>,
}

/// The status word the step list uses for a step status.
pub open spec fn status_word(s: StepStatus) -> Seq<char> {
    match s {
        StepStatus::Running => "running"@,
        StepStatus::Done => "done"@,
        StepStatus::Failed => "failed"@,
        StepStatus::NeedsConfirmation => "needs-confirmation"@,
        StepStatus::RunningSilent => "running-silent"@,
    }
}

pub fn install_step_status(s: StepStatus) -> (w: &'static str)
    ensures
        w@ == status_word(s),
{
    match s {
        StepStatus::Running => "running",
        StepStatus::Done => "done",
        StepStatus::Failed => "failed",
        StepStatus::NeedsConfirmation => "needs-confirmation",
        StepStatus::RunningSilent => "running-silent",
    }
}

/// The step list drawn before anything starts, skipped steps included.
pub fn planned_install_steps(skip_models: bool, skip_webui: bool) -> (steps: Vec<InstallStep>)
    ensures
        steps@.len() == 5,
        steps@[0].id@ == "ollama"@ && steps@[0].label@ == "Installing Ollama"@ && steps@[0].status@
            == "pending"@,
        steps@[1].id@ == "gpu"@ && steps@[1].label@ == "Configuring GPU"@ && steps@[1].status@
            == "pending"@,
        steps@[2].id@ == "webui-deps"@ && steps@[2].label@ == "Installing Open WebUI prerequisites"@
            && steps@[2].status@ == if skip_webui { "skipped"@ } else { "pending"@ },
        steps@[3].id@ == "models"@ && steps@[3].label@ == "Downloading models"@ && steps@[3].status@
            == if skip_models { "skipped"@ } else { "pending"@ },
        steps@[4].id@ == "webui"@ && steps@[4].label@ == "Installing Open WebUI"@ && steps@[4].status@
            == if skip_webui { "skipped"@ } else { "pending"@ },
        forall|k: int| 0 <= k < 5 ==> (#[trigger] steps@[k]).message is None,
{
    let webui_status = if skip_webui {
        "skipped"
    } else {
        "pending"
    };
    let models_status = if skip_models {
        "skipped"
    } else {
        "pending"
    };
    let mut steps: Vec<InstallStep> = Vec::new();
    steps.push(planned("ollama", "Installing Ollama", "pending"));
    steps.push(planned("gpu", "Configuring GPU", "pending"));
    steps.push(planned("webui-deps", "Installing Open WebUI prerequisites", webui_status));
    steps.push(planned("models", "Downloading models", models_status));
    steps.push(planned("webui", "Installing Open WebUI", webui_status));
    steps
}

fn planned(id: &str, label: &str, status: &str) -> (s: InstallStep)
    ensures
        s.id@ == id@,
        s.label@ == label@,
        s.status@ == status@,
        s.message is None,
{
    InstallStep { id: owned(id), label: owned(label), status: owned(status), message: None }
}

/// What a step report of the privileged phase changes in the window: the
/// step list entry, and a log line when the step reported an error.
pub fn step_update(event: &StepEvent) -> (r: (InstallStep, Option<String>))
    ensures
        r.0.id == event.id,
        r.0.label == event.label,
        r.0.status@ == status_word(event.status),
        r.0.message == event.message,
        event.error matches Some(e) ==> (r.1 matches Some(l) && l@ == event.label@ + ": "@ + e@),
        event.error is None ==> r.1 is None,
{
    let step = InstallStep {
        id: event.id.clone(),
        label: event.label.clone(),
        status: owned(install_step_status(event.status)),
        message: clone_opt(&event.message),
    };
    let log = match &event.error {
        Some(e) => {
            let mut l = event.label.clone();
            l.append(": ");
            l.append(e.as_str());
            Some(l)
        },
        None => None,
    };
    (step, log)
}

fn clone_opt(o: &Option<String>) -> (r: Option<String>)
    ensures
        r == *o,
{
    match o {
        Some(s) => Some(s.clone()),
        None => None,
    }
}

/// A step the installer runs as the user, after the privileged phase: its
/// id and label, the script it runs, and the error it ends the install
/// with when the script fails.
#[derive(Debug, Clone, Copy, PartialEq, Eq)]
pub struct UserScriptStep {
    pub id: &'static str,
    pub label: &'static str,
    pub script: &'static str,
    pub failure: &'static str,
}

pub open spec fn is_models_step(s: UserScriptStep) -> bool {
    &&& s.id@ == "models"@
    &&& s.label@ == "Downloading models"@
    &&& s.script@ == "03-pull-models.sh"@
    &&& s.failure@ == "Model download failed, see the log above."@
}

pub open spec fn is_webui_step(s: UserScriptStep) -> bool {
    &&& s.id@ == "webui"@
    &&& s.label@ == "Installing Open WebUI"@
    &&& s.script@ == "04-install-webui.sh"@
    &&& s.failure@ == "Open WebUI installation failed, see the log above."@
}

/// The user's own steps, in order, once the privileged phase finished
/// without a question: the model download unless skipped, then Open WebUI
/// unless skipped. The first one that fails ends the install.
pub fn user_script_steps(skip_models: bool, skip_webui: bool) -> (steps: Vec<UserScriptStep>)
    ensures
        steps@.len() == (if skip_models { 0int } else { 1int }) + (if skip_webui { 0int } else { 1int }),
        !skip_models ==> is_models_step(steps@[0]),
        !skip_webui ==> is_webui_step(steps@[steps@.len() - 1]),
{
    let mut steps: Vec<UserScriptStep> = Vec::new();
    if !skip_models {
        steps.push(
            UserScriptStep {
                id: "models",
                label: "Downloading models",
                script: "03-pull-models.sh",
                failure: "Model download failed, see the log above.",
            },
        );
    }
    if !skip_webui {
        steps.push(
            UserScriptStep {
                id: "webui",
                label: "Installing Open WebUI",
                script: "04-install-webui.sh",
                failure: "Open WebUI installation failed, see the log above.",
            },
        );
    }
    steps
}

/// The arguments a user step's script runs with: the model download gets
/// the tier and the picked models, Open WebUI none.
pub fn user_script_args(step: &UserScriptStep, tier: Option<&str>, models: &[(String, String)]) -> (args:
    Vec<String>)
    ensures
        is_models_step(*step) ==> views_of(args@) == pull_models_args_of(opt_view(tier), models@),
        is_webui_step(*step) ==> args@.len() == 0,
{
    proof {
        reveal_strlit("models");
        reveal_strlit("webui");
        assert("webui"@.len() != "models"@.len());
    }
    if crate::text::str_equals(step.id, "models") {
        pull_models_args(tier, models)
    } else {
        Vec::new()
    }
}

/// How a user step ended: nothing more to say when its script succeeded,
/// otherwise the install ends with the step's error.
pub fn user_script_result(step: &UserScriptStep, succeeded: bool) -> (r: Result<(), String>)
    ensures
        succeeded ==> r is Ok,
        !succeeded ==> (r matches Err(e) && e@ == step.failure@),
{
    if succeeded {
        Ok(())
    } else {
        Err(owned(step.failure))
    }
}

// ---------------------------------------------------------------------------
// Confirmation and the end of the privileged phase
// ---------------------------------------------------------------------------

/// The question shown to the user, as the window receives it.
#[derive(Debug, Clone, PartialEq, Eq)]
pub struct ConfirmationPayload {
    pub prompt_title: String,
    pub prompt_message: String,
    pub action_description: String,
}

impl From<ConfirmationRequest> for ConfirmationPayload {
    fn from(r: ConfirmationRequest) -> (p: Self) {
        ConfirmationPayload {
            prompt_title: r.prompt_title,
            prompt_message: r.prompt_message,
            action_description: r.action_description,
        }
    }
}

impl vstd::std_specs::convert::FromSpecImpl<ConfirmationRequest> for ConfirmationPayload {
    open spec fn obeys_from_spec() -> bool {
        true
    }

    open spec fn from_spec(r: ConfirmationRequest) -> Self {
        ConfirmationPayload {
            prompt_title: r.prompt_title,
            prompt_message: r.prompt_message,
            action_description: r.action_description,
        }
    }
}

pub open spec fn payload_of(r: ConfirmationRequest) -> ConfirmationPayload {
    ConfirmationPayload {
        prompt_title: r.prompt_title,
        prompt_message: r.prompt_message,
        action_description: r.action_description,
    }
}

/// The question remembered after a step report: a report that a step needs
/// confirmation, with its question, replaces the one remembered; any other
/// report leaves it as it was.
pub open spec fn noted_question(prev: Option<ConfirmationPayload>, e: StepEvent) -> Option<ConfirmationPayload> {
    if e.status == StepStatus::NeedsConfirmation && e.confirmation is Some {
        Some(payload_of(e.confirmation->0))
    } else {
        prev
    }
}

/// The question remembered after a run of step reports.
pub open spec fn noted_over(prev: Option<ConfirmationPayload>, events: Seq<StepEvent>) -> Option<ConfirmationPayload>
    decreases events.len(),
{
    if events.len() == 0 {
        prev
    } else {
        noted_over(noted_question(prev, events[0]), events.drop_first())
    }
}

/// What the window remembers while the privileged phase runs: the last
/// question a step stopped on.
pub struct PhaseWatch {
    pub confirmation: Option<ConfirmationPayload>,
}

impl PhaseWatch {
    pub fn new() -> (w: Self)
        ensures
            w.confirmation is None,
    {
        PhaseWatch { confirmation: None }
    }

    /// Takes note of one line of the phase's output, `event` being its step
    /// report when it is one.
    pub fn observe(&mut self, event: Option<&StepEvent>)
        ensures
            final(self).confirmation == match event {
                Some(e) => noted_question(old(self).confirmation, *e),
                None => old(self).confirmation,
            },
    {
        if let Some(e) = event {
            if e.status == StepStatus::NeedsConfirmation {
                if let Some(c) = &e.confirmation {
                    self.confirmation = Some(
                        ConfirmationPayload {
                            prompt_title: c.prompt_title.clone(),
                            prompt_message: c.prompt_message.clone(),
                            action_description: c.action_description.clone(),
                        },
                    );
                }
            }
        }
    }

    /// How the phase ended, from how its process ended: success; a stop on
    /// a question, which is no failure; or a failure.
    pub fn finish(self, waited: Result<(), String>) -> (r: Result<Option<ConfirmationPayload>, String>)
        ensures
            waited is Ok ==> r == Ok::<Option<ConfirmationPayload>, String>(None),
            waited matches Err(e) ==> match self.confirmation {
                Some(c) => r == Ok::<Option<ConfirmationPayload>, String>(Some(c)),
                None => r matches Err(m) && m@ == "Privileged install phase failed: "@ + e@,
            },
    {
        match waited {
            Ok(()) => Ok(None),
            Err(e) => match self.confirmation {
                Some(c) => Ok(Some(c)),
                None => {
                    let mut m = owned("Privileged install phase failed: ");
                    m.append(e.as_str());
                    Err(m)
                },
            },
        }
    }
}

/// What follows the privileged phase: the install stops on the user's
/// question when there is one; otherwise it goes on with the user steps.
pub fn after_privileged_phase(question: Option<ConfirmationPayload>) -> (next: Option<InstallOutcome>)
    ensures
        question matches Some(q) ==> next == Some(InstallOutcome::NeedsConfirmation(q)),
        question is None ==> next is None,
{
    match question {
        Some(q) => Some(InstallOutcome::NeedsConfirmation(q)),
        None => None,
    }
}

// ---------------------------------------------------------------------------
// The end of an install
// ---------------------------------------------------------------------------

/// How the install sequence stopped when nothing went wrong.
pub enum InstallOutcome {
    Completed,
    NeedsConfirmation(ConfirmationPayload),
}

/// The answer to an install request.
#[derive(Debug, Clone, PartialEq, Eq)]
pub struct InstallDone {
    pub success: bool,
    pub message: String,
}

/// What the window is told when an install request ends.
pub enum InstallNotice {
    /// The install finished, well or not.
    Done(InstallDone),
    /// The install waits on the user's answer: it neither finished nor failed.
    ConfirmationNeeded(ConfirmationPayload),
}

/// How an install request ends: the notice sent to the window, and the
/// answer returned to the request.
pub fn install_report(result: Result<InstallOutcome, String>) -> (r: (InstallNotice, Result<
    InstallDone,
    String,
>))
    ensures
        result matches Ok(InstallOutcome::Completed) ==> (r.0 matches InstallNotice::Done(d)
            && d.success && d.message@ == "Installation complete."@ && r.1 == Ok::<
            InstallDone,
            String,
        >(d)),
        result matches Ok(InstallOutcome::NeedsConfirmation(p)) ==> (r.0
            == InstallNotice::ConfirmationNeeded(p) && (r.1 matches Ok(d) && !d.success
            && d.message@ == "Waiting for confirmation."@)),
        result matches Err(e) ==> (r.0 matches InstallNotice::Done(d) && !d.success && d.message
            == e && r.1 == Err::<InstallDone, String>(e)),
{
    match result {
        Ok(InstallOutcome::Completed) => {
            let message = owned("Installation complete.");
            let m2 = message.clone();
            (
                InstallNotice::Done(InstallDone { success: true, message }),
                Ok(InstallDone { success: true, message: m2 }),
            )
        },
        Ok(InstallOutcome::NeedsConfirmation(payload)) => (
            InstallNotice::ConfirmationNeeded(payload),
            Ok(InstallDone { success: false, message: owned("Waiting for confirmation.") }),
        ),
        Err(e) => {
            let e2 = e.clone();
            (InstallNotice::Done(InstallDone { success: false, message: e }), Err(e2))
        },
    }
}

// ---------------------------------------------------------------------------
// Script arguments
// ---------------------------------------------------------------------------

pub open spec fn model_flag(usage: Seq<char>, model: Seq<char>) -> Seq<char> {
    "--model-"@ + usage + "="@ + model
}

pub open spec fn model_flags(models: Seq<(String, String)>) -> Seq<Seq<char>> {
    models.map_values(|p: (String, String)| model_flag(p.0@, p.1@))
}

pub open spec fn pull_models_args_of(tier: Option<Seq<char>>, models: Seq<(String, String)>) -> Seq<Seq<char>> {
    seq!["--no-tui"@] + match tier {
        Some(t) => seq!["--tier="@ + t],
        None => seq![],
    } + model_flags(models)
}

/// The arguments of the model download script: no interactive picker, the
/// tier when one was chosen, and one flag per usage whose model the user
/// picked.
pub fn pull_models_args(tier: Option<&str>, models: &[(String, String)]) -> (args: Vec<String>)
    ensures
        views_of(args@) == pull_models_args_of(opt_view(tier), models@),
{
    let mut args: Vec<String> = Vec::new();
    args.push(owned("--no-tui"));
    if let Some(t) = tier {
        let mut a = owned("--tier=");
        a.append(t);
        args.push(a);
    }
    let ghost head = views_of(args@);
    assert(head == seq!["--no-tui"@] + match opt_view(tier) {
        Some(t) => seq!["--tier="@ + t],
        None => seq![],
    }) by {
        assert(head =~= seq!["--no-tui"@] + match opt_view(tier) {
            Some(t) => seq!["--tier="@ + t],
            None => seq![],
        });
    }
    let mut i: usize = 0;
    while i < models.len()
        invariant
            0 <= i <= models.len(),
            views_of(args@) == head + model_flags(models@.take(i as int)),
        decreases models.len() - i,
    {
        let mut a = owned("--model-");
        a.append(models[i].0.as_str());
        a.append("=");
        a.append(models[i].1.as_str());
        let ghost prev = args@;
        assert(a@ == model_flag(models@[i as int].0@, models@[i as int].1@));
        args.push(a);
        proof {
            assert(views_of(args@) =~= views_of(prev).push(model_flag(models@[i as int].0@, models@[i as int].1@)));
            assert(model_flags(models@.take(i as int + 1)) =~= model_flags(models@.take(i as int)).push(
                model_flag(models@[i as int].0@, models@[i as int].1@),
            ));
            assert(views_of(args@) =~= head + model_flags(models@.take(i as int + 1)));
        }
        i += 1;
    }
    assert(models@.take(models.len() as int) =~= models@);
    args
}

pub open spec fn views_of(v: Seq<String>) -> Seq<Seq<char>> {
    v.map_values(|s: String| s@)
}

/// A character of an argument inside PowerShell single quotes, where a
/// quote is written twice.
pub open spec fn quoted_char(c: char) -> Seq<char> {
    if c == '\'' {
        seq!['\'', '\'']
    } else {
        seq![c]
    }
}

pub open spec fn escape_quotes(s: Seq<char>) -> Seq<char>
    decreases s.len(),
{
    if s.len() == 0 {
        seq![]
    } else {
        escape_quotes(s.drop_last()) + quoted_char(s.last())
    }
}

pub open spec fn ps_quote(s: Seq<char>) -> Seq<char> {
    seq!['\''] + escape_quotes(s) + seq!['\'']
}

pub open spec fn ps_quoted(args: Seq<String>) -> Seq<Seq<char>> {
    args.map_values(|a: String| ps_quote(a@))
}

fn push_quoted(out: &mut String, a: &str)
    ensures
        final(out)@ == old(out)@ + ps_quote(a@),
{
    let v = to_chars(a);
    let ghost start = out@;
    push_char(out, '\'');
    let mut j: usize = 0;
    while j < v.len()
        invariant
            0 <= j <= v.len(),
            v@ == a@,
            out@ == start + seq!['\''] + escape_quotes(v@.take(j as int)),
        decreases v.len() - j,
    {
        let c = v[j];
        push_char(out, c);
        if c == '\'' {
            push_char(out, '\'');
        }
        proof {
            let t = v@.take(j as int + 1);
            assert(t.drop_last() =~= v@.take(j as int));
            assert(t.last() == c);
            assert(escape_quotes(t) == escape_quotes(v@.take(j as int)) + quoted_char(c));
        }
        j += 1;
    }
    push_char(out, '\'');
    assert(v@.take(v.len() as int) =~= v@);
    assert(out@ =~= start + ps_quote(a@));
}

/// The arguments of an elevated PowerShell as `Start-Process` takes them:
/// each in single quotes, quotes inside written twice, separated by commas.
pub fn powershell_arg_list(args: &[String]) -> (list: String)
    ensures
        list@ == join_with(ps_quoted(args@), ","@),
{
    let mut s = String::new();
    let mut i: usize = 0;
    while i < args.len()
        invariant
            0 <= i <= args.len(),
            s@ == join_with(ps_quoted(args@.take(i as int)), ","@),
        decreases args.len() - i,
    {
        let ghost before = s@;
        if i > 0 {
            s.append(",");
        }
        push_quoted(&mut s, args[i].as_str());
        proof {
            let t = ps_quoted(args@.take(i as int + 1));
            assert(t.drop_last() =~= ps_quoted(args@.take(i as int)));
            assert(t.last() == ps_quote(args@[i as int]@));
            if i == 0 {
                assert(t.len() == 1);
                assert(s@ =~= t[0]);
            } else {
                assert(s@ =~= join_with(t.drop_last(), ","@) + ","@ + t.last());
            }
        }
        i += 1;
    }
    assert(args@.take(args.len() as int) =~= args@);
    s
}

/// The command that runs PowerShell elevated through UAC, waiting for it,
/// with `arg_list` as its arguments.
pub fn elevated_setup_command(arg_list: &str) -> (cmd: String)
    ensures
        cmd@ == "Start-Process -FilePath powershell.exe -Verb RunAs -Wait -ArgumentList "@ + arg_list@,
{
    let mut cmd = owned("Start-Process -FilePath powershell.exe -Verb RunAs -Wait -ArgumentList ");
    cmd.append(arg_list);
    cmd
}

pub open spec fn setup_args_of(script: Seq<char>, skip_models: bool, skip_webui: bool, tier: Option<Seq<char>>) -> Seq<Seq<char>> {
    seq!["-NoProfile"@, "-ExecutionPolicy"@, "Bypass"@, "-File"@, script]
        + (if skip_models { seq!["-SkipModels"@] } else { seq![] })
        + (if skip_webui { seq!["-SkipWebui"@] } else { seq![] })
        + match tier {
            Some(t) => seq!["-Tier"@, t],
            None => seq![],
        }
}

/// The arguments of the elevated `setup.ps1` run on Windows.
pub fn setup_ps1_args(script: &str, skip_models: bool, skip_webui: bool, tier: Option<&str>) -> (args: Vec<String>)
    ensures
        views_of(args@) == setup_args_of(script@, skip_models, skip_webui, opt_view(tier)),
{
    let mut args: Vec<String> = Vec::new();
    args.push(owned("-NoProfile"));
    args.push(owned("-ExecutionPolicy"));
    args.push(owned("Bypass"));
    args.push(owned("-File"));
    args.push(owned(script));
    if skip_models {
        args.push(owned("-SkipModels"));
    }
    if skip_webui {
        args.push(owned("-SkipWebui"));
    }
    if let Some(t) = tier {
        args.push(owned("-Tier"));
        args.push(owned(t));
    }
    assert(views_of(args@) =~= setup_args_of(script@, skip_models, skip_webui, opt_view(tier)));
    args
}


// ---------------------------------------------------------------------------
// Laws
// ---------------------------------------------------------------------------

proof fn lemma_no_question_keeps(prev: Option<ConfirmationPayload>, events: Seq<StepEvent>)
    requires
        forall|j: int| 0 <= j < events.len() ==> (#[trigger] events[j]).status != StepStatus::NeedsConfirmation,
    ensures
        noted_over(prev, events) == prev,
    decreases events.len(),
{
    if events.len() > 0 {
        assert(events[0].status != StepStatus::NeedsConfirmation);
        let rest = events.drop_first();
        assert forall|j: int| 0 <= j < rest.len() implies (#[trigger] rest[j]).status
            != StepStatus::NeedsConfirmation by {
            assert(rest[j] == events[j + 1]);
        }
        lemma_no_question_keeps(prev, rest);
    }
}

/// When the worker reports that a step stopped on question `c`, and no
/// later report asks another question, the question the window is left
/// with is `c`, whatever came before.
pub proof fn law_a_reported_question_reaches_the_window(
    prev: Option<ConfirmationPayload>,
    events: Seq<StepEvent>,
    k: int,
    id: Seq<char>,
    label: Seq<char>,
    c: ConfirmationRequest,
)
    requires
        0 <= k < events.len(),
        is_finished_event(events[k], id, label, Err(StepRunError::NeedsConfirmation(c))),
        forall|j: int| k < j < events.len() ==> (#[trigger] events[j]).status != StepStatus::NeedsConfirmation,
    ensures
        noted_over(prev, events) == Some(payload_of(c)),
    decreases k,
{
    if k == 0 {
        let rest = events.drop_first();
        assert forall|j: int| 0 <= j < rest.len() implies (#[trigger] rest[j]).status
            != StepStatus::NeedsConfirmation by {
            assert(rest[j] == events[j + 1]);
        }
        lemma_no_question_keeps(Some(payload_of(c)), rest);
    } else {
        let rest = events.drop_first();
        assert(rest[k - 1] == events[k]);
        assert forall|j: int| k - 1 < j < rest.len() implies (#[trigger] rest[j]).status
            != StepStatus::NeedsConfirmation by {
            assert(rest[j] == events[j + 1]);
        }
        law_a_reported_question_reaches_the_window(noted_question(prev, events[0]), rest, k - 1, id, label, c);
    }
}

} // verus!
