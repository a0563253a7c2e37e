use selfllama::install::gpu::{nvidia_plan, DistroAction};
use selfllama::install::{DistroFamily, OllamaServiceOverride};
use selfllama::privileged::exec::{pkg_install_commands, CommandSpec};
use selfllama::privileged::gpu_step::{
    amd_override_from_rocminfo, describe_action, gpu_vendor_of, nvidia_steps, GpuVendor, NvidiaInstall,
};
use selfllama::privileged::protocol::{
    frame_step_line, step_line_payload, ConfirmationRequest, StepEvent, StepStatus, STEP_MARKER,
};
use selfllama::privileged::steps::{
    default_privileged_steps, finished_event, run_steps, runner_move, started_event, PrivilegedStep, RunnerState,
    StepFailure, StepKind,
    StepRunError,
};
use selfllama::privileged::stub_steps;
use selfllama::privileged::{build_privileged_phase_command, worker_exit_code, PrivilegedPhaseOptions};
use std::cell::RefCell;
use std::rc::Rc;

fn args_of(c: &CommandSpec) -> Vec<String> {
    c.args.clone()
}

// ---------------------------------------------------------------------------
// Package manager commands
// ---------------------------------------------------------------------------

#[test]
fn arch_uses_a_single_pacman_call() {
    let commands = pkg_install_commands(DistroFamily::Arch, &["vulkan-radeon", "rocminfo"]);
    assert_eq!(commands.len(), 1);
    assert_eq!(commands[0].program, "pacman");
    assert_eq!(args_of(&commands[0]), vec!["-Sy", "--noconfirm", "--needed", "vulkan-radeon", "rocminfo"]);
}

#[test]
fn debian_updates_before_installing_two_separate_commands() {
    let commands = pkg_install_commands(DistroFamily::Debian, &["mesa-vulkan-drivers"]);
    assert_eq!(commands.len(), 2);
    assert_eq!(commands[0].program, "apt-get");
    assert_eq!(args_of(&commands[0]), vec!["update", "-qq"]);
    assert_eq!(commands[1].program, "apt-get");
    assert_eq!(args_of(&commands[1]), vec!["install", "-y", "mesa-vulkan-drivers"]);
}

#[test]
fn fedora_uses_dnf_install_y() {
    let commands = pkg_install_commands(DistroFamily::Fedora, &["rocminfo"]);
    assert_eq!(commands[0].program, "dnf");
    assert_eq!(args_of(&commands[0]), vec!["install", "-y", "rocminfo"]);
}

#[test]
fn opensuse_uses_zypper_non_interactive() {
    let commands = pkg_install_commands(DistroFamily::OpenSuse, &["vulkan-tools"]);
    assert_eq!(commands[0].program, "zypper");
    assert_eq!(args_of(&commands[0]), vec!["--non-interactive", "install", "vulkan-tools"]);
}

#[test]
fn no_packages_produces_no_commands() {
    assert_eq!(pkg_install_commands(DistroFamily::Arch, &[]).len(), 0);
}

#[test]
fn unknown_distro_produces_no_commands_matching_the_bash_manual_install_warning() {
    assert_eq!(pkg_install_commands(DistroFamily::Unknown, &["rocminfo"]).len(), 0);
}

#[test]
fn install_arguments_keep_the_package_order() {
    let commands = pkg_install_commands(DistroFamily::Fedora, &["b", "a", "c"]);
    assert_eq!(args_of(&commands[0]), vec!["install", "-y", "b", "a", "c"]);
}

// ---------------------------------------------------------------------------
// The pkexec command and the worker's arguments
// ---------------------------------------------------------------------------

#[test]
fn builds_a_single_pkexec_command_targeting_self_with_the_sentinel_arg() {
    let cmd = build_privileged_phase_command("/usr/bin/selfllama-installer", PrivilegedPhaseOptions::default());
    assert_eq!(cmd.program, "pkexec");
    assert_eq!(cmd.args, vec!["/usr/bin/selfllama-installer", "--run-privileged-phase"]);
}

#[test]
fn passes_skip_webui_through_to_the_worker() {
    let cmd = build_privileged_phase_command(
        "/usr/bin/selfllama-installer",
        PrivilegedPhaseOptions { skip_webui: true, ..Default::default() },
    );
    assert_eq!(cmd.args, vec!["/usr/bin/selfllama-installer", "--run-privileged-phase", "--skip-webui"]);
}

#[test]
fn worker_side_parses_skip_webui_back_out_of_its_own_args() {
    let args = vec!["--skip-webui".to_string()];
    assert_eq!(
        PrivilegedPhaseOptions::from_args(&args),
        PrivilegedPhaseOptions { skip_webui: true, ..Default::default() }
    );
    assert_eq!(PrivilegedPhaseOptions::from_args(&[]), PrivilegedPhaseOptions::default());
}

#[test]
fn confirm_nvidia_driver_install_defaults_to_false_and_round_trips_through_args() {
    assert!(!PrivilegedPhaseOptions::default().confirm_nvidia_driver_install);

    let opts = PrivilegedPhaseOptions { confirm_nvidia_driver_install: true, ..Default::default() };
    let cmd = build_privileged_phase_command("/usr/bin/selfllama-installer", opts);
    assert_eq!(
        cmd.args,
        vec!["/usr/bin/selfllama-installer", "--run-privileged-phase", "--confirm-nvidia-driver-install"]
    );
    assert_eq!(PrivilegedPhaseOptions::from_args(&cmd.args[2..].to_vec()), opts);
}

#[test]
fn options_round_trip_through_the_worker_arguments() {
    for skip_webui in [false, true] {
        for confirm in [false, true] {
            let opts = PrivilegedPhaseOptions { skip_webui, confirm_nvidia_driver_install: confirm };
            assert_eq!(PrivilegedPhaseOptions::from_args(&opts.to_args()), opts);
        }
    }
}

#[test]
fn unknown_worker_arguments_are_ignored() {
    let args = vec!["--verbose".to_string(), "--skip-webui".to_string()];
    assert_eq!(
        PrivilegedPhaseOptions::from_args(&args),
        PrivilegedPhaseOptions { skip_webui: true, confirm_nvidia_driver_install: false }
    );
}

#[test]
fn worker_exit_code_is_zero_only_on_success() {
    assert_eq!(worker_exit_code::<StepFailure>(&Ok(())), 0);
    let failure = StepFailure { step_id: "gpu".to_string(), message: "boom".to_string(), confirmation: None };
    assert_eq!(worker_exit_code(&Err(failure)), 1);
}

// ---------------------------------------------------------------------------
// Step lines
// ---------------------------------------------------------------------------

fn event_json(id: &str, label: &str, status: &str, error: Option<&str>) -> String {
    let mut m = serde_json::Map::new();
    m.insert("id".to_string(), serde_json::Value::String(id.to_string()));
    m.insert("label".to_string(), serde_json::Value::String(label.to_string()));
    m.insert("status".to_string(), serde_json::Value::String(status.to_string()));
    m.insert(
        "error".to_string(),
        match error {
            Some(e) => serde_json::Value::String(e.to_string()),
            None => serde_json::Value::Null,
        },
    );
    serde_json::Value::Object(m).to_string()
}

fn parse_line(line: &str) -> Option<serde_json::Value> {
    let payload = step_line_payload(line)?;
    serde_json::from_str(&payload).ok()
}

#[test]
fn round_trips_a_running_event() {
    let json = event_json("ollama", "Installing Ollama", "running", None);
    let line = frame_step_line(&json);
    let value = parse_line(&line).unwrap();
    assert_eq!(value["id"], "ollama");
    assert_eq!(value["label"], "Installing Ollama");
    assert_eq!(value["status"], "running");
    assert!(value["error"].is_null());
}

#[test]
fn round_trips_a_failed_event_with_an_error_message() {
    let json = event_json("gpu", "Configuring GPU", "failed", Some("pacman exited with status 1"));
    let line = frame_step_line(&json);
    let value = parse_line(&line).unwrap();
    assert_eq!(value["id"], "gpu");
    assert_eq!(value["status"], "failed");
    assert_eq!(value["error"], "pacman exited with status 1");
}

#[test]
fn ordinary_log_lines_are_not_mistaken_for_step_events() {
    assert_eq!(parse_line("Installing Ollama..."), None);
    assert_eq!(parse_line("[INFO] some regular log output"), None);
}

#[test]
fn malformed_step_line_is_treated_as_ordinary_text_not_a_crash() {
    assert_eq!(parse_line("__STEP__{not valid json"), None);
}

#[test]
fn framing_then_unframing_gives_back_the_payload() {
    let line = frame_step_line("{\"a\":1}");
    assert_eq!(line, "__STEP__{\"a\":1}");
    assert_eq!(step_line_payload(&line), Some("{\"a\":1}".to_string()));
    assert_eq!(step_line_payload(STEP_MARKER), Some(String::new()));
    assert_eq!(step_line_payload(" __STEP__{}"), None);
}

// ---------------------------------------------------------------------------
// Steps with stand-in work
// ---------------------------------------------------------------------------

type StubRun = Box<dyn Fn() -> Result<(), String>>;

fn stub_recording_step(
    id: &'static str,
    label: &'static str,
    log: Rc<RefCell<Vec<&'static str>>>,
    outcome: Result<(), &'static str>,
) -> stub_steps::PrivilegedStep<StubRun> {
    stub_steps::PrivilegedStep {
        id,
        label,
        run: Box::new(move || {
            log.borrow_mut().push(id);
            outcome.map_err(|e| e.to_string())
        }),
    }
}

#[test]
fn steps_runs_every_step_in_order_when_all_succeed() {
    let log = Rc::new(RefCell::new(Vec::new()));
    let steps = vec![
        stub_recording_step("ollama", "Installing Ollama", log.clone(), Ok(())),
        stub_recording_step("gpu", "Configuring GPU", log.clone(), Ok(())),
        stub_recording_step("webui-deps", "Installing Open WebUI prerequisites", log.clone(), Ok(())),
    ];

    assert_eq!(stub_steps::run_steps(&steps, &|_e: StepEvent| {}), Ok(()));
    assert_eq!(*log.borrow(), vec!["ollama", "gpu", "webui-deps"]);
}

#[test]
fn steps_stops_at_the_first_failure_and_never_runs_later_steps() {
    let log = Rc::new(RefCell::new(Vec::new()));
    let steps = vec![
        stub_recording_step("ollama", "Installing Ollama", log.clone(), Ok(())),
        stub_recording_step("gpu", "Configuring GPU", log.clone(), Err("pacman exited with status 1")),
        stub_recording_step("webui-deps", "Installing Open WebUI prerequisites", log.clone(), Ok(())),
    ];

    let result = stub_steps::run_steps(&steps, &|_e: StepEvent| {});

    assert_eq!(
        result,
        Err(stub_steps::StepFailure {
            step_id: "gpu".to_string(),
            message: "pacman exited with status 1".to_string()
        })
    );
    assert_eq!(*log.borrow(), vec!["ollama", "gpu"]);
}

#[test]
fn steps_default_steps_skip_webui_deps_when_requested() {
    let opts = PrivilegedPhaseOptions { skip_webui: true, ..Default::default() };
    let ids: Vec<&str> = stub_steps::default_privileged_steps(&opts).iter().map(|s| s.id).collect();
    assert_eq!(ids, vec!["ollama", "gpu"]);
}

#[test]
fn steps_default_steps_include_webui_deps_by_default() {
    let opts = PrivilegedPhaseOptions::default();
    let ids: Vec<&str> = stub_steps::default_privileged_steps(&opts).iter().map(|s| s.id).collect();
    assert_eq!(ids, vec!["ollama", "gpu", "webui-deps"]);
}

#[test]
fn steps_step_order_matches_run_linuxs_current_order_ollama_then_gpu() {
    let opts = PrivilegedPhaseOptions::default();
    let ids: Vec<&str> = stub_steps::default_privileged_steps(&opts).iter().map(|s| s.id).collect();
    assert_eq!(ids[0], "ollama");
    assert_eq!(ids[1], "gpu");
}

#[test]
fn stub_failure_describes_the_step_and_the_error() {
    let f = stub_steps::StepFailure { step_id: "gpu".to_string(), message: "boom".to_string() };
    assert_eq!(f.describe(), "step 'gpu' failed: boom");
}

#[test]
fn stub_runner_reports_running_then_done_or_failed() {
    let events: Rc<RefCell<Vec<(String, StepStatus, Option<String>)>>> = Rc::new(RefCell::new(Vec::new()));
    let log = Rc::new(RefCell::new(Vec::new()));
    let steps = vec![
        stub_recording_step("ollama", "Installing Ollama", log.clone(), Ok(())),
        stub_recording_step("gpu", "Configuring GPU", log.clone(), Err("no driver")),
    ];
    let sink = events.clone();
    let _ = stub_steps::run_steps(&steps, &move |e: StepEvent| sink.borrow_mut().push((e.id, e.status, e.error)));
    assert_eq!(
        *events.borrow(),
        vec![
            ("ollama".to_string(), StepStatus::Running, None),
            ("ollama".to_string(), StepStatus::Done, None),
            ("gpu".to_string(), StepStatus::Running, None),
            ("gpu".to_string(), StepStatus::Failed, Some("no driver".to_string())),
        ]
    );
}

// ---------------------------------------------------------------------------
// Steps with real work
// ---------------------------------------------------------------------------

type RealRun = Box<dyn Fn() -> Result<(), StepRunError>>;

fn recording_step(
    id: &'static str,
    label: &'static str,
    log: Rc<RefCell<Vec<&'static str>>>,
    outcome: Result<(), StepRunError>,
) -> PrivilegedStep<RealRun> {
    PrivilegedStep {
        id,
        label,
        run: Box::new(move || {
            log.borrow_mut().push(id);
            outcome.clone()
        }),
    }
}

fn nvidia_question() -> ConfirmationRequest {
    ConfirmationRequest {
        prompt_title: "Nvidia driver".to_string(),
        prompt_message: "Install the Nvidia driver now? (requires a reboot afterwards)".to_string(),
        action_description: "install packages: nvidia, nvidia-utils".to_string(),
    }
}

#[test]
fn mod_runs_every_step_in_order_when_all_succeed() {
    let log = Rc::new(RefCell::new(Vec::new()));
    let steps = vec![
        recording_step("ollama", "Installing Ollama", log.clone(), Ok(())),
        recording_step("gpu", "Configuring GPU", log.clone(), Ok(())),
        recording_step("webui-deps", "Installing Open WebUI prerequisites", log.clone(), Ok(())),
    ];

    assert_eq!(run_steps(&steps, &|_e: StepEvent| {}), Ok(()));
    assert_eq!(*log.borrow(), vec!["ollama", "gpu", "webui-deps"]);
}

#[test]
fn mod_stops_at_the_first_failure_and_never_runs_later_steps() {
    let log = Rc::new(RefCell::new(Vec::new()));
    let steps = vec![
        recording_step("ollama", "Installing Ollama", log.clone(), Ok(())),
        recording_step(
            "gpu",
            "Configuring GPU",
            log.clone(),
            Err(StepRunError::Failed("pacman exited with status 1".to_string())),
        ),
        recording_step("webui-deps", "Installing Open WebUI prerequisites", log.clone(), Ok(())),
    ];

    let result = run_steps(&steps, &|_e: StepEvent| {});

    assert_eq!(
        result,
        Err(StepFailure {
            step_id: "gpu".to_string(),
            message: "pacman exited with status 1".to_string(),
            confirmation: None,
        })
    );
    assert_eq!(*log.borrow(), vec!["ollama", "gpu"]);
}

#[test]
fn a_needs_confirmation_step_also_stops_the_sequence_but_is_reported_distinctly() {
    let log = Rc::new(RefCell::new(Vec::new()));
    let confirmation = nvidia_question();
    let steps = vec![
        recording_step("ollama", "Installing Ollama", log.clone(), Ok(())),
        recording_step(
            "gpu",
            "Configuring GPU",
            log.clone(),
            Err(StepRunError::NeedsConfirmation(confirmation.clone())),
        ),
        recording_step("webui-deps", "Installing Open WebUI prerequisites", log.clone(), Ok(())),
    ];

    let result = run_steps(&steps, &|_e: StepEvent| {});

    let failure = result.expect_err("a needs-confirmation step must stop the sequence");
    assert_eq!(failure.step_id, "gpu");
    assert_eq!(failure.confirmation, Some(confirmation));
    assert_eq!(*log.borrow(), vec!["ollama", "gpu"]);
}

#[test]
fn mod_default_steps_skip_webui_deps_when_requested() {
    let opts = PrivilegedPhaseOptions { skip_webui: true, ..Default::default() };
    let ids: Vec<&str> = default_privileged_steps(&opts).iter().map(|s| s.id).collect();
    assert_eq!(ids, vec!["ollama", "gpu"]);
}

#[test]
fn mod_default_steps_include_webui_deps_by_default() {
    let opts = PrivilegedPhaseOptions::default();
    let ids: Vec<&str> = default_privileged_steps(&opts).iter().map(|s| s.id).collect();
    assert_eq!(ids, vec!["ollama", "gpu", "webui-deps"]);
}

#[test]
fn mod_step_order_matches_run_linuxs_current_order_ollama_then_gpu() {
    let opts = PrivilegedPhaseOptions::default();
    let ids: Vec<&str> = default_privileged_steps(&opts).iter().map(|s| s.id).collect();
    assert_eq!(ids[0], "ollama");
    assert_eq!(ids[1], "gpu");
}

#[test]
fn default_steps_name_their_work() {
    let opts = PrivilegedPhaseOptions::default();
    let kinds: Vec<StepKind> = default_privileged_steps(&opts).iter().map(|s| s.run).collect();
    assert_eq!(kinds, vec![StepKind::Ollama, StepKind::Gpu { confirmed: false }, StepKind::WebuiDeps]);
    let opts = PrivilegedPhaseOptions { skip_webui: true, confirm_nvidia_driver_install: true };
    let kinds: Vec<StepKind> = default_privileged_steps(&opts).iter().map(|s| s.run).collect();
    assert_eq!(kinds, vec![StepKind::Ollama, StepKind::Gpu { confirmed: true }]);
}

#[test]
fn failure_description_distinguishes_a_question_from_a_failure() {
    let failed = StepFailure { step_id: "gpu".to_string(), message: "boom".to_string(), confirmation: None };
    assert_eq!(failed.describe(), "step 'gpu' failed: boom");
    let asked = StepFailure {
        step_id: "gpu".to_string(),
        message: "ignored".to_string(),
        confirmation: Some(nvidia_question()),
    };
    assert_eq!(
        asked.describe(),
        "step 'gpu' needs confirmation: Install the Nvidia driver now? (requires a reboot afterwards) \
         (install packages: nvidia, nvidia-utils)"
    );
}

#[test]
fn a_question_stops_with_the_title_and_message_as_its_text() {
    let log = Rc::new(RefCell::new(Vec::new()));
    let steps = vec![recording_step(
        "gpu",
        "Configuring GPU",
        log.clone(),
        Err(StepRunError::NeedsConfirmation(nvidia_question())),
    )];
    let failure = run_steps(&steps, &|_e: StepEvent| {}).unwrap_err();
    assert_eq!(failure.message, "Nvidia driver: Install the Nvidia driver now? (requires a reboot afterwards)");
}

#[test]
fn finished_events_carry_the_outcome() {
    let s = started_event("gpu", "Configuring GPU");
    assert_eq!(s.status, StepStatus::Running);
    assert_eq!(s.error, None);

    let done = finished_event("gpu", "Configuring GPU", &Ok(()));
    assert_eq!(done.status, StepStatus::Done);

    let failed = finished_event("gpu", "Configuring GPU", &Err(StepRunError::Failed("x".to_string())));
    assert_eq!(failed.status, StepStatus::Failed);
    assert_eq!(failed.error, Some("x".to_string()));

    let asked = finished_event("gpu", "Configuring GPU", &Err(StepRunError::NeedsConfirmation(nvidia_question())));
    assert_eq!(asked.status, StepStatus::NeedsConfirmation);
    assert_eq!(asked.confirmation, Some(nvidia_question()));
}

// ---------------------------------------------------------------------------
// The GPU step's decisions
// ---------------------------------------------------------------------------

#[test]
fn describes_a_package_install_as_a_comma_separated_list() {
    assert_eq!(
        describe_action(&DistroAction::InstallPackages(vec!["nvidia", "nvidia-utils"])),
        "install packages: nvidia, nvidia-utils"
    );
    assert_eq!(describe_action(&DistroAction::InstallPackages(vec!["akmod-nvidia"])), "install packages: akmod-nvidia");
}

#[test]
fn describes_an_empty_package_list_as_a_manual_install() {
    assert_eq!(
        describe_action(&DistroAction::InstallPackages(vec![])),
        "no automatic install available for this distro - install a driver manually"
    );
}

#[test]
fn describes_a_manual_step_by_its_message() {
    assert_eq!(describe_action(&DistroAction::ManualStepRequired("do it by hand")), "do it by hand");
}

#[test]
fn vendor_names_pick_the_vendor_path() {
    assert_eq!(gpu_vendor_of("nvidia"), GpuVendor::Nvidia);
    assert_eq!(gpu_vendor_of("amd"), GpuVendor::Amd);
    assert_eq!(gpu_vendor_of("intel"), GpuVendor::Intel);
    assert_eq!(gpu_vendor_of("none"), GpuVendor::Other);
    assert_eq!(gpu_vendor_of("NVIDIA"), GpuVendor::Other);
}

#[test]
fn nvidia_with_a_driver_installs_nothing() {
    let plan = nvidia_plan(DistroFamily::Arch, true, Some("RTX".to_string()));
    let steps = nvidia_steps(DistroFamily::Arch, plan, false).ok().unwrap();
    assert!(matches!(steps.install, NvidiaInstall::Nothing));
    assert!(!steps.reboot_notice);
    assert_eq!(steps.override_action, OllamaServiceOverride::Clear);
}

#[test]
fn nvidia_without_a_driver_asks_before_installing() {
    let plan = nvidia_plan(DistroFamily::Arch, false, None);
    match nvidia_steps(DistroFamily::Arch, plan, false) {
        Err(StepRunError::NeedsConfirmation(q)) => assert_eq!(q, nvidia_question()),
        _ => panic!("expected a question"),
    }
}

#[test]
fn confirmed_nvidia_install_runs_the_family_commands() {
    let plan = nvidia_plan(DistroFamily::Debian, false, None);
    let steps = nvidia_steps(DistroFamily::Debian, plan, true).ok().unwrap();
    match steps.install {
        NvidiaInstall::Commands(cs) => {
            assert_eq!(cs.len(), 2);
            assert_eq!(cs[1].args, vec!["install", "-y", "nvidia-driver"]);
        },
        _ => panic!("expected commands"),
    }
    assert!(steps.reboot_notice);
}

#[test]
fn confirmed_nvidia_install_on_opensuse_only_shows_the_manual_step() {
    let plan = nvidia_plan(DistroFamily::OpenSuse, false, None);
    let steps = nvidia_steps(DistroFamily::OpenSuse, plan, true).ok().unwrap();
    match steps.install {
        NvidiaInstall::Manual(m) => {
            assert_eq!(m, "On openSUSE, add the official NVIDIA repository then install x11-video-nvidiaG06.")
        },
        _ => panic!("expected a manual step"),
    }
}

#[test]
fn amd_override_follows_the_rocminfo_gfx_code() {
    let needs = amd_override_from_rocminfo(DistroFamily::Arch, Some("  Name:                    gfx1201\n"));
    match needs {
        OllamaServiceOverride::Write(c) => assert!(c.contains("HSA_OVERRIDE_GFX_VERSION=11.5.0")),
        _ => panic!("expected an override"),
    }
    let supported = amd_override_from_rocminfo(DistroFamily::Arch, Some("  Name:                    gfx1100\n"));
    assert_eq!(supported, OllamaServiceOverride::Clear);
    let missing = amd_override_from_rocminfo(DistroFamily::Arch, None);
    match missing {
        OllamaServiceOverride::Write(c) => assert!(!c.contains("HSA_OVERRIDE_GFX_VERSION")),
        _ => panic!("expected plain Vulkan"),
    }
}

#[test]
fn a_failing_last_step_is_reported_as_a_failure() {
    let log = Rc::new(RefCell::new(Vec::new()));
    let steps = vec![
        recording_step("ollama", "Installing Ollama", log.clone(), Ok(())),
        recording_step("gpu", "Configuring GPU", log.clone(), Err(StepRunError::Failed("boom".to_string()))),
    ];
    let failure = run_steps(&steps, &|_e: StepEvent| {}).unwrap_err();
    assert_eq!(failure.step_id, "gpu");
    assert_eq!(failure.message, "boom");
    let asking = vec![recording_step(
        "gpu",
        "Configuring GPU",
        log.clone(),
        Err(StepRunError::NeedsConfirmation(nvidia_question())),
    )];
    assert_eq!(run_steps(&asking, &|_e: StepEvent| {}).unwrap_err().confirmation, Some(nvidia_question()));
}

#[test]
fn the_runner_reports_every_transition_in_order() {
    let events: Rc<RefCell<Vec<(String, StepStatus)>>> = Rc::new(RefCell::new(Vec::new()));
    let log = Rc::new(RefCell::new(Vec::new()));
    let steps = vec![
        recording_step("ollama", "Installing Ollama", log.clone(), Ok(())),
        recording_step("gpu", "Configuring GPU", log.clone(), Err(StepRunError::NeedsConfirmation(nvidia_question()))),
        recording_step("webui-deps", "Installing Open WebUI prerequisites", log.clone(), Ok(())),
    ];
    let sink = events.clone();
    let _ = run_steps(&steps, &move |e: StepEvent| sink.borrow_mut().push((e.id, e.status)));
    assert_eq!(
        *events.borrow(),
        vec![
            ("ollama".to_string(), StepStatus::Running),
            ("ollama".to_string(), StepStatus::Done),
            ("gpu".to_string(), StepStatus::Running),
            ("gpu".to_string(), StepStatus::NeedsConfirmation),
        ]
    );
    let none: Vec<PrivilegedStep<RealRun>> = Vec::new();
    let sink = events.clone();
    assert_eq!(run_steps(&none, &move |e: StepEvent| sink.borrow_mut().push((e.id, e.status))), Ok(()));
    assert_eq!(events.borrow().len(), 4);
}

#[test]
fn runner_moves_start_report_and_stop() {
    let steps = default_privileged_steps(&PrivilegedPhaseOptions::default());
    let m = runner_move(&steps, RunnerState::Before(0), None);
    assert_eq!(m.report.unwrap().status, StepStatus::Running);
    assert_eq!(m.run, Some(0));
    assert_eq!(m.next, RunnerState::Awaiting(0));

    let m = runner_move(&steps, RunnerState::Awaiting(0), Some(Ok(())));
    assert_eq!(m.report.unwrap().status, StepStatus::Done);
    assert_eq!(m.next, RunnerState::Before(1));
    assert!(m.finish.is_none());

    let m = runner_move(&steps, RunnerState::Awaiting(1), Some(Err(StepRunError::Failed("x".to_string()))));
    assert_eq!(m.report.unwrap().error, Some("x".to_string()));
    assert_eq!(m.next, RunnerState::Over);
    assert_eq!(m.finish.unwrap().unwrap_err().step_id, "gpu");

    let m = runner_move(&steps, RunnerState::Before(3), None);
    assert!(m.report.is_none());
    assert_eq!(m.finish, Some(Ok(())));
}

#[test]
fn nvidia_driver_name_is_the_first_line_trimmed() {
    assert_eq!(selfllama::privileged::gpu_step::nvidia_driver_name("  NVIDIA GeForce RTX 3060 \nsecond\n"), "NVIDIA GeForce RTX 3060");
    assert_eq!(selfllama::privileged::gpu_step::nvidia_driver_name(""), "");
}

#[test]
fn rocminfo_is_taken_from_path_then_opt_then_a_versioned_install() {
    let versioned = vec!["/opt/rocm-6.1.0/bin/rocminfo".to_string(), "/opt/rocm-6.2.0/bin/rocminfo".to_string()];
    assert_eq!(
        selfllama::privileged::gpu_step::resolve_rocminfo_path(Some("/usr/bin/rocminfo"), Some("/opt/rocm/bin/rocminfo"), &versioned),
        Some("/usr/bin/rocminfo".to_string())
    );
    assert_eq!(
        selfllama::privileged::gpu_step::resolve_rocminfo_path(None, Some("/opt/rocm/bin/rocminfo"), &versioned),
        Some("/opt/rocm/bin/rocminfo".to_string())
    );
    assert_eq!(selfllama::privileged::gpu_step::resolve_rocminfo_path(None, None, &versioned), Some("/opt/rocm-6.1.0/bin/rocminfo".to_string()));
    assert_eq!(selfllama::privileged::gpu_step::resolve_rocminfo_path(None, None, &[]), None);
}

#[test]
fn ollama_service_is_reloaded_then_enabled_now() {
    let cs = selfllama::privileged::ollama_step::ollama_service_commands("ollama");
    assert_eq!(cs.len(), 2);
    assert_eq!(cs[0].program, "systemctl");
    assert_eq!(cs[0].args, vec!["daemon-reload"]);
    assert_eq!(cs[1].args, vec!["enable", "--now", "ollama"]);
}

#[test]
fn readiness_waits_between_attempts_and_gives_up_after_the_last() {
    let plan = selfllama::install::ollama::ollama_install_plan(true, true);
    let check = &plan.readiness_check;
    assert!(matches!(selfllama::privileged::ollama_step::readiness_move(check, 0, true), selfllama::privileged::ollama_step::ReadinessMove::Ready));
    assert!(matches!(selfllama::privileged::ollama_step::readiness_move(check, 29, true), selfllama::privileged::ollama_step::ReadinessMove::Ready));
    match selfllama::privileged::ollama_step::readiness_move(check, 0, false) {
        selfllama::privileged::ollama_step::ReadinessMove::Wait(d) => assert_eq!(d, std::time::Duration::from_secs(1)),
        _ => panic!("expected a wait"),
    }
    match selfllama::privileged::ollama_step::readiness_move(check, 29, false) {
        selfllama::privileged::ollama_step::ReadinessMove::WaitThenGiveUp(d, msg) => {
            assert_eq!(d, std::time::Duration::from_secs(1));
            assert_eq!(msg, "Ollama did not start in time (checked http://127.0.0.1:11434 30 times, 1s apart)");
        }
        _ => panic!("expected to give up"),
    }
    assert_eq!(
        selfllama::privileged::ollama_step::readiness_timeout(check),
        "Ollama did not start in time (checked http://127.0.0.1:11434 30 times, 1s apart)"
    );
}
