use selfllama::detect::distro::DistroInfo;
use selfllama::detect::gpu::GpuInfo;
use selfllama::gui::{
    detect_json_payload, detect_parse_outcome, detect_result, extract_detect_json, install_report, install_step_status, planned_install_steps,
    powershell_arg_list, pull_models_args, setup_ps1_args, step_update, ConfirmationPayload, InstallNotice,
    InstallOutcome, PhaseWatch, user_script_steps,
};
use selfllama::privileged::protocol::{ConfirmationRequest, StepEvent, StepStatus};

#[test]
fn extracts_detect_json_ignoring_human_readable_log_lines() {
    let output = "[INFO] Detected distro: Ubuntu 24.04 LTS (family: debian)\n\
                   [INFO] GPU selected for acceleration: none (none)\n\
                   __DETECT__{\"distro_pretty\":\"Ubuntu 24.04 LTS\",\"gpu_vendor\":\"none\"}\n";

    let value = extract_detect_json(output).unwrap();
    assert_eq!(value["distro_pretty"], "Ubuntu 24.04 LTS");
    assert_eq!(value["gpu_vendor"], "none");
}

#[test]
fn errors_when_no_detect_line_present() {
    let output = "[INFO] just some regular log output\n";
    assert!(extract_detect_json(output).is_err());
    assert_eq!(
        detect_json_payload(output),
        Err("no detection output (__DETECT__ line) found in script output".to_string())
    );
}

#[test]
fn the_first_detect_line_wins() {
    assert_eq!(detect_json_payload("__DETECT__{}\n__DETECT__[]\n"), Ok("{}".to_string()));
}

fn distro() -> DistroInfo {
    DistroInfo { family: "debian".to_string(), pretty: "Ubuntu 24.04 LTS".to_string() }
}

fn no_gpu() -> GpuInfo {
    GpuInfo { vendor: "none".to_string(), name: String::new() }
}

#[test]
fn detection_result_uses_the_tier_the_ram_calls_for() {
    let r = detect_result(distro(), no_gpu(), "Generic CPU".to_string(), 8, 16, None).ok().unwrap();
    assert_eq!(r.distro_pretty, "Ubuntu 24.04 LTS");
    assert_eq!(r.gpu_vendor, "none");
    assert_eq!(r.cpu_model, "Generic CPU");
    assert_eq!(r.cpu_threads, 8);
    assert_eq!(r.ram_gb, 16);
    assert_eq!(r.tier, "S");
    assert_eq!(r.tier_models.get("texte").unwrap(), "llama3.1:8b");
    assert_eq!(r.candidates.get("texte").unwrap()[0].model, "llama3.1:8b");
}

#[test]
fn detection_result_keeps_a_forced_known_tier() {
    let r = detect_result(distro(), no_gpu(), "c".to_string(), 4, 4, Some("L")).ok().unwrap();
    assert_eq!(r.tier, "L");
}

#[test]
fn detection_result_refuses_a_forced_unknown_tier() {
    let r = detect_result(distro(), no_gpu(), "c".to_string(), 4, 4, Some("XXL"));
    assert_eq!(r.err(), Some("no default models for tier XXL".to_string()));
}

#[test]
fn step_statuses_map_to_the_window_words() {
    assert_eq!(install_step_status(StepStatus::Running), "running");
    assert_eq!(install_step_status(StepStatus::Done), "done");
    assert_eq!(install_step_status(StepStatus::Failed), "failed");
    assert_eq!(install_step_status(StepStatus::NeedsConfirmation), "needs-confirmation");
    assert_eq!(install_step_status(StepStatus::RunningSilent), "running-silent");
}

#[test]
fn planned_steps_show_skipped_steps_up_front() {
    let steps = planned_install_steps(true, false);
    let ids: Vec<&str> = steps.iter().map(|s| s.id.as_str()).collect();
    assert_eq!(ids, vec!["ollama", "gpu", "webui-deps", "models", "webui"]);
    let statuses: Vec<&str> = steps.iter().map(|s| s.status.as_str()).collect();
    assert_eq!(statuses, vec!["pending", "pending", "pending", "skipped", "pending"]);
    let statuses: Vec<String> = planned_install_steps(false, true).into_iter().map(|s| s.status).collect();
    assert_eq!(statuses, vec!["pending", "pending", "skipped", "pending", "skipped"]);
}

fn event(status: StepStatus, error: Option<&str>, message: Option<&str>) -> StepEvent {
    StepEvent {
        id: "gpu".to_string(),
        label: "Configuring GPU".to_string(),
        status,
        error: error.map(|e| e.to_string()),
        confirmation: None,
        message: message.map(|m| m.to_string()),
    }
}

#[test]
fn a_step_report_updates_the_step_and_logs_its_error() {
    let (step, log) = step_update(&event(StepStatus::Failed, Some("pacman failed"), None));
    assert_eq!(step.id, "gpu");
    assert_eq!(step.status, "failed");
    assert_eq!(log, Some("Configuring GPU: pacman failed".to_string()));

    let (step, log) = step_update(&event(StepStatus::RunningSilent, None, Some("Downloading packages")));
    assert_eq!(step.status, "running-silent");
    assert_eq!(step.message, Some("Downloading packages".to_string()));
    assert_eq!(log, None);
}

fn question() -> ConfirmationRequest {
    ConfirmationRequest {
        prompt_title: "Nvidia driver".to_string(),
        prompt_message: "Install?".to_string(),
        action_description: "install packages: nvidia".to_string(),
    }
}

#[test]
fn confirmation_payload_copies_the_request() {
    let p = ConfirmationPayload::from(question());
    assert_eq!(p.prompt_title, "Nvidia driver");
    assert_eq!(p.prompt_message, "Install?");
    assert_eq!(p.action_description, "install packages: nvidia");
}

#[test]
fn a_phase_that_stopped_on_a_question_is_no_failure() {
    let mut watch = PhaseWatch::new();
    watch.observe(None);
    watch.observe(Some(&event(StepStatus::Running, None, None)));
    let mut asked = event(StepStatus::NeedsConfirmation, None, None);
    asked.confirmation = Some(question());
    watch.observe(Some(&asked));
    watch.observe(Some(&event(StepStatus::Done, None, None)));
    let r = watch.finish(Err("exit status 1".to_string()));
    assert_eq!(r, Ok(Some(ConfirmationPayload::from(question()))));
}

#[test]
fn a_phase_that_failed_without_a_question_is_a_failure() {
    let watch = PhaseWatch::new();
    assert_eq!(
        watch.finish(Err("exit status 1".to_string())),
        Err("Privileged install phase failed: exit status 1".to_string())
    );
}

#[test]
fn a_phase_that_succeeded_has_no_question() {
    let mut watch = PhaseWatch::new();
    let mut asked = event(StepStatus::NeedsConfirmation, None, None);
    asked.confirmation = Some(question());
    watch.observe(Some(&asked));
    assert_eq!(watch.finish(Ok(())), Ok(None));
}

#[test]
fn install_report_for_each_ending() {
    let (notice, reply) = install_report(Ok(InstallOutcome::Completed));
    match notice {
        InstallNotice::Done(d) => assert!(d.success && d.message == "Installation complete."),
        _ => panic!("expected done"),
    }
    assert!(reply.unwrap().success);

    let (notice, reply) = install_report(Ok(InstallOutcome::NeedsConfirmation(ConfirmationPayload::from(question()))));
    assert!(matches!(notice, InstallNotice::ConfirmationNeeded(_)));
    let d = reply.unwrap();
    assert!(!d.success);
    assert_eq!(d.message, "Waiting for confirmation.");

    let (notice, reply) = install_report(Err("Model download failed, see the log above.".to_string()));
    match notice {
        InstallNotice::Done(d) => assert!(!d.success && d.message == "Model download failed, see the log above."),
        _ => panic!("expected done"),
    }
    assert_eq!(reply, Err("Model download failed, see the log above.".to_string()));
}

#[test]
fn model_script_arguments() {
    assert_eq!(pull_models_args(None, &[]), vec!["--no-tui"]);
    let models = vec![("texte".to_string(), "llama3.1:8b".to_string()), ("code".to_string(), "qwen".to_string())];
    assert_eq!(
        pull_models_args(Some("S"), &models),
        vec!["--no-tui", "--tier=S", "--model-texte=llama3.1:8b", "--model-code=qwen"]
    );
}

#[test]
fn powershell_arguments_are_quoted_and_comma_separated() {
    let args = vec!["-File".to_string(), "C:\\it's here\\setup.ps1".to_string()];
    assert_eq!(powershell_arg_list(&args), "'-File','C:\\it''s here\\setup.ps1'");
    assert_eq!(powershell_arg_list(&[]), "");
}

#[test]
fn setup_script_arguments() {
    assert_eq!(
        setup_ps1_args("C:\\s\\setup.ps1", true, false, Some("M")),
        vec!["-NoProfile", "-ExecutionPolicy", "Bypass", "-File", "C:\\s\\setup.ps1", "-SkipModels", "-Tier", "M"]
    );
    assert_eq!(
        setup_ps1_args("x", false, true, None),
        vec!["-NoProfile", "-ExecutionPolicy", "Bypass", "-File", "x", "-SkipWebui"]
    );
}

#[test]
fn a_malformed_detect_line_is_a_parse_error() {
    let err = extract_detect_json("__DETECT__{oops\n").unwrap_err();
    assert!(err.starts_with("failed to parse detection output: "));
    assert!(err.len() > "failed to parse detection output: ".len());
}

#[test]
fn a_parse_outcome_keeps_the_value_or_prefixes_the_error() {
    let v = detect_parse_outcome(Ok(serde_json::Value::Bool(true))).unwrap();
    assert_eq!(v, serde_json::Value::Bool(true));
    assert_eq!(
        detect_parse_outcome(Err("expected value".to_string())),
        Err("failed to parse detection output: expected value".to_string())
    );
}

#[test]
fn user_steps_follow_the_skip_choices() {
    let all = user_script_steps(false, false);
    let ids: Vec<&str> = all.iter().map(|s| s.id).collect();
    assert_eq!(ids, vec!["models", "webui"]);
    assert_eq!(all[0].script, "03-pull-models.sh");
    assert_eq!(all[1].failure, "Open WebUI installation failed, see the log above.");
    assert_eq!(user_script_steps(true, false).iter().map(|s| s.id).collect::<Vec<_>>(), vec!["webui"]);
    assert_eq!(user_script_steps(false, true)[0].failure, "Model download failed, see the log above.");
    assert!(user_script_steps(true, true).is_empty());
}

#[test]
fn user_steps_get_their_arguments_and_failures() {
    let steps = user_script_steps(false, false);
    let models = vec![("code".to_string(), "qwen".to_string())];
    assert_eq!(
        selfllama::gui::user_script_args(&steps[0], Some("M"), &models),
        vec!["--no-tui", "--tier=M", "--model-code=qwen"]
    );
    assert!(selfllama::gui::user_script_args(&steps[1], Some("M"), &models).is_empty());
    assert_eq!(selfllama::gui::user_script_result(&steps[0], true), Ok(()));
    assert_eq!(
        selfllama::gui::user_script_result(&steps[1], false),
        Err("Open WebUI installation failed, see the log above.".to_string())
    );
}

#[test]
fn a_question_after_the_privileged_phase_stops_the_install() {
    assert!(selfllama::gui::after_privileged_phase(None).is_none());
    match selfllama::gui::after_privileged_phase(Some(ConfirmationPayload::from(question()))) {
        Some(InstallOutcome::NeedsConfirmation(p)) => assert_eq!(p.prompt_title, "Nvidia driver"),
        _ => panic!("expected a stop on the question"),
    }
}

#[test]
fn elevated_setup_command_text() {
    assert_eq!(
        selfllama::gui::elevated_setup_command("'-File','x'"),
        "Start-Process -FilePath powershell.exe -Verb RunAs -Wait -ArgumentList '-File','x'"
    );
}
