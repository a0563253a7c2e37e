use selfllama::install::gpu::{amd_plan, intel_plan, none_plan, nvidia_plan, DistroAction, RocmGfxResolution};
use selfllama::install::ollama::{ollama_install_plan, ReadinessCheck, ServiceStartPlan, OFFICIAL_INSTALL_COMMAND};
use selfllama::install::tier::{candidates, compute_tier, default_models, USAGES};
use selfllama::install::webui::{
    deps_plan, package_install_plan, render_unit_content, webui_env_file_plan, DepsPlan, PipInstallFlags,
    WebuiPackageInstall,
};
use selfllama::install::{render_ollama_vulkan_dropin, DistroFamily, OllamaServiceOverride, OLLAMA_SERVICE_OVERRIDE_PATH};
use std::time::Duration;

#[test]
fn distro_family_parses_the_four_known_families() {
    assert_eq!(DistroFamily::from("arch"), DistroFamily::Arch);
    assert_eq!(DistroFamily::from("debian"), DistroFamily::Debian);
    assert_eq!(DistroFamily::from("fedora"), DistroFamily::Fedora);
    assert_eq!(DistroFamily::from("opensuse"), DistroFamily::OpenSuse);
}

#[test]
fn distro_family_falls_back_to_unknown() {
    assert_eq!(DistroFamily::from("unknown"), DistroFamily::Unknown);
    assert_eq!(DistroFamily::from("nixos"), DistroFamily::Unknown);
}

#[test]
fn distro_family_match_is_exact() {
    assert_eq!(DistroFamily::from("Arch"), DistroFamily::Unknown);
    assert_eq!(DistroFamily::from("archlinux"), DistroFamily::Unknown);
}

#[test]
fn dropin_with_no_extra_vars_is_just_the_vulkan_flag() {
    assert_eq!(render_ollama_vulkan_dropin(&[]), "[Service]\nEnvironment=\"OLLAMA_VULKAN=1\"\n");
}

#[test]
fn dropin_appends_extra_vars_in_order() {
    assert_eq!(
        render_ollama_vulkan_dropin(&[("HSA_OVERRIDE_GFX_VERSION", "11.5.0")]),
        "[Service]\nEnvironment=\"OLLAMA_VULKAN=1\"\nEnvironment=\"HSA_OVERRIDE_GFX_VERSION=11.5.0\"\n"
    );
}

#[test]
fn dropin_keeps_several_extra_vars_in_the_given_order() {
    assert_eq!(
        render_ollama_vulkan_dropin(&[("A", "1"), ("B", "2")]),
        "[Service]\nEnvironment=\"OLLAMA_VULKAN=1\"\nEnvironment=\"A=1\"\nEnvironment=\"B=2\"\n"
    );
}

#[test]
fn override_path_is_the_ollama_drop_in() {
    assert_eq!(OLLAMA_SERVICE_OVERRIDE_PATH, "/etc/systemd/system/ollama.service.d/override.conf");
}

#[test]
fn nvidia_with_driver_present_needs_no_confirmation() {
    let plan = nvidia_plan(DistroFamily::Arch, true, Some("NVIDIA GeForce RTX 3070".to_string()));
    assert_eq!(plan.driver_already_present, Some("NVIDIA GeForce RTX 3070".to_string()));
    assert_eq!(plan.confirmation, None);
    assert_eq!(plan.override_action, OllamaServiceOverride::Clear);
}

#[test]
fn nvidia_without_driver_requires_confirmation_with_the_scripts_exact_prompt() {
    let plan = nvidia_plan(DistroFamily::Arch, false, None);
    let confirmation = plan.confirmation.expect("missing driver must require confirmation");
    assert_eq!(confirmation.prompt_title, "Nvidia driver");
    assert_eq!(confirmation.prompt_message, "Install the Nvidia driver now? (requires a reboot afterwards)");
    assert_eq!(confirmation.action, DistroAction::InstallPackages(vec!["nvidia", "nvidia-utils"]));
    assert!(confirmation.reboot_required_after_install);
}

#[test]
fn nvidia_confirmation_packages_are_distro_specific() {
    assert_eq!(
        nvidia_plan(DistroFamily::Debian, false, None).confirmation.unwrap().action,
        DistroAction::InstallPackages(vec!["nvidia-driver"])
    );
    assert_eq!(
        nvidia_plan(DistroFamily::Fedora, false, None).confirmation.unwrap().action,
        DistroAction::InstallPackages(vec!["akmod-nvidia"])
    );
}

#[test]
fn nvidia_on_opensuse_is_a_manual_step_not_a_package_list() {
    let action = nvidia_plan(DistroFamily::OpenSuse, false, None).confirmation.unwrap().action;
    assert_eq!(
        action,
        DistroAction::ManualStepRequired(
            "On openSUSE, add the official NVIDIA repository then install x11-video-nvidiaG06."
        )
    );
}

#[test]
fn nvidia_always_clears_the_override_driver_or_not() {
    assert_eq!(nvidia_plan(DistroFamily::Arch, true, None).override_action, OllamaServiceOverride::Clear);
    assert_eq!(nvidia_plan(DistroFamily::Arch, false, None).override_action, OllamaServiceOverride::Clear);
}

#[test]
fn nvidia_driver_name_is_dropped_when_the_driver_is_absent() {
    let plan = nvidia_plan(DistroFamily::Unknown, false, Some("ignored".to_string()));
    assert_eq!(plan.driver_already_present, None);
    assert_eq!(plan.confirmation.unwrap().action, DistroAction::InstallPackages(vec![]));
}

#[test]
fn amd_no_gfx_detected_enables_plain_vulkan_without_a_workaround() {
    let plan = amd_plan(DistroFamily::Arch, None);
    assert_eq!(plan.resolution, RocmGfxResolution::NoGfxDetected);
    assert_eq!(
        plan.override_action,
        OllamaServiceOverride::Write("[Service]\nEnvironment=\"OLLAMA_VULKAN=1\"\n".to_string())
    );
}

#[test]
fn amd_unsupported_gfx1201_needs_the_hsa_override() {
    let plan = amd_plan(DistroFamily::Arch, Some("gfx1201"));
    assert_eq!(
        plan.resolution,
        RocmGfxResolution::NeedsOverride { gfx: "gfx1201".to_string(), hsa_override_gfx_version: "11.5.0" }
    );
    assert_eq!(
        plan.override_action,
        OllamaServiceOverride::Write(
            "[Service]\nEnvironment=\"OLLAMA_VULKAN=1\"\nEnvironment=\"HSA_OVERRIDE_GFX_VERSION=11.5.0\"\n"
                .to_string()
        )
    );
}

#[test]
fn amd_officially_supported_gfx_clears_the_override_default_hip() {
    let plan = amd_plan(DistroFamily::Arch, Some("gfx1030"));
    assert_eq!(plan.resolution, RocmGfxResolution::OfficiallySupported { gfx: "gfx1030".to_string() });
    assert_eq!(plan.override_action, OllamaServiceOverride::Clear);
}

#[test]
fn amd_packages_are_distro_specific_arch_gets_a_bigger_list() {
    assert_eq!(
        amd_plan(DistroFamily::Arch, None).packages,
        vec!["vulkan-radeon", "vulkan-icd-loader", "vulkan-tools", "rocminfo"]
    );
    assert_eq!(amd_plan(DistroFamily::OpenSuse, None).packages, vec!["vulkan-tools", "rocminfo"]);
}

#[test]
fn amd_packages_do_not_depend_on_the_gfx_code() {
    for distro in [DistroFamily::Arch, DistroFamily::Debian, DistroFamily::Fedora, DistroFamily::OpenSuse, DistroFamily::Unknown] {
        assert_eq!(amd_plan(distro, None).packages, amd_plan(distro, Some("gfx1201")).packages);
        assert_eq!(amd_plan(distro, None).packages, amd_plan(distro, Some("gfx1030")).packages);
    }
}

#[test]
fn intel_always_sets_both_vulkan_and_igpu_enable_uniformly() {
    let plan = intel_plan(DistroFamily::Arch);
    assert_eq!(
        plan.override_action,
        OllamaServiceOverride::Write(
            "[Service]\nEnvironment=\"OLLAMA_VULKAN=1\"\nEnvironment=\"OLLAMA_IGPU_ENABLE=1\"\n".to_string()
        )
    );
}

#[test]
fn intel_packages_are_distro_specific() {
    assert_eq!(intel_plan(DistroFamily::Arch).packages, vec!["vulkan-intel", "vulkan-icd-loader", "vulkan-tools"]);
    assert_eq!(intel_plan(DistroFamily::OpenSuse).packages, vec!["vulkan-tools"]);
}

#[test]
fn no_gpu_just_clears_any_leftover_override() {
    assert_eq!(none_plan(), OllamaServiceOverride::Clear);
}

#[test]
fn already_installed_skips_the_install_command() {
    let plan = ollama_install_plan(true, true);
    assert_eq!(plan.install_command, None);
}

#[test]
fn missing_queues_the_official_install_script_verbatim() {
    let plan = ollama_install_plan(false, true);
    assert_eq!(plan.install_command, Some("curl -fsSL https://ollama.com/install.sh | sh"));
    assert_eq!(plan.install_command, Some(OFFICIAL_INSTALL_COMMAND));
}

#[test]
fn systemd_present_enables_and_starts_the_unit() {
    let plan = ollama_install_plan(false, true);
    assert_eq!(plan.service, ServiceStartPlan::SystemdEnableNow { unit: "ollama" });
}

#[test]
fn no_systemd_falls_back_to_a_manual_start_hint_not_a_crash() {
    let plan = ollama_install_plan(false, false);
    assert_eq!(plan.service, ServiceStartPlan::ManualStartRequired { hint: "ollama serve" });
}

#[test]
fn readiness_check_matches_the_scripts_30_attempts_1s_apart() {
    let plan = ollama_install_plan(true, true);
    assert_eq!(
        plan.readiness_check,
        ReadinessCheck { url: "http://127.0.0.1:11434", max_attempts: 30, interval: Duration::from_secs(1) }
    );
}

#[test]
fn ram_thresholds_match_the_bash_script_exactly() {
    assert_eq!(compute_tier(8, "nvidia", None), "XS");
    assert_eq!(compute_tier(9, "nvidia", None), "S");
    assert_eq!(compute_tier(16, "nvidia", None), "S");
    assert_eq!(compute_tier(17, "nvidia", None), "M");
    assert_eq!(compute_tier(32, "nvidia", None), "M");
    assert_eq!(compute_tier(33, "nvidia", None), "L");
}

#[test]
fn cpu_only_downgrades_m_and_l_to_s_but_leaves_xs_alone() {
    assert_eq!(compute_tier(20, "none", None), "S");
    assert_eq!(compute_tier(64, "none", None), "S");
    assert_eq!(compute_tier(8, "none", None), "XS");
}

#[test]
fn a_dedicated_gpu_never_triggers_the_downgrade() {
    assert_eq!(compute_tier(20, "amd", None), "M");
    assert_eq!(compute_tier(64, "intel", None), "L");
}

#[test]
fn a_forced_tier_bypasses_ram_and_the_downgrade_rule_entirely() {
    assert_eq!(compute_tier(64, "none", Some("L")), "L");
}

#[test]
fn a_forced_tier_is_returned_verbatim_even_if_unknown() {
    assert_eq!(compute_tier(0, "none", Some("XL")), "XL");
}

#[test]
fn default_models_xs_matches_the_bash_table() {
    let models = default_models("XS").unwrap();
    assert_eq!(models.get("texte").unwrap(), "llama3.2:3b");
    assert_eq!(models.get("code").unwrap(), "qwen2.5-coder:3b");
    assert_eq!(models.get("reflexion").unwrap(), "deepseek-r1:1.5b");
    assert_eq!(models.get("embeddings").unwrap(), "nomic-embed-text");
}

#[test]
fn default_models_covers_every_tier_with_all_four_usages() {
    for tier in ["XS", "S", "M", "L"] {
        let models = default_models(tier).unwrap();
        assert_eq!(models.len(), 4);
        for usage in USAGES {
            assert!(models.contains_key(usage), "tier {tier} missing usage {usage}");
        }
    }
}

#[test]
fn unknown_tier_yields_no_default_models() {
    assert_eq!(default_models("XL"), None);
}

#[test]
fn every_candidate_lists_first_entry_matching_the_default_model() {
    for tier in ["XS", "S", "M", "L"] {
        let defaults = default_models(tier).unwrap();
        let cands = candidates(tier).unwrap();
        for usage in USAGES {
            let first = &cands.get(usage).unwrap()[0].model;
            assert_eq!(first, defaults.get(usage).unwrap(), "tier {tier} usage {usage}");
        }
    }
}

#[test]
fn unknown_tier_yields_no_candidates() {
    assert_eq!(candidates("XL"), None);
}

#[test]
fn m_tier_code_candidates_are_devstral_then_qwen_coder() {
    let cands = candidates("M").unwrap();
    let code = cands.get("code").unwrap();
    assert_eq!(code.len(), 2);
    assert_eq!(code[0].model, "devstral:24b");
    assert_eq!(code[1].model, "qwen2.5-coder:14b");
    assert_eq!(code[1].desc, "Lighter alternative");
    assert_eq!(cands.get("texte").unwrap().len(), 3);
    assert_eq!(cands.len(), 4);
}

#[test]
fn pipx_already_present_needs_no_package_install() {
    assert_eq!(deps_plan(DistroFamily::Arch, true), DepsPlan::AlreadySatisfied);
}

#[test]
fn pipx_missing_installs_the_distro_specific_packages() {
    assert_eq!(deps_plan(DistroFamily::Debian, false), DepsPlan::InstallPackages(vec!["python3", "python3-pip", "pipx"]));
    assert_eq!(
        deps_plan(DistroFamily::OpenSuse, false),
        DepsPlan::InstallPackages(vec!["python3", "python3-pip", "python3-pipx"])
    );
}

#[test]
fn pipx_present_uses_pipx_not_pip() {
    assert_eq!(package_install_plan(DistroFamily::Debian, true), WebuiPackageInstall::Pipx);
}

#[test]
fn pip_fallback_on_debian_uses_break_system_packages() {
    assert_eq!(
        package_install_plan(DistroFamily::Debian, false),
        WebuiPackageInstall::Pip(PipInstallFlags::BreakSystemPackages)
    );
}

#[test]
fn pip_fallback_on_arch_fedora_opensuse_uses_user_not_break_system_packages() {
    for distro in [DistroFamily::Arch, DistroFamily::Fedora, DistroFamily::OpenSuse, DistroFamily::Unknown] {
        assert_eq!(
            package_install_plan(distro, false),
            WebuiPackageInstall::Pip(PipInstallFlags::User),
            "{distro:?} should use --user, not --break-system-packages"
        );
    }
}

#[test]
fn env_file_plan_defaults_to_localhost_only_and_never_overwrites() {
    let plan = webui_env_file_plan("/home/user/.config/selfllama");
    assert_eq!(plan.path, "/home/user/.config/selfllama/webui.env");
    assert_eq!(plan.default_content, "WEBUI_HOST=127.0.0.1\n");
    assert!(plan.only_if_missing, "must never reset an existing LAN-access choice");
}

#[test]
fn unit_content_keeps_webui_host_as_a_literal_placeholder_for_systemd() {
    let content = render_unit_content("/home/user/.local/bin/open-webui", "/home/user/.config/selfllama/webui.env");

    assert!(content.contains("--host ${WEBUI_HOST}"), "got:\n{content}");
    assert!(content.contains("EnvironmentFile=/home/user/.config/selfllama/webui.env"));
    assert!(content.contains("Environment=\"OLLAMA_BASE_URL=http://127.0.0.1:11434\""));
    assert!(content.contains("Environment=\"WEBUI_AUTH=False\""));
    assert!(content.contains("ExecStart=/home/user/.local/bin/open-webui serve --port 8080 --host ${WEBUI_HOST}"));
    assert!(content.contains("Restart=on-failure"));
    assert!(content.contains("[Install]\nWantedBy=default.target"));
}

#[test]
fn unit_content_substitutes_webui_bin_and_env_file_path_for_real() {
    let content = render_unit_content("/opt/pipx/venvs/open-webui/bin/open-webui", "/custom/state/webui.env");
    assert!(content.contains("EnvironmentFile=/custom/state/webui.env"));
    assert!(content.contains("ExecStart=/opt/pipx/venvs/open-webui/bin/open-webui serve"));
}

#[test]
fn unit_content_is_byte_exact() {
    assert_eq!(
        render_unit_content("B", "E"),
        "[Unit]\nDescription=Open WebUI (local web interface for Ollama)\nAfter=network.target\n\n[Service]\nEnvironmentFile=E\nEnvironment=\"OLLAMA_BASE_URL=http://127.0.0.1:11434\"\nEnvironment=\"WEBUI_AUTH=False\"\nExecStart=B serve --port 8080 --host ${WEBUI_HOST}\nRestart=on-failure\n\n[Install]\nWantedBy=default.target\n"
    );
}
