//! Installing Ollama with its official script and getting its service up.

use vstd::prelude::*;
use std::time::Duration;

verus! {

/// The command that installs Ollama where it is missing; the same on every
/// distribution.
pub const OFFICIAL_INSTALL_COMMAND: &'static str = "curl -fsSL https://ollama.com/install.sh | sh";

/// How long to wait for the service: poll `url` up to `max_attempts` times,
/// `interval` apart.
#[derive(Debug, PartialEq)]
pub struct ReadinessCheck {
    pub url: &'static str,
    pub max_attempts: u32,
    pub interval: Duration,
}

/// What to do about the Ollama service once it is installed.
#[derive(Debug, Clone, PartialEq)]
pub enum ServiceStartPlan {
    SystemdEnableNow { unit: &'static str },
    ManualStartRequired { hint: &'static str },
}

#[derive(Debug, PartialEq)]
pub struct OllamaInstallPlan {
    /// The install command, only when `ollama` is not on `PATH` yet.
    pub install_command: Option<&'static str>,
    pub service: ServiceStartPlan,
    pub readiness_check: ReadinessCheck,
}

/// What `Duration::from_secs` returns for a number of seconds.
pub uninterp spec fn duration_from_secs(secs: u64) -> Duration;

/// `Duration::from_secs`: claimed to return the duration named by
/// `duration_from_secs` for `secs`; nothing is said of its fields.
#[verifier::external_body]
fn seconds(secs: u64) -> (d: Duration)
    ensures
        d == duration_from_secs(secs),
{
    Duration::from_secs(secs)
}

/// The plan for installing and starting Ollama. Re-running it on a machine
/// where `ollama` is already on `PATH` never queues a second install.
pub fn ollama_install_plan(ollama_on_path: bool, systemd_available: bool) -> (p: OllamaInstallPlan)
    ensures
        ollama_on_path ==> p.install_command is None,
        !ollama_on_path ==> (p.install_command matches Some(c) && c@
            == "curl -fsSL https://ollama.com/install.sh | sh"@),
        systemd_available ==> (p.service matches ServiceStartPlan::SystemdEnableNow { unit } && unit@
            == "ollama"@),
        !systemd_available ==> (p.service matches ServiceStartPlan::ManualStartRequired { hint }
            && hint@ == "ollama serve"@),
        p.readiness_check.url@ == "http://127.0.0.1:11434"@,
        p.readiness_check.max_attempts == 30,
        p.readiness_check.interval == duration_from_secs(1),
{
    OllamaInstallPlan {
        install_command: if ollama_on_path {
            None
        } else {
            Some(OFFICIAL_INSTALL_COMMAND)
        },
        service: if systemd_available {
            ServiceStartPlan::SystemdEnableNow { unit: "ollama" }
        } else {
            ServiceStartPlan::ManualStartRequired { hint: "ollama serve" }
        },
        readiness_check: ReadinessCheck {
            url: "http://127.0.0.1:11434",
            max_attempts: 30,
            interval: seconds(1),
        },
    }
}

} // verus!
