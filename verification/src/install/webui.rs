//! Open WebUI: its prerequisites, how it is installed, and its systemd user
//! unit with the environment file that holds the listen address.

use vstd::prelude::*;
use vstd::string::StringExecFns;
use super::DistroFamily;
use super::gpu::strs;
use crate::text::owned;

verus! {

/// Prerequisites: nothing when `pipx` is already there, else packages.
#[derive(Debug, Clone, PartialEq, Eq)]
pub enum DepsPlan {
    AlreadySatisfied,
    InstallPackages(Vec<&'static str>),
}

pub open spec fn webui_dep_packages_of(distro: DistroFamily) -> Seq<Seq<char>> {
    match distro {
        DistroFamily::Arch => seq!["python"@, "python-pip"@, "pipx"@],
        DistroFamily::Debian | DistroFamily::Fedora => seq!["python3"@, "python3-pip"@, "pipx"@],
        DistroFamily::OpenSuse => seq!["python3"@, "python3-pip"@, "python3-pipx"@],
        DistroFamily::Unknown => seq![],
    }
}

fn webui_dep_packages(distro: DistroFamily) -> (v: Vec<&'static str>)
    ensures
        strs(v@) == webui_dep_packages_of(distro),
{
    let v = match distro {
        DistroFamily::Arch => vec!["python", "python-pip", "pipx"],
        DistroFamily::Debian | DistroFamily::Fedora => vec!["python3", "python3-pip", "pipx"],
        DistroFamily::OpenSuse => vec!["python3", "python3-pip", "python3-pipx"],
        DistroFamily::Unknown => Vec::new(),
    };
    assert(strs(v@) =~= webui_dep_packages_of(distro));
    v
}

/// The prerequisites plan: nothing to do when `pipx` is on `PATH`,
/// otherwise Python, pip and pipx for this family.
pub fn deps_plan(distro: DistroFamily, pipx_on_path: bool) -> (p: DepsPlan)
    ensures
        pipx_on_path ==> p == DepsPlan::AlreadySatisfied,
        !pipx_on_path ==> (p matches DepsPlan::InstallPackages(v) && strs(v@) == webui_dep_packages_of(
            distro,
        )),
{
    if pipx_on_path {
        DepsPlan::AlreadySatisfied
    } else {
        DepsPlan::InstallPackages(webui_dep_packages(distro))
    }
}

/// Flags for the pip fallback.
#[derive(Debug, Clone, Copy, PartialEq, Eq, Structural)]
pub enum PipInstallFlags {
    /// `--break-system-packages` (Debian).
    BreakSystemPackages,
    /// `--user` (every other family).
    User,
}

/// How Open WebUI itself is installed.
#[derive(Debug, Clone, Copy, PartialEq, Eq, Structural)]
pub enum WebuiPackageInstall {
    Pipx,
    Pip(PipInstallFlags),
}

/// pipx when it is available; otherwise pip, with
/// `--break-system-packages` on Debian only and `--user` everywhere else.
pub fn package_install_plan(distro: DistroFamily, pipx_on_path: bool) -> (p: WebuiPackageInstall)
    ensures
        pipx_on_path ==> p == WebuiPackageInstall::Pipx,
        !pipx_on_path && distro == DistroFamily::Debian ==> p == WebuiPackageInstall::Pip(
            PipInstallFlags::BreakSystemPackages,
        ),
        !pipx_on_path && distro != DistroFamily::Debian ==> p == WebuiPackageInstall::Pip(
            PipInstallFlags::User,
        ),
{
    if pipx_on_path {
        WebuiPackageInstall::Pipx
    } else {
        let flags = match distro {
            DistroFamily::Debian => PipInstallFlags::BreakSystemPackages,
            _ => PipInstallFlags::User,
        };
        WebuiPackageInstall::Pip(flags)
    }
}

/// What a fresh environment file holds: Open WebUI listens on localhost only.
pub const WEBUI_ENV_DEFAULT_CONTENT: &'static str = "WEBUI_HOST=127.0.0.1\n";

pub const OLLAMA_BASE_URL: &'static str = "http://127.0.0.1:11434";

/// The environment file: written with the default content only when it
/// does not exist yet, so a later LAN choice survives a reinstall.
#[derive(Debug, Clone, PartialEq, Eq)]
pub struct WebuiEnvFilePlan {
    pub path: String,
    pub default_content: &'static str,
    pub only_if_missing: bool,
}

/// The environment file plan for the state directory `state_dir`.
pub fn webui_env_file_plan(state_dir: &str) -> (p: WebuiEnvFilePlan)
    ensures
        p.path@ == state_dir@ + "/webui.env"@,
        p.default_content@ == "WEBUI_HOST=127.0.0.1\n"@,
        p.only_if_missing,
{
    let mut path = owned(state_dir);
    path.append("/webui.env");
    WebuiEnvFilePlan { path, default_content: WEBUI_ENV_DEFAULT_CONTENT, only_if_missing: true }
}

/// The systemd user unit for Open WebUI. `webui_bin` and `env_file_path` are
/// written in; `${WEBUI_HOST}` is written literally, for systemd to fill in
/// from the environment file when the service starts.
pub open spec fn unit_content(webui_bin: Seq<char>, env_file_path: Seq<char>) -> Seq<char> {
    "[Unit]\nDescription=Open WebUI (local web interface for Ollama)\nAfter=network.target\n\n[Service]\nEnvironmentFile="@
        + env_file_path + "\nEnvironment=\"OLLAMA_BASE_URL="@ + "http://127.0.0.1:11434"@
        + "\"\nEnvironment=\"WEBUI_AUTH=False\"\nExecStart="@ + webui_bin
        + " serve --port 8080 --host ${WEBUI_HOST}\nRestart=on-failure\n\n[Install]\nWantedBy=default.target\n"@
}

/// Renders the systemd user unit for Open WebUI.
pub fn render_unit_content(webui_bin: &str, env_file_path: &str) -> (c: String)
    ensures
        c@ == unit_content(webui_bin@, env_file_path@),
{
    let mut c = owned(
        "[Unit]\nDescription=Open WebUI (local web interface for Ollama)\nAfter=network.target\n\n[Service]\nEnvironmentFile=",
    );
    c.append(env_file_path);
    c.append("\nEnvironment=\"OLLAMA_BASE_URL=");
    c.append(OLLAMA_BASE_URL);
    c.append("\"\nEnvironment=\"WEBUI_AUTH=False\"\nExecStart=");
    c.append(webui_bin);
    c.append(
        " serve --port 8080 --host ${WEBUI_HOST}\nRestart=on-failure\n\n[Install]\nWantedBy=default.target\n",
    );
    c
}

} // verus!
