//! The decisions of the GPU step: which vendor path to take, whether the
//! Nvidia driver install may go ahead or must first be confirmed by the
//! user, and which Ollama service override an AMD chip calls for. Running
//! the commands and writing the override file are the caller's business.

use vstd::prelude::*;
use vstd::string::StringExecFns;
use super::exec::{install_commands_ok, pkg_install_commands, pkg_views, CommandSpec};
use super::protocol::ConfirmationRequest;
use super::steps::StepRunError;
use crate::detect::gpu::{gfx_of, gfx_override_of, parse_amd_gfx};
use crate::install::gpu::{amd_plan, strs, writes, DistroAction, NvidiaPlan};
use crate::install::{vulkan_dropin, DistroFamily, OllamaServiceOverride};
use crate::text::{join_with, lines_of, lines_of_str, owned, str_equals, string_from, trim, trim_chars, views};
use crate::detect::gpu::string_views;

verus! {

/// How a distribution action is described to the user.
pub open spec fn action_text(a: DistroAction) -> Seq<char> {
    match a {
        DistroAction::InstallPackages(p) => if p@.len() == 0 {
            "no automatic install available for this distro - install a driver manually"@
        } else {
            "install packages: "@ + join_with(strs(p@), ", "@)
        },
        DistroAction::ManualStepRequired(m) => m@,
    }
}

/// The one-line description of `action` shown in a confirmation prompt.
pub fn describe_action(action: &DistroAction) -> (s: String)
    ensures
        s@ == action_text(*action),
{
    match action {
        DistroAction::InstallPackages(packages) => {
            if packages.len() == 0 {
                return owned("no automatic install available for this distro - install a driver manually");
            }
            let ghost ps = strs(packages@);
            let mut s = owned("install packages: ");
            let mut i: usize = 0;
            while i < packages.len()
                invariant
                    0 <= i <= packages.len(),
                    packages.len() > 0,
                    ps == strs(packages@),
                    i == 0 ==> s@ == "install packages: "@,
                    i > 0 ==> s@ == "install packages: "@ + join_with(ps.take(i as int), ", "@),
                decreases packages.len() - i,
            {
                let ghost before = s@;
                if i > 0 {
                    s.append(", ");
                }
                s.append(packages[i]);
                proof {
                    let t = ps.take(i as int + 1);
                    assert(t.last() == packages@[i as int]@);
                    assert(t.drop_last() =~= ps.take(i as int));
                    if i == 0 {
                        assert(join_with(t, ", "@) == t[0]);
                    } else {
                        assert(join_with(t, ", "@) == join_with(ps.take(i as int), ", "@) + ", "@ + t.last());
                    }
                }
                i += 1;
            }
            assert(ps.take(packages.len() as int) =~= ps);
            s
        },
        DistroAction::ManualStepRequired(message) => owned(message),
    }
}

/// The vendor paths of the GPU step.
#[derive(Debug, Clone, Copy, PartialEq, Eq, Structural)]
pub enum GpuVendor {
    Nvidia,
    Amd,
    Intel,
    Other,
}

pub open spec fn vendor_of(v: Seq<char>) -> GpuVendor {
    if v == "nvidia"@ {
        GpuVendor::Nvidia
    } else if v == "amd"@ {
        GpuVendor::Amd
    } else if v == "intel"@ {
        GpuVendor::Intel
    } else {
        GpuVendor::Other
    }
}

/// Which vendor path a detected vendor name takes; any other name (`none`
/// included) means Ollama runs on the CPU.
pub fn gpu_vendor_of(vendor: &str) -> (v: GpuVendor)
    ensures
        v == vendor_of(vendor@),
{
    if str_equals(vendor, "nvidia") {
        GpuVendor::Nvidia
    } else if str_equals(vendor, "amd") {
        GpuVendor::Amd
    } else if str_equals(vendor, "intel") {
        GpuVendor::Intel
    } else {
        GpuVendor::Other
    }
}

/// The GPU name `nvidia-smi --query-gpu=name --format=csv,noheader` printed:
/// its first line, trimmed; empty when it printed nothing.
pub open spec fn driver_name_of(output: Seq<char>) -> Seq<char> {
    if lines_of(output).len() > 0 {
        trim(lines_of(output)[0])
    } else {
        seq![]
    }
}

pub fn nvidia_driver_name(output: &str) -> (name: String)
    ensures
        name@ == driver_name_of(output@),
{
    let ls = lines_of_str(output);
    if ls.len() > 0 {
        assert(views(ls@)[0] == ls@[0]@);
        let t = trim_chars(&ls[0]);
        string_from(&t)
    } else {
        String::new()
    }
}

/// Where `rocminfo` is run from: found on `PATH`, else the ROCm install
/// under the `/opt` directory, else the first versioned ROCm install there
/// (in sorted order); none when there is no such executable.
pub open spec fn rocminfo_path_of(
    path_lookup: Option<Seq<char>>,
    opt_bin: Option<Seq<char>>,
    versioned: Seq<Seq<char>>,
) -> Option<Seq<char>> {
    match path_lookup {
        Some(p) => Some(p),
        None => match opt_bin {
            Some(o) => Some(o),
            None => if versioned.len() > 0 {
                Some(versioned[0])
            } else {
                None
            },
        },
    }
}

pub open spec fn opt_str(o: Option<&str>) -> Option<Seq<char>> {
    match o {
        Some(s) => Some(s@),
        None => None,
    }
}

/// `path_lookup` is what a `PATH` search found, `opt_bin` the plain ROCm
/// install's `rocminfo` when it is executable, `versioned` the executable
/// `rocminfo` of each versioned install, sorted.
pub fn resolve_rocminfo_path(path_lookup: Option<&str>, opt_bin: Option<&str>, versioned: &[String]) -> (r:
    Option<String>)
    ensures
        r matches Some(p) ==> rocminfo_path_of(opt_str(path_lookup), opt_str(opt_bin), string_views(versioned@))
            == Some(p@),
        r is None ==> rocminfo_path_of(opt_str(path_lookup), opt_str(opt_bin), string_views(versioned@)) is None,
{
    match path_lookup {
        Some(p) => Some(owned(p)),
        None => match opt_bin {
            Some(o) => Some(owned(o)),
            None => {
                if versioned.len() > 0 {
                    assert(string_views(versioned@)[0] == versioned@[0]@);
                    Some(versioned[0].clone())
                } else {
                    None
                }
            },
        },
    }
}

/// What a confirmed Nvidia driver install does.
pub enum NvidiaInstall {
    /// The driver is already there: nothing to install.
    Nothing,
    /// Run these commands.
    Commands(Vec<CommandSpec>),
    /// Only show this message: the family has no automatic install.
    Manual(&'static str),
}

/// The work of the Nvidia path once no confirmation is missing.
pub struct NvidiaSteps {
    pub install: NvidiaInstall,
    /// Tell the user to reboot and run the installer again.
    pub reboot_notice: bool,
    pub override_action: OllamaServiceOverride,
}

/// The Nvidia path: with the driver present, nothing to install; with the
/// driver missing and no confirmation given, the step stops with the
/// question for the user; once confirmed, the family's install action.
pub fn nvidia_steps(distro: DistroFamily, plan: NvidiaPlan, confirmed: bool) -> (r: Result<
    NvidiaSteps,
    StepRunError,
>)
    ensures
        plan.confirmation is None ==> (r matches Ok(s) && s.install is Nothing && !s.reboot_notice
            && s.override_action == plan.override_action),
        plan.confirmation matches Some(c) ==> (!confirmed ==> (r matches Err(
            StepRunError::NeedsConfirmation(q),
        ) && q.prompt_title@ == c.prompt_title@ && q.prompt_message@ == c.prompt_message@
            && q.action_description@ == action_text(c.action))),
        plan.confirmation matches Some(c) ==> (confirmed ==> (r matches Ok(s) && s.reboot_notice
            == c.reboot_required_after_install && s.override_action == plan.override_action
            && match c.action {
            DistroAction::InstallPackages(p) => s.install matches NvidiaInstall::Commands(cs)
                && install_commands_ok(distro, pkg_views(p@), cs@),
            DistroAction::ManualStepRequired(m) => s.install matches NvidiaInstall::Manual(shown)
                && shown == m,
        })),
{
    match plan.confirmation {
        None => Ok(
            NvidiaSteps {
                install: NvidiaInstall::Nothing,
                reboot_notice: false,
                override_action: plan.override_action,
            },
        ),
        Some(c) => {
            if !confirmed {
                let action_description = describe_action(&c.action);
                return Err(
                    StepRunError::NeedsConfirmation(
                        ConfirmationRequest {
                            prompt_title: owned(c.prompt_title),
                            prompt_message: owned(c.prompt_message),
                            action_description,
                        },
                    ),
                );
            }
            let install = match c.action {
                DistroAction::InstallPackages(packages) => NvidiaInstall::Commands(
                    pkg_install_commands(distro, packages.as_slice()),
                ),
                DistroAction::ManualStepRequired(message) => NvidiaInstall::Manual(message),
            };
            Ok(
                NvidiaSteps {
                    install,
                    reboot_notice: c.reboot_required_after_install,
                    override_action: plan.override_action,
                },
            )
        },
    }
}

/// The override an AMD chip with GFX code `gfx` calls for.
pub open spec fn amd_override_for(gfx: Option<Seq<char>>, o: OllamaServiceOverride) -> bool {
    match gfx {
        None => writes(o, vulkan_dropin(seq![])),
        Some(g) => match gfx_override_of(g) {
            Some(v) => writes(o, vulkan_dropin(seq![("HSA_OVERRIDE_GFX_VERSION"@, v)])),
            None => o == OllamaServiceOverride::Clear,
        },
    }
}

/// The AMD override from what `rocminfo` printed, `None` where it could not
/// be run: the GFX code is read from its output, and a missing or
/// unrecognised code falls back to plain Vulkan.
pub fn amd_override_from_rocminfo(distro: DistroFamily, rocminfo_output: Option<&str>) -> (o:
    OllamaServiceOverride)
    ensures
        amd_override_for(
            match rocminfo_output {
                Some(out) => gfx_of(out@),
                None => None,
            },
            o,
        ),
{
    let gfx = match rocminfo_output {
        Some(out) => parse_amd_gfx(out),
        None => None,
    };
    let plan = match &gfx {
        Some(g) => amd_plan(distro, Some(g.as_str())),
        None => amd_plan(distro, None),
    };
    plan.override_action
}

} // verus!
