//! Driver and configuration plans for each GPU vendor.

use vstd::prelude::*;
use super::{render_ollama_vulkan_dropin, vulkan_dropin, DistroFamily, OllamaServiceOverride};
use crate::detect::gpu::{amd_gfx_override, gfx_override_of};
use crate::text::owned;

verus! {

pub open spec fn strs(v: Seq<&'static str>) -> Seq<Seq<char>> {
    v.map_values(|s: &'static str| s@)
}

/// A distribution-specific action: packages to install, or a manual step
/// that can only be described.
#[derive(Debug, Clone, PartialEq, Eq)]
pub enum DistroAction {
    InstallPackages(Vec<&'static str>),
    ManualStepRequired(&'static str),
}

pub open spec fn installs(a: DistroAction, ps: Seq<Seq<char>>) -> bool {
    a matches DistroAction::InstallPackages(p) && strs(p@) == ps
}

pub open spec fn asks_manual_step(a: DistroAction, msg: Seq<char>) -> bool {
    a matches DistroAction::ManualStepRequired(m) && m@ == msg
}

// ---------------------------------------------------------------------------
// Nvidia
// ---------------------------------------------------------------------------

/// The question asked before a proprietary driver is installed, carried as
/// data: a plan cannot wait for an answer itself.
#[derive(Debug, Clone, PartialEq, Eq)]
pub struct NvidiaDriverConfirmation {
    pub prompt_title: &'static str,
    pub prompt_message: &'static str,
    pub action: DistroAction,
    pub reboot_required_after_install: bool,
}

#[derive(Debug, Clone, PartialEq, Eq)]
pub struct NvidiaPlan {
    /// The driver's GPU name when the driver is already installed.
    pub driver_already_present: Option<String>,
    /// The question to ask when the driver is missing.
    pub confirmation: Option<NvidiaDriverConfirmation>,
    /// Always `Clear`: CUDA needs no Vulkan override.
    pub override_action: OllamaServiceOverride,
}

/// What installing the Nvidia driver means on each family.
pub open spec fn nvidia_action_for(distro: DistroFamily, a: DistroAction) -> bool {
    match distro {
        DistroFamily::Arch => installs(a, seq!["nvidia"@, "nvidia-utils"@]),
        DistroFamily::Debian => installs(a, seq!["nvidia-driver"@]),
        DistroFamily::Fedora => installs(a, seq!["akmod-nvidia"@]),
        DistroFamily::OpenSuse => asks_manual_step(
            a,
            "On openSUSE, add the official NVIDIA repository then install x11-video-nvidiaG06."@,
        ),
        DistroFamily::Unknown => installs(a, seq![]),
    }
}

fn nvidia_action(distro: DistroFamily) -> (a: DistroAction)
    ensures
        nvidia_action_for(distro, a),
{
    match distro {
        DistroFamily::Arch => {
            let v = vec!["nvidia", "nvidia-utils"];
            assert(strs(v@) =~= seq!["nvidia"@, "nvidia-utils"@]);
            DistroAction::InstallPackages(v)
        },
        DistroFamily::Debian => {
            let v = vec!["nvidia-driver"];
            assert(strs(v@) =~= seq!["nvidia-driver"@]);
            DistroAction::InstallPackages(v)
        },
        DistroFamily::Fedora => {
            let v = vec!["akmod-nvidia"];
            assert(strs(v@) =~= seq!["akmod-nvidia"@]);
            DistroAction::InstallPackages(v)
        },
        DistroFamily::OpenSuse => DistroAction::ManualStepRequired(
            "On openSUSE, add the official NVIDIA repository then install x11-video-nvidiaG06.",
        ),
        DistroFamily::Unknown => {
            let v: Vec<&'static str> = Vec::new();
            assert(strs(v@) =~= seq![]);
            DistroAction::InstallPackages(v)
        },
    }
}

/// The Nvidia plan: nothing to confirm when the driver is present (its name
/// is kept), otherwise the install question for this family; in both cases
/// any leftover Vulkan override is cleared.
pub fn nvidia_plan(distro: DistroFamily, driver_present: bool, driver_name: Option<String>) -> (p: NvidiaPlan)
    ensures
        p.override_action == OllamaServiceOverride::Clear,
        driver_present ==> p.driver_already_present == driver_name && p.confirmation is None,
        !driver_present ==> p.driver_already_present is None && (p.confirmation matches Some(c) && {
            &&& c.prompt_title@ == "Nvidia driver"@
            &&& c.prompt_message@ == "Install the Nvidia driver now? (requires a reboot afterwards)"@
            &&& c.reboot_required_after_install
            &&& nvidia_action_for(distro, c.action)
        }),
{
    let confirmation = if driver_present {
        None
    } else {
        Some(
            NvidiaDriverConfirmation {
                prompt_title: "Nvidia driver",
                prompt_message: "Install the Nvidia driver now? (requires a reboot afterwards)",
                action: nvidia_action(distro),
                reboot_required_after_install: true,
            },
        )
    };
    NvidiaPlan {
        driver_already_present: if driver_present {
            driver_name
        } else {
            None
        },
        confirmation,
        override_action: OllamaServiceOverride::Clear,
    }
}

// ---------------------------------------------------------------------------
// AMD
// ---------------------------------------------------------------------------

pub open spec fn amd_packages_of(distro: DistroFamily) -> Seq<Seq<char>> {
    match distro {
        DistroFamily::Arch => seq!["vulkan-radeon"@, "vulkan-icd-loader"@, "vulkan-tools"@, "rocminfo"@],
        DistroFamily::Debian | DistroFamily::Fedora => seq!["mesa-vulkan-drivers"@, "vulkan-tools"@, "rocminfo"@],
        DistroFamily::OpenSuse => seq!["vulkan-tools"@, "rocminfo"@],
        DistroFamily::Unknown => seq![],
    }
}

fn amd_packages(distro: DistroFamily) -> (v: Vec<&'static str>)
    ensures
        strs(v@) == amd_packages_of(distro),
{
    let v = match distro {
        DistroFamily::Arch => vec!["vulkan-radeon", "vulkan-icd-loader", "vulkan-tools", "rocminfo"],
        DistroFamily::Debian | DistroFamily::Fedora => vec!["mesa-vulkan-drivers", "vulkan-tools", "rocminfo"],
        DistroFamily::OpenSuse => vec!["vulkan-tools", "rocminfo"],
        DistroFamily::Unknown => Vec::new(),
    };
    assert(strs(v@) =~= amd_packages_of(distro));
    v
}

/// What the GFX code decides: no code (plain Vulkan), a code that needs the
/// HSA override, or a code ROCm supports officially.
#[derive(Debug, Clone, PartialEq, Eq)]
pub enum RocmGfxResolution {
    NoGfxDetected,
    NeedsOverride { gfx: String, hsa_override_gfx_version: &'static str },
    OfficiallySupported { gfx: String },
}

#[derive(Debug, Clone, PartialEq, Eq)]
pub struct AmdPlan {
    pub packages: Vec<&'static str>,
    pub resolution: RocmGfxResolution,
    pub override_action: OllamaServiceOverride,
}

pub open spec fn writes(o: OllamaServiceOverride, content: Seq<char>) -> bool {
    o matches OllamaServiceOverride::Write(c) && c@ == content
}

/// The AMD plan for a family and an already parsed GFX code: the family's
/// packages (the same whatever the code), and the override the code calls for.
pub fn amd_plan(distro: DistroFamily, gfx: Option<&str>) -> (p: AmdPlan)
    ensures
        strs(p.packages@) == amd_packages_of(distro),
        gfx is None ==> p.resolution == RocmGfxResolution::NoGfxDetected && writes(
            p.override_action,
            vulkan_dropin(seq![]),
        ),
        gfx matches Some(g) ==> match gfx_override_of(g@) {
            Some(v) => (p.resolution matches RocmGfxResolution::NeedsOverride {
                gfx: code,
                hsa_override_gfx_version: hsa,
            } && code@ == g@ && hsa@ == v) && writes(
                p.override_action,
                vulkan_dropin(seq![("HSA_OVERRIDE_GFX_VERSION"@, v)]),
            ),
            None => (p.resolution matches RocmGfxResolution::OfficiallySupported { gfx: code }
                && code@ == g@) && p.override_action == OllamaServiceOverride::Clear,
        },
{
    let (resolution, override_action) = match gfx {
        None => {
            let empty: Vec<(&str, &str)> = Vec::new();
            let content = render_ollama_vulkan_dropin(empty.as_slice());
            assert(super::var_views(empty@) =~= seq![]);
            (RocmGfxResolution::NoGfxDetected, OllamaServiceOverride::Write(content))
        },
        Some(g) => match amd_gfx_override(g) {
            Some(hsa) => {
                let vars = vec![("HSA_OVERRIDE_GFX_VERSION", hsa)];
                let content = render_ollama_vulkan_dropin(vars.as_slice());
                assert(super::var_views(vars@) =~= seq![("HSA_OVERRIDE_GFX_VERSION"@, hsa@)]);
                (
                    RocmGfxResolution::NeedsOverride { gfx: owned(g), hsa_override_gfx_version: hsa },
                    OllamaServiceOverride::Write(content),
                )
            },
            None => (RocmGfxResolution::OfficiallySupported { gfx: owned(g) }, OllamaServiceOverride::Clear),
        },
    };
    AmdPlan { packages: amd_packages(distro), resolution, override_action }
}

// ---------------------------------------------------------------------------
// Intel
// ---------------------------------------------------------------------------

#[derive(Debug, Clone, PartialEq, Eq)]
pub struct IntelPlan {
    pub packages: Vec<&'static str>,
    pub override_action: OllamaServiceOverride,
}

pub open spec fn intel_packages_of(distro: DistroFamily) -> Seq<Seq<char>> {
    match distro {
        DistroFamily::Arch => seq!["vulkan-intel"@, "vulkan-icd-loader"@, "vulkan-tools"@],
        DistroFamily::Debian | DistroFamily::Fedora => seq!["mesa-vulkan-drivers"@, "vulkan-tools"@],
        DistroFamily::OpenSuse => seq!["vulkan-tools"@],
        DistroFamily::Unknown => seq![],
    }
}

fn intel_packages(distro: DistroFamily) -> (v: Vec<&'static str>)
    ensures
        strs(v@) == intel_packages_of(distro),
{
    let v = match distro {
        DistroFamily::Arch => vec!["vulkan-intel", "vulkan-icd-loader", "vulkan-tools"],
        DistroFamily::Debian | DistroFamily::Fedora => vec!["mesa-vulkan-drivers", "vulkan-tools"],
        DistroFamily::OpenSuse => vec!["vulkan-tools"],
        DistroFamily::Unknown => Vec::new(),
    };
    assert(strs(v@) =~= intel_packages_of(distro));
    v
}

/// The Intel plan: the family's Vulkan packages and a drop-in enabling
/// Vulkan and the integrated-GPU switch, for any Intel GPU alike.
pub fn intel_plan(distro: DistroFamily) -> (p: IntelPlan)
    ensures
        strs(p.packages@) == intel_packages_of(distro),
        writes(p.override_action, vulkan_dropin(seq![("OLLAMA_IGPU_ENABLE"@, "1"@)])),
{
    let vars = vec![("OLLAMA_IGPU_ENABLE", "1")];
    let content = render_ollama_vulkan_dropin(vars.as_slice());
    assert(super::var_views(vars@) =~= seq![("OLLAMA_IGPU_ENABLE"@, "1"@)]);
    IntelPlan { packages: intel_packages(distro), override_action: OllamaServiceOverride::Write(content) }
}

/// No dedicated GPU: only clear any override left from an earlier run.
pub fn none_plan() -> (o: OllamaServiceOverride)
    ensures
        o == OllamaServiceOverride::Clear,
{
    OllamaServiceOverride::Clear
}


/// AMD and Intel share the distribution's Vulkan stack: on Debian, Fedora
/// and openSUSE the AMD packages are the Intel ones plus `rocminfo`; on
/// Arch they differ only in the vendor's Vulkan driver, `vulkan-radeon` in
/// place of `vulkan-intel`; with no known package manager neither installs
/// anything.
pub proof fn law_amd_packages_are_the_vulkan_stack_plus_rocminfo(distro: DistroFamily)
    ensures
        distro == DistroFamily::Debian || distro == DistroFamily::Fedora || distro == DistroFamily::OpenSuse
            ==> amd_packages_of(distro) == intel_packages_of(distro).push("rocminfo"@),
        distro == DistroFamily::Arch ==> amd_packages_of(distro)[0] == "vulkan-radeon"@ && intel_packages_of(
            distro,
        )[0] == "vulkan-intel"@ && amd_packages_of(distro).drop_first() == intel_packages_of(
            distro,
        ).drop_first().push("rocminfo"@),
        distro == DistroFamily::Unknown ==> amd_packages_of(distro).len() == 0 && intel_packages_of(distro).len()
            == 0,
{
    assert(amd_packages_of(DistroFamily::Debian) =~= intel_packages_of(DistroFamily::Debian).push("rocminfo"@));
    assert(amd_packages_of(DistroFamily::Fedora) =~= intel_packages_of(DistroFamily::Fedora).push("rocminfo"@));
    assert(amd_packages_of(DistroFamily::OpenSuse) =~= intel_packages_of(DistroFamily::OpenSuse).push(
        "rocminfo"@,
    ));
    assert(amd_packages_of(DistroFamily::Arch).drop_first() =~= intel_packages_of(
        DistroFamily::Arch,
    ).drop_first().push("rocminfo"@));
}

/// Wherever a package manager installs a GPU driver, the AMD plan installs
/// a Vulkan driver for the card: Mesa's on Debian and Fedora, RADV
/// (`vulkan-radeon`) on Arch; and every family with a package manager gets
/// `vulkan-tools` and `rocminfo`.
pub proof fn law_amd_plan_installs_a_vulkan_driver(distro: DistroFamily)
    ensures
        distro == DistroFamily::Debian || distro == DistroFamily::Fedora ==> amd_packages_of(distro).contains(
            "mesa-vulkan-drivers"@,
        ),
        distro == DistroFamily::Arch ==> amd_packages_of(distro).contains("vulkan-radeon"@),
        distro != DistroFamily::Unknown ==> amd_packages_of(distro).contains("vulkan-tools"@)
            && amd_packages_of(distro).contains("rocminfo"@),
{
    let p = amd_packages_of(distro);
    match distro {
        DistroFamily::Arch => {
            assert(p[0] == "vulkan-radeon"@);
            assert(p[2] == "vulkan-tools"@);
            assert(p[3] == "rocminfo"@);
        },
        DistroFamily::Debian | DistroFamily::Fedora => {
            assert(p[0] == "mesa-vulkan-drivers"@);
            assert(p[1] == "vulkan-tools"@);
            assert(p[2] == "rocminfo"@);
        },
        DistroFamily::OpenSuse => {
            assert(p[0] == "vulkan-tools"@);
            assert(p[1] == "rocminfo"@);
        },
        DistroFamily::Unknown => {},
    }
}

} // verus!
