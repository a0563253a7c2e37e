//! Install plans: which packages, which commands and which configuration
//! files each part of the installation needs, computed from facts the
//! caller has already gathered. Nothing here runs a command or writes a file.

use vstd::prelude::*;
use vstd::string::StringExecFns;
use crate::text::{owned, str_equals};

pub mod gpu;
pub mod ollama;
pub mod tier;
pub mod webui;

verus! {

/// Package-manager family of the running distribution.
#[derive(Debug, Clone, Copy, PartialEq, Eq, Structural)]
pub enum DistroFamily {
    Arch,
    Debian,
    Fedora,
    OpenSuse,
    Unknown,
}

/// The family a distribution family name stands for.
pub open spec fn family_of_name(name: Seq<char>) -> DistroFamily {
    if name == "arch"@ {
        DistroFamily::Arch
    } else if name == "debian"@ {
        DistroFamily::Debian
    } else if name == "fedora"@ {
        DistroFamily::Fedora
    } else if name == "opensuse"@ {
        DistroFamily::OpenSuse
    } else {
        DistroFamily::Unknown
    }
}

impl<'a> From<&'a str> for DistroFamily {
    fn from(family: &'a str) -> (r: Self) {
        if str_equals(family, "arch") {
            DistroFamily::Arch
        } else if str_equals(family, "debian") {
            DistroFamily::Debian
        } else if str_equals(family, "fedora") {
            DistroFamily::Fedora
        } else if str_equals(family, "opensuse") {
            DistroFamily::OpenSuse
        } else {
            DistroFamily::Unknown
        }
    }
}

impl<'a> vstd::std_specs::convert::FromSpecImpl<&'a str> for DistroFamily {
    open spec fn obeys_from_spec() -> bool {
        true
    }

    open spec fn from_spec(v: &'a str) -> Self {
        family_of_name(v@)
    }
}

/// The `Environment="KEY=value"` lines for `vars`, in order.
pub open spec fn env_lines(vars: Seq<(Seq<char>, Seq<char>)>) -> Seq<char>
    decreases vars.len(),
{
    if vars.len() == 0 {
        seq![]
    } else {
        env_lines(vars.drop_last()) + "Environment=\""@ + vars.last().0 + "="@ + vars.last().1
            + "\"\n"@
    }
}

/// A systemd drop-in for the Ollama service: `OLLAMA_VULKAN=1` always,
/// followed by one line per extra variable.
pub open spec fn vulkan_dropin(vars: Seq<(Seq<char>, Seq<char>)>) -> Seq<char> {
    "[Service]\nEnvironment=\"OLLAMA_VULKAN=1\"\n"@ + env_lines(vars)
}

pub open spec fn var_views(vars: Seq<(&str, &str)>) -> Seq<(Seq<char>, Seq<char>)> {
    vars.map_values(|p: (&str, &str)| (p.0@, p.1@))
}

/// Renders the `[Service]` drop-in that turns on Vulkan for Ollama, with
/// `extra_vars` as further `Environment=` lines.
pub fn render_ollama_vulkan_dropin(extra_vars: &[(&str, &str)]) -> (content: String)
    ensures
        content@ == vulkan_dropin(var_views(extra_vars@)),
{
    let mut content = owned("[Service]\nEnvironment=\"OLLAMA_VULKAN=1\"\n");
    let ghost head = content@;
    let mut i: usize = 0;
    assert(var_views(extra_vars@).subrange(0, 0) =~= Seq::<(Seq<char>, Seq<char>)>::empty());
    while i < extra_vars.len()
        invariant
            i <= extra_vars.len(),
            head == "[Service]\nEnvironment=\"OLLAMA_VULKAN=1\"\n"@,
            content@ == head + env_lines(var_views(extra_vars@).subrange(0, i as int)),
        decreases extra_vars.len() - i,
    {
        let (key, value) = extra_vars[i];
        content.append("Environment=\"");
        content.append(key);
        content.append("=");
        content.append(value);
        content.append("\"\n");
        let ghost sub = var_views(extra_vars@).subrange(0, i + 1);
        assert(sub.drop_last() =~= var_views(extra_vars@).subrange(0, i as int));
        assert(sub.last() == (key@, value@));
        assert(content@ =~= head + env_lines(sub));
        i = i + 1;
    }
    assert(var_views(extra_vars@).subrange(0, extra_vars.len() as int) =~= var_views(extra_vars@));
    content
}

/// Where every GPU plan's systemd override for Ollama is written or removed.
pub const OLLAMA_SERVICE_OVERRIDE_PATH: &'static str = "/etc/systemd/system/ollama.service.d/override.conf";

/// What to do with the systemd drop-in: write this content, or delete it.
#[derive(Debug, Clone, PartialEq, Eq)]
pub enum OllamaServiceOverride {
    Write(String),
    Clear,
}

} // verus!
