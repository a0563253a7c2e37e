//! The package-manager commands an install plan turns into. Running them is
//! the caller's business; each runs as root inside the privileged worker,
//! so none is prefixed with `sudo`.

use vstd::prelude::*;
use crate::install::DistroFamily;
use crate::text::owned;

verus! {

/// A command to run: a program and its arguments.
#[derive(Debug, Clone, PartialEq, Eq)]
pub struct CommandSpec {
    pub program: &'static str,
    pub args: Vec<String>,
}

pub open spec fn arg_views(a: Seq<String>) -> Seq<Seq<char>> {
    a.map_values(|s: String| s@)
}

pub open spec fn pkg_views(p: Seq<&str>) -> Seq<Seq<char>> {
    p.map_values(|s: &str| s@)
}

pub open spec fn is_command(c: CommandSpec, program: Seq<char>, args: Seq<Seq<char>>) -> bool {
    c.program@ == program && arg_views(c.args@) == args
}

/// The commands that install `packages` on `distro`, in order: none for an
/// empty list or an unknown family (which needs a manual install); pacman,
/// dnf and zypper one each; apt-get an update, then the install.
pub open spec fn install_commands_ok(distro: DistroFamily, packages: Seq<Seq<char>>, cs: Seq<CommandSpec>) -> bool {
    if packages.len() == 0 {
        cs.len() == 0
    } else {
        match distro {
            DistroFamily::Arch => cs.len() == 1 && is_command(
                cs[0],
                "pacman"@,
                seq!["-Sy"@, "--noconfirm"@, "--needed"@] + packages,
            ),
            DistroFamily::Debian => cs.len() == 2 && is_command(
                cs[0],
                "apt-get"@,
                seq!["update"@, "-qq"@],
            ) && is_command(cs[1], "apt-get"@, seq!["install"@, "-y"@] + packages),
            DistroFamily::Fedora => cs.len() == 1 && is_command(
                cs[0],
                "dnf"@,
                seq!["install"@, "-y"@] + packages,
            ),
            DistroFamily::OpenSuse => cs.len() == 1 && is_command(
                cs[0],
                "zypper"@,
                seq!["--non-interactive"@, "install"@] + packages,
            ),
            DistroFamily::Unknown => cs.len() == 0,
        }
    }
}

fn args_then(head: Vec<String>, packages: &[&str]) -> (r: Vec<String>)
    ensures
        arg_views(r@) == arg_views(head@) + pkg_views(packages@),
{
    let mut r = head;
    let ghost h = arg_views(r@);
    let mut i: usize = 0;
    while i < packages.len()
        invariant
            i <= packages.len(),
            arg_views(r@) == h + pkg_views(packages@).subrange(0, i as int),
        decreases packages.len() - i,
    {
        let ghost before = arg_views(r@);
        r.push(owned(packages[i]));
        assert(arg_views(r@) =~= before.push(packages@[i as int]@));
        assert(pkg_views(packages@).subrange(0, i + 1) =~= pkg_views(packages@).subrange(0, i as int).push(
            packages@[i as int]@,
        ));
        i = i + 1;
    }
    assert(pkg_views(packages@).subrange(0, packages.len() as int) =~= pkg_views(packages@));
    r
}

fn words2(a: &str, b: &str) -> (r: Vec<String>)
    ensures
        arg_views(r@) == seq![a@, b@],
{
    let r = vec![owned(a), owned(b)];
    assert(arg_views(r@) =~= seq![a@, b@]);
    r
}

fn words3(a: &str, b: &str, c: &str) -> (r: Vec<String>)
    ensures
        arg_views(r@) == seq![a@, b@, c@],
{
    let r = vec![owned(a), owned(b), owned(c)];
    assert(arg_views(r@) =~= seq![a@, b@, c@]);
    r
}

/// The commands that install `packages` on `distro`.
pub fn pkg_install_commands(distro: DistroFamily, packages: &[&str]) -> (cs: Vec<CommandSpec>)
    ensures
        install_commands_ok(distro, pkg_views(packages@), cs@),
{
    if packages.len() == 0 {
        return Vec::new();
    }
    match distro {
        DistroFamily::Arch => {
            let c = CommandSpec { program: "pacman", args: args_then(words3("-Sy", "--noconfirm", "--needed"), packages) };
            vec![c]
        },
        DistroFamily::Debian => {
            let update = CommandSpec { program: "apt-get", args: words2("update", "-qq") };
            let install = CommandSpec { program: "apt-get", args: args_then(words2("install", "-y"), packages) };
            vec![update, install]
        },
        DistroFamily::Fedora => {
            let c = CommandSpec { program: "dnf", args: args_then(words2("install", "-y"), packages) };
            vec![c]
        },
        DistroFamily::OpenSuse => {
            let c = CommandSpec {
                program: "zypper",
                args: args_then(words2("--non-interactive", "install"), packages),
            };
            vec![c]
        },
        DistroFamily::Unknown => Vec::new(),
    }
}

} // verus!
