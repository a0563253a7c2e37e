//! The privileged install phase: one elevation prompt covers installing
//! Ollama, configuring the GPU and installing the Open WebUI prerequisites.
//! The running binary re-invokes itself under `pkexec` with a sentinel
//! argument; the worker runs the steps in order and reports each transition
//! on its stdout. This module holds the argument protocol between the two
//! processes and the step logic; spawning and I/O are the caller's business.

use vstd::prelude::*;
use crate::text::{owned, str_equals};
use exec::CommandSpec;

pub mod exec;
pub mod gpu_step;
pub mod ollama_step;
pub mod protocol;
pub mod steps;
pub mod stub_steps;

verus! {

/// The argument that makes the binary act as the privileged worker.
pub const RUN_PRIVILEGED_PHASE_ARG: &'static str = "--run-privileged-phase";

pub const SKIP_WEBUI_ARG: &'static str = "--skip-webui";

pub const CONFIRM_NVIDIA_DRIVER_INSTALL_ARG: &'static str = "--confirm-nvidia-driver-install";

/// The program the privileged phase is run through.
pub const PKEXEC_PROGRAM: &'static str = "pkexec";

#[derive(Debug, Clone, Copy, PartialEq, Eq, Structural)]
pub struct PrivilegedPhaseOptions {
    pub skip_webui: bool,
    /// Set only on a second run, after the user really answered yes to the
    /// Nvidia driver question; a fresh run never assumes consent.
    pub confirm_nvidia_driver_install: bool,
}

impl Default for PrivilegedPhaseOptions {
    fn default() -> (o: Self)
        ensures
            !o.skip_webui,
            !o.confirm_nvidia_driver_install,
    {
        PrivilegedPhaseOptions { skip_webui: false, confirm_nvidia_driver_install: false }
    }
}

pub open spec fn string_views(s: Seq<String>) -> Seq<Seq<char>> {
    s.map_values(|x: String| x@)
}

/// The worker arguments that carry `o`.
pub open spec fn option_args(o: PrivilegedPhaseOptions) -> Seq<Seq<char>> {
    (if o.skip_webui {
        seq!["--skip-webui"@]
    } else {
        seq![]
    }) + (if o.confirm_nvidia_driver_install {
        seq!["--confirm-nvidia-driver-install"@]
    } else {
        seq![]
    })
}

/// The options a worker reads from its arguments: a flag is set when its
/// argument occurs anywhere.
pub open spec fn options_of(args: Seq<Seq<char>>) -> PrivilegedPhaseOptions {
    PrivilegedPhaseOptions {
        skip_webui: args.contains("--skip-webui"@),
        confirm_nvidia_driver_install: args.contains("--confirm-nvidia-driver-install"@),
    }
}

fn any_equals(args: &[String], flag: &str) -> (r: bool)
    ensures
        r == string_views(args@).contains(flag@),
{
    let mut i: usize = 0;
    while i < args.len()
        invariant
            i <= args.len(),
            forall|k: int| 0 <= k < i ==> args@[k]@ != flag@,
        decreases args.len() - i,
    {
        if str_equals(args[i].as_str(), flag) {
            assert(string_views(args@)[i as int] == flag@);
            return true;
        }
        i = i + 1;
    }
    assert forall|k: int| 0 <= k < string_views(args@).len() implies string_views(args@)[k] != flag@ by {
        assert(string_views(args@)[k] == args@[k]@);
    }
    false
}

impl PrivilegedPhaseOptions {
    /// The worker arguments for these options.
    pub fn to_args(self) -> (args: Vec<String>)
        ensures
            string_views(args@) == option_args(self),
    {
        let mut args: Vec<String> = Vec::new();
        if self.skip_webui {
            args.push(owned(SKIP_WEBUI_ARG));
        }
        if self.confirm_nvidia_driver_install {
            args.push(owned(CONFIRM_NVIDIA_DRIVER_INSTALL_ARG));
        }
        assert(string_views(args@) =~= option_args(self));
        args
    }

    /// Reads the options out of the arguments a worker was started with
    /// (everything after the sentinel argument).
    pub fn from_args(args: &[String]) -> (o: Self)
        ensures
            o == options_of(string_views(args@)),
    {
        PrivilegedPhaseOptions {
            skip_webui: any_equals(args, SKIP_WEBUI_ARG),
            confirm_nvidia_driver_install: any_equals(args, CONFIRM_NVIDIA_DRIVER_INSTALL_ARG),
        }
    }
}

/// The single `pkexec` command of the privileged phase: the current
/// executable, the sentinel, then the option flags.
pub fn build_privileged_phase_command(current_exe: &str, opts: PrivilegedPhaseOptions) -> (cmd: CommandSpec)
    ensures
        cmd.program@ == "pkexec"@,
        string_views(cmd.args@) == seq![current_exe@, "--run-privileged-phase"@] + option_args(opts),
{
    let mut args: Vec<String> = Vec::new();
    args.push(owned(current_exe));
    args.push(owned(RUN_PRIVILEGED_PHASE_ARG));
    let mut rest = opts.to_args();
    let ghost a = args@;
    let ghost b = rest@;
    args.append(&mut rest);
    assert(string_views(args@) =~= seq![current_exe@, "--run-privileged-phase"@] + option_args(opts));
    CommandSpec { program: PKEXEC_PROGRAM, args }
}

/// Options survive the trip through the worker's command line: the worker
/// reads back exactly the options its arguments were built from.
pub proof fn law_options_round_trip(o: PrivilegedPhaseOptions)
    ensures
        options_of(option_args(o)) == o,
{
    reveal_strlit("--skip-webui");
    reveal_strlit("--confirm-nvidia-driver-install");
    let a = option_args(o);
    let s = "--skip-webui"@;
    let c = "--confirm-nvidia-driver-install"@;
    assert(s.len() != c.len());
    if o.skip_webui {
        assert(a[0] == s);
    }
    if o.confirm_nvidia_driver_install {
        assert(a[a.len() - 1] == c);
    }
    assert(a.contains(s) == o.skip_webui);
    assert(a.contains(c) == o.confirm_nvidia_driver_install);
}

/// A line of the privileged phase's output, tagged with the pipe it came from.
#[derive(Debug, Clone, PartialEq)]
pub enum PhaseLine {
    Stdout(String),
    Stderr(String),
}

/// The worker's exit code: 0 when every step succeeded, 1 otherwise.
pub fn worker_exit_code<E>(result: &Result<(), E>) -> (code: i32)
    ensures
        result is Ok ==> code == 0,
        result is Err ==> code == 1,
{
    match result {
        Ok(()) => 0,
        Err(_) => 1,
    }
}

} // verus!
