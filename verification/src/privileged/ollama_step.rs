//! The decisions of the Ollama step once its plan is made: the commands
//! that enable the service, and, while waiting for the service to answer,
//! whether to stop, wait and try again, or give up. Running the commands,
//! probing the service and sleeping are the caller's business.

use vstd::prelude::*;
use vstd::string::StringExecFns;
use std::time::Duration;
use super::exec::{is_command, CommandSpec};
use crate::install::ollama::ReadinessCheck;
use crate::text::{decimal, decimal_of, owned};

verus! {

/// The commands that start the Ollama service `unit` with systemd: reload
/// the unit files, then enable the unit and start it now.
pub fn ollama_service_commands(unit: &str) -> (cs: Vec<CommandSpec>)
    ensures
        cs@.len() == 2,
        is_command(cs@[0], "systemctl"@, seq!["daemon-reload"@]),
        is_command(cs@[1], "systemctl"@, seq!["enable"@, "--now"@, unit@]),
{
    let reload = CommandSpec { program: "systemctl", args: vec![owned("daemon-reload")] };
    let enable = CommandSpec { program: "systemctl", args: vec![owned("enable"), owned("--now"), owned(unit)] };
    assert(super::exec::arg_views(reload.args@) =~= seq!["daemon-reload"@]);
    assert(super::exec::arg_views(enable.args@) =~= seq!["enable"@, "--now"@, unit@]);
    vec![reload, enable]
}

/// `format!("{:?}", d)`: the debug text of a duration (such as `1s`).
/// Nothing is claimed of the text.
#[verifier::external_body]
fn duration_debug_text(d: Duration) -> (s: String) {
    format!("{:?}", d)
}

/// The message the wait for the service gives up with, `interval` being
/// the text the wait interval is written as.
pub open spec fn timeout_message(check: ReadinessCheck, interval: Seq<char>) -> Seq<char> {
    "Ollama did not start in time (checked "@ + check.url@ + " "@ + decimal_of(check.max_attempts as nat)
        + " times, "@ + interval + " apart)"@
}

/// The message the wait for the service gives up with: the address, the
/// number of attempts and the interval between them.
pub fn readiness_timeout(check: &ReadinessCheck) -> (msg: String)
    ensures
        exists|t: Seq<char>| msg@ == timeout_message(*check, t),
{
    let mut msg = owned("Ollama did not start in time (checked ");
    msg.append(check.url);
    msg.append(" ");
    let count = decimal(check.max_attempts as u64);
    msg.append(count.as_str());
    msg.append(" times, ");
    let t = duration_debug_text(check.interval);
    msg.append(t.as_str());
    msg.append(" apart)");
    assert(msg@ == timeout_message(*check, t@));
    msg
}

/// What to do after a probe of the service.
pub enum ReadinessMove {
    /// The service answered.
    Ready,
    /// Wait this long, then probe again.
    Wait(Duration),
    /// Wait this long, then give up with this message: that was the last attempt.
    WaitThenGiveUp(Duration, String),
}

/// The move after probe `attempt` (counted from 0) of `check.max_attempts`
/// answered `reachable`: done when the service answered; otherwise wait the
/// interval, and after the last attempt give up.
pub fn readiness_move(check: &ReadinessCheck, attempt: u32, reachable: bool) -> (m: ReadinessMove)
    requires
        attempt < check.max_attempts,
    ensures
        reachable ==> m is Ready,
        !reachable && attempt + 1 < check.max_attempts ==> m == ReadinessMove::Wait(check.interval),
        !reachable && attempt + 1 == check.max_attempts ==> (m matches ReadinessMove::WaitThenGiveUp(d, msg)
            && d == check.interval && exists|t: Seq<char>| msg@ == timeout_message(*check, t)),
{
    if reachable {
        ReadinessMove::Ready
    } else if attempt + 1 < check.max_attempts {
        ReadinessMove::Wait(check.interval)
    } else {
        ReadinessMove::WaitThenGiveUp(check.interval, readiness_timeout(check))
    }
}

} // verus!
