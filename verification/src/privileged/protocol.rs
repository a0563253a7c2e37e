//! The line protocol the privileged worker reports step transitions with,
//! over the same stdout that carries its ordinary log output: a step line
//! is the marker followed by the event as JSON. Encoding the event as JSON
//! is the caller's business; this module frames and unframes the lines.

use vstd::prelude::*;
use vstd::string::StringExecFns;
use crate::text::{owned, starts_with, strip_prefix, strip_prefix_sub, string_from, to_chars};

verus! {

pub const STEP_MARKER: &'static str = "__STEP__";

#[derive(Debug, Clone, Copy, PartialEq, Eq, Structural)]
pub enum StepStatus {
    Running,
    Done,
    Failed,
    NeedsConfirmation,
    RunningSilent,
}

/// A question a step needs answered before it can go on.
#[derive(Debug, Clone, PartialEq, Eq)]
pub struct ConfirmationRequest {
    pub prompt_title: String,
    pub prompt_message: String,
    pub action_description: String,
}

#[derive(Debug, Clone, PartialEq)]
pub struct StepEvent {
    pub id: String,
    pub label: String,
    pub status: StepStatus,
    pub error: Option<String>,
    pub confirmation: Option<ConfirmationRequest>,
    pub message: Option<String>,
}

/// The step line that carries an event encoded as `json`.
pub fn frame_step_line(json: &str) -> (line: String)
    ensures
        line@ == "__STEP__"@ + json@,
{
    let mut line = owned(STEP_MARKER);
    line.append(json);
    line
}

/// The JSON text of a step line; `None` for any line that does not start
/// with the marker, which is then ordinary log text.
pub fn step_line_payload(line: &str) -> (r: Option<String>)
    ensures
        r matches Some(j) ==> strip_prefix(line@, "__STEP__"@) == Some(j@),
        r is None ==> strip_prefix(line@, "__STEP__"@) is None,
{
    let v = to_chars(line);
    let m = to_chars(STEP_MARKER);
    match strip_prefix_sub(&v, &m) {
        Some(rest) => Some(string_from(&rest)),
        None => None,
    }
}

/// Unframing a framed line gives back the JSON text it was framed with.
pub proof fn law_step_line_round_trip(json: Seq<char>)
    ensures
        strip_prefix("__STEP__"@ + json, "__STEP__"@) == Some(json),
{
    let l = "__STEP__"@ + json;
    assert(l.subrange(0, "__STEP__"@.len() as int) =~= "__STEP__"@);
    assert(l.subrange("__STEP__"@.len() as int, l.len() as int) =~= json);
}

/// A line that does not start with the marker is never taken for a step line.
pub proof fn law_log_lines_are_not_step_lines(line: Seq<char>)
    requires
        !starts_with(line, "__STEP__"@),
    ensures
        strip_prefix(line, "__STEP__"@) is None,
{
}

} // verus!
