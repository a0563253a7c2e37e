//! The day-to-day launcher's logic: Ollama's model listing mapped to what
//! the launcher shows, its pull progress lines, the Open WebUI service
//! state, and the small `webui.env` file that decides whether Open WebUI
//! listens on the LAN. HTTP, `systemctl` and the file itself are the
//! caller's business.

use vstd::prelude::*;
use vstd::string::StringExecFns;
use crate::install::webui::WEBUI_ENV_DEFAULT_CONTENT;
use crate::text::{
    first_where, first_where_from, lines_of, lines_of_str, owned, starts_with, starts_with_sub,
    strip_prefix, strip_prefix_sub, string_from, to_chars, trim, trim_chars, trim_str, views,
    char_pos, strip_cr, trim_start, trim_end, is_ws,
};

verus! {

/// Ollama's `/api/tags` answer.
#[derive(Debug)]
pub struct TagsResponse {
    pub models: Vec<RawModel>,
}

/// One model as Ollama lists it.
#[derive(Debug)]
pub struct RawModel {
    pub name: String,
    pub size: u64,
    pub modified_at: String,
    pub details: Option<RawDetails>,
}

/// The details Ollama gives for most models.
#[derive(Debug)]
pub struct RawDetails {
    pub parameter_size: Option<String>,
    pub quantization_level: Option<String>,
}

impl Default for RawDetails {
    /// No detail known.
    fn default() -> (d: Self)
        ensures
            d.parameter_size is None,
            d.quantization_level is None,
    {
        RawDetails { parameter_size: None, quantization_level: None }
    }
}

/// One model as the launcher shows it.
#[derive(Debug, Clone, PartialEq, Eq)]
pub struct ModelInfo {
    pub name: String,
    pub size: u64,
    pub modified_at: String,
    pub parameter_size: String,
    pub quantization_level: String,
}

pub open spec fn or_empty(o: Option<String>) -> Seq<char> {
    match o {
        Some(s) => s@,
        None => seq![],
    }
}

pub open spec fn parameter_size_of(d: Option<RawDetails>) -> Seq<char> {
    match d {
        Some(d) => or_empty(d.parameter_size),
        None => seq![],
    }
}

pub open spec fn quantization_level_of(d: Option<RawDetails>) -> Seq<char> {
    match d {
        Some(d) => or_empty(d.quantization_level),
        None => seq![],
    }
}

fn string_or_empty(o: Option<String>) -> (s: String)
    ensures
        s@ == or_empty(o),
{
    match o {
        Some(s) => s,
        None => String::new(),
    }
}

/// The model as shown: name, size and date as Ollama gives them, and the
/// parameter size and quantization level, empty where Ollama gives none
/// (it leaves out `details` for some kinds of model).
pub fn to_model_info(m: RawModel) -> (i: ModelInfo)
    ensures
        i.name == m.name,
        i.size == m.size,
        i.modified_at == m.modified_at,
        i.parameter_size@ == parameter_size_of(m.details),
        i.quantization_level@ == quantization_level_of(m.details),
{
    let (parameter_size, quantization_level) = match m.details {
        Some(d) => (string_or_empty(d.parameter_size), string_or_empty(d.quantization_level)),
        None => (String::new(), String::new()),
    };
    ModelInfo { name: m.name, size: m.size, modified_at: m.modified_at, parameter_size, quantization_level }
}

/// The service state for `systemctl is-active` output: the trimmed text,
/// `unknown` when there is none (as when the unit was just removed).
pub open spec fn service_state_of(output: Seq<char>) -> Seq<char> {
    if trim(output).len() == 0 {
        "unknown"@
    } else {
        trim(output)
    }
}

pub fn parse_systemctl_is_active(output: &str) -> (r: String)
    ensures
        r@ == service_state_of(output@),
{
    let t = trim_str(output);
    if t.len() == 0 {
        owned("unknown")
    } else {
        string_from(&t)
    }
}

/// The Open WebUI address on the LAN for a host address in its usual text
/// form; an IPv6 address is put in brackets, as a URL needs it.
pub open spec fn lan_url_of(host: Seq<char>, ipv6: bool) -> Seq<char> {
    if ipv6 {
        "http://["@ + host + "]:8080"@
    } else {
        "http://"@ + host + ":8080"@
    }
}

pub fn lan_url_for_host(host: &str, ipv6: bool) -> (url: String)
    ensures
        url@ == lan_url_of(host@, ipv6),
{
    let mut url = if ipv6 {
        owned("http://[")
    } else {
        owned("http://")
    };
    url.append(host);
    if ipv6 {
        url.append("]:8080");
    } else {
        url.append(":8080");
    }
    url
}

pub open spec fn is_webui_host_line(line: Seq<char>) -> bool {
    starts_with(line, "WEBUI_HOST="@)
}

pub open spec fn webui_host_line() -> spec_fn(Seq<char>) -> bool {
    |l: Seq<char>| is_webui_host_line(l)
}

/// Whether `webui.env` contents turn LAN access on: the value of the first
/// `WEBUI_HOST=` line, trimmed, is `0.0.0.0`. An empty, malformed or
/// missing setting means off.
pub open spec fn lan_enabled_in(content: Seq<char>) -> bool {
    let ls = lines_of(content);
    match first_where(ls, webui_host_line()) {
        None => false,
        Some(i) => match strip_prefix(ls[i], "WEBUI_HOST="@) {
            Some(host) => trim(host) == "0.0.0.0"@,
            None => false,
        },
    }
}

pub fn parse_webui_lan_status(content: &str) -> (on: bool)
    ensures
        on == lan_enabled_in(content@),
{
    proof {
        reveal_strlit("WEBUI_HOST=");
        reveal_strlit("0.0.0.0");
    }
    let ls = lines_of_str(content);
    let prefix = to_chars("WEBUI_HOST=");
    let all = to_chars("0.0.0.0");
    let ghost pred = webui_host_line();
    let ghost lv = views(ls@);
    let mut i: usize = 0;
    while i < ls.len()
        invariant
            i <= ls.len(),
            lv == views(ls@),
            lv == lines_of(content@),
            prefix@ == "WEBUI_HOST="@,
            all@ == "0.0.0.0"@,
            pred == webui_host_line(),
            first_where(lv, pred) == first_where_from(lv, pred, i as int),
        decreases ls.len() - i,
    {
        assert(lv[i as int] == ls@[i as int]@);
        if starts_with_sub(&ls[i], &prefix) {
            assert(first_where_from(lv, pred, i as int) == Some(i as int));
            return match strip_prefix_sub(&ls[i], &prefix) {
                Some(host) => {
                    let t = trim_chars(&host);
                    crate::text::same_chars(&t, &all)
                },
                None => false,
            };
        }
        i = i + 1;
    }
    assert(first_where_from(lv, pred, i as int) is None);
    false
}

pub open spec fn webui_host_for(enabled: bool) -> Seq<char> {
    if enabled {
        "0.0.0.0"@
    } else {
        "127.0.0.1"@
    }
}

/// The `webui.env` contents for a LAN choice: Open WebUI listens on every
/// address, or on the loopback address only.
pub fn format_webui_env(enabled: bool) -> (content: String)
    ensures
        content@ == "WEBUI_HOST="@ + webui_host_for(enabled) + "\n"@,
{
    let mut s = owned("WEBUI_HOST=");
    s.append(
        if enabled {
            "0.0.0.0"
        } else {
            "127.0.0.1"
        },
    );
    s.append("\n");
    s
}

proof fn lemma_char_pos_of_unbroken(s: Seq<char>, rest: Seq<char>)
    requires
        forall|k: int| 0 <= k < s.len() ==> s[k] != '\n',
    ensures
        char_pos(s + seq!['\n'] + rest, '\n') == s.len(),
    decreases s.len(),
{
    let t = s + seq!['\n'] + rest;
    if s.len() > 0 {
        assert(t.drop_first() =~= s.drop_first() + seq!['\n'] + rest);
        lemma_char_pos_of_unbroken(s.drop_first(), rest);
    }
}

proof fn lemma_trim_of_solid(s: Seq<char>)
    requires
        s.len() > 0,
        !is_ws(s[0]),
        !is_ws(s.last()),
    ensures
        trim(s) == s,
{
}

/// The `webui.env` contents written for a LAN choice read back as that
/// choice.
pub proof fn law_webui_env_round_trip(enabled: bool)
    ensures
        lan_enabled_in("WEBUI_HOST="@ + webui_host_for(enabled) + "\n"@) == enabled,
{
    reveal_strlit("WEBUI_HOST=");
    reveal_strlit("0.0.0.0");
    reveal_strlit("127.0.0.1");
    reveal_strlit("\n");
    let line = "WEBUI_HOST="@ + webui_host_for(enabled);
    let content = line + "\n"@;
    assert("\n"@ =~= seq!['\n']);
    assert(content =~= line + seq!['\n'] + seq![]);
    lemma_char_pos_of_unbroken(line, seq![]);
    assert(content.subrange(0, line.len() as int) =~= line);
    assert(content.subrange(line.len() as int + 1, content.len() as int) =~= seq![]);
    assert(strip_cr(line) == line);
    assert(lines_of(content.subrange(line.len() as int + 1, content.len() as int)) =~= seq![]);
    assert(content.len() > 0);
    let ls = lines_of(content);
    assert(ls =~= seq![line]);
    assert(line.subrange(0, "WEBUI_HOST="@.len() as int) =~= "WEBUI_HOST="@);
    assert(webui_host_line()(ls[0]));
    assert(first_where_from(ls, webui_host_line(), 0) == Some(0int));
    let host = webui_host_for(enabled);
    assert(line.subrange("WEBUI_HOST="@.len() as int, line.len() as int) =~= host);
    lemma_trim_of_solid(host);
    if !enabled {
        assert(host != "0.0.0.0"@) by {
            assert(host.len() != "0.0.0.0"@.len());
        }
    }
}

/// The environment file the installer writes on a fresh install means LAN
/// access off.
pub proof fn law_fresh_env_file_is_lan_off()
    ensures
        !lan_enabled_in(WEBUI_ENV_DEFAULT_CONTENT@),
{
    reveal_strlit("WEBUI_HOST=127.0.0.1\n");
    reveal_strlit("WEBUI_HOST=");
    reveal_strlit("127.0.0.1");
    reveal_strlit("\n");
    assert(WEBUI_ENV_DEFAULT_CONTENT@ =~= "WEBUI_HOST="@ + webui_host_for(false) + "\n"@);
    law_webui_env_round_trip(false);
}

/// One line of Ollama's streamed `/api/pull` answer.
#[derive(Debug)]
pub struct PullLine {
    pub status: Option<String>,
    pub completed: Option<u64>,
    pub total: Option<u64>,
    pub error: Option<String>,
}

/// A progress update as the launcher forwards it.
#[derive(Debug, Clone, PartialEq, Eq)]
pub struct PullProgress {
    pub model: String,
    pub status: String,
    pub completed: Option<u64>,
    pub total: Option<u64>,
}

/// What one line of the pull stream means: an update to forward, or, when
/// Ollama reports an error, a last update and the error the pull fails with.
#[derive(Debug, Clone, PartialEq, Eq)]
pub enum PullStep {
    Progress(PullProgress),
    Failed(PullProgress, String),
}

pub fn pull_step(model: &str, line: PullLine) -> (s: PullStep)
    ensures
        line.error matches Some(e) ==> (s matches PullStep::Failed(p, err) && err == e && p.model@
            == model@ && p.status@ == "error: "@ + e@ && p.completed is None && p.total is None),
        line.error is None ==> (s matches PullStep::Progress(p) && p.model@ == model@ && p.status@
            == or_empty(line.status) && p.completed == line.completed && p.total == line.total),
{
    match line.error {
        Some(err) => {
            let mut status = owned("error: ");
            status.append(err.as_str());
            PullStep::Failed(PullProgress { model: owned(model), status, completed: None, total: None }, err)
        },
        None => PullStep::Progress(
            PullProgress {
                model: owned(model),
                status: string_or_empty(line.status),
                completed: line.completed,
                total: line.total,
            },
        ),
    }
}

/// The `systemctl --user` action that starts or stops Open WebUI, and what
/// the launcher reports once it succeeded.
pub fn webui_service_action(enabled: bool) -> (r: (&'static str, &'static str))
    ensures
        enabled ==> r.0@ == "start"@ && r.1@ == "Open WebUI started."@,
        !enabled ==> r.0@ == "stop"@ && r.1@ == "Open WebUI stopped."@,
{
    if enabled {
        ("start", "Open WebUI started.")
    } else {
        ("stop", "Open WebUI stopped.")
    }
}

} // verus!
