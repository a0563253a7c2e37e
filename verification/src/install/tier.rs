//! Model tier selection and the model tables of each tier.

use vstd::prelude::*;
use crate::text::{owned, str_equals};

verus! {

/// The four usages every tier has a model for.
pub const USAGES: [&'static str; 4] = ["texte", "code", "reflexion", "embeddings"];

pub open spec fn usage_names() -> Seq<Seq<char>> {
    seq!["texte"@, "code"@, "reflexion"@, "embeddings"@]
}

#[derive(Debug, Clone, PartialEq, Eq)]
pub struct ModelCandidate {
    pub model: String,
    pub desc: String,
}

// ---------------------------------------------------------------------------
// Tier
// ---------------------------------------------------------------------------

/// Rank of the tier RAM alone calls for: XS up to 8 GB, S up to 16 GB, M up
/// to 32 GB, L above.
pub open spec fn ram_rank(ram_gb: int) -> int {
    if ram_gb <= 8 {
        0
    } else if ram_gb <= 16 {
        1
    } else if ram_gb <= 32 {
        2
    } else {
        3
    }
}

/// Rank after the CPU-only rule: without a GPU, M and L come down to S.
pub open spec fn capped_rank(ram_gb: int, gpu_vendor: Seq<char>) -> int {
    if gpu_vendor == "none"@ && ram_rank(ram_gb) >= 2 {
        1
    } else {
        ram_rank(ram_gb)
    }
}

pub open spec fn tier_name(rank: int) -> Seq<char> {
    if rank == 0 {
        "XS"@
    } else if rank == 1 {
        "S"@
    } else if rank == 2 {
        "M"@
    } else {
        "L"@
    }
}

/// The tier for a machine: a forced tier as given, otherwise the name of
/// the capped rank.
pub open spec fn tier_of(ram_gb: int, gpu_vendor: Seq<char>, forced: Option<Seq<char>>) -> Seq<char> {
    match forced {
        Some(t) => t,
        None => tier_name(capped_rank(ram_gb, gpu_vendor)),
    }
}

pub open spec fn opt_view(o: Option<&str>) -> Option<Seq<char>> {
    match o {
        Some(s) => Some(s@),
        None => None,
    }
}

/// The model tier for `ram_gb` of RAM and GPU vendor `gpu_vendor`; a
/// forced tier bypasses both the RAM thresholds and the CPU-only rule.
pub fn compute_tier(ram_gb: u64, gpu_vendor: &str, forced: Option<&str>) -> (t: String)
    ensures
        t@ == tier_of(ram_gb as int, gpu_vendor@, opt_view(forced)),
{
    if let Some(t) = forced {
        return owned(t);
    }
    let mut rank: u8 = if ram_gb <= 8 {
        0
    } else if ram_gb <= 16 {
        1
    } else if ram_gb <= 32 {
        2
    } else {
        3
    };
    if str_equals(gpu_vendor, "none") && rank >= 2 {
        rank = 1;
    }
    let name = if rank == 0 {
        "XS"
    } else if rank == 1 {
        "S"
    } else if rank == 2 {
        "M"
    } else {
        "L"
    };
    owned(name)
}

// ---------------------------------------------------------------------------
// Default models
// ---------------------------------------------------------------------------

pub open spec fn defaults4(a: Seq<char>, b: Seq<char>, c: Seq<char>, d: Seq<char>) -> Seq<(Seq<char>, Seq<char>)> {
    seq![("texte"@, a), ("code"@, b), ("reflexion"@, c), ("embeddings"@, d)]
}

/// The default model of each usage, for each of the four tiers.
pub open spec fn default_table(tier: Seq<char>) -> Option<Seq<(Seq<char>, Seq<char>)>> {
    if tier == "XS"@ {
        Some(defaults4("llama3.2:3b"@, "qwen2.5-coder:3b"@, "deepseek-r1:1.5b"@, "nomic-embed-text"@))
    } else if tier == "S"@ {
        Some(defaults4("llama3.1:8b"@, "qwen2.5-coder:7b"@, "deepseek-r1:7b"@, "nomic-embed-text"@))
    } else if tier == "M"@ {
        Some(defaults4("gemma3:12b"@, "devstral:24b"@, "deepseek-r1:14b"@, "nomic-embed-text"@))
    } else if tier == "L"@ {
        Some(defaults4("gemma3:27b"@, "qwen2.5-coder:32b"@, "deepseek-r1:32b"@, "nomic-embed-text"@))
    } else {
        None
    }
}

/// Usage to default model, in the order of `USAGES`.
#[derive(Debug, Clone, PartialEq, Eq)]
pub struct TierModels {
    pub entries: Vec<(String, String)>,
}

pub open spec fn pair_views(e: Seq<(String, String)>) -> Seq<(Seq<char>, Seq<char>)> {
    e.map_values(|p: (String, String)| (p.0@, p.1@))
}

/// The value of the first entry whose key is `key`.
pub open spec fn value_for<V>(e: Seq<(Seq<char>, V)>, key: Seq<char>) -> Option<V>
    decreases e.len(),
{
    if e.len() == 0 {
        None
    } else if e[0].0 == key {
        Some(e[0].1)
    } else {
        value_for(e.drop_first(), key)
    }
}

/// The keys of an association list, in order.
pub open spec fn keys_of<V>(e: Seq<(Seq<char>, V)>) -> Seq<Seq<char>> {
    e.map_values(|p: (Seq<char>, V)| p.0)
}

/// The four usages are different names.
pub proof fn lemma_usages_distinct()
    ensures
        usage_names().no_duplicates(),
{
    reveal_strlit("texte");
    reveal_strlit("code");
    reveal_strlit("reflexion");
    reveal_strlit("embeddings");
    let u = usage_names();
    assert forall|i: int, j: int| 0 <= i < u.len() && 0 <= j < u.len() && i != j implies u[i] != u[j] by {
        assert(u[i].len() != u[j].len());
    }
}

impl TierModels {
    pub open spec fn view_entries(&self) -> Seq<(Seq<char>, Seq<char>)> {
        pair_views(self.entries@)
    }

    /// No usage occurs twice.
    pub open spec fn well_formed(&self) -> bool {
        keys_of(self.view_entries()).no_duplicates()
    }

    /// The default model for `usage`.
    pub fn get(&self, usage: &str) -> (r: Option<&String>)
        ensures
            r matches Some(m) ==> value_for(self.view_entries(), usage@) == Some(m@),
            r is None ==> value_for(self.view_entries(), usage@) is None,
    {
        let ghost t = self.view_entries();
        let mut i: usize = 0;
        assert(t.subrange(0, t.len() as int) =~= t);
        while i < self.entries.len()
            invariant
                i <= self.entries.len(),
                t == self.view_entries(),
                value_for(t, usage@) == value_for(t.subrange(i as int, t.len() as int), usage@),
            decreases self.entries.len() - i,
        {
            let ghost rest = t.subrange(i as int, t.len() as int);
            assert(rest[0] == (self.entries@[i as int].0@, self.entries@[i as int].1@));
            assert(rest.drop_first() =~= t.subrange(i + 1, t.len() as int));
            if str_equals(self.entries[i].0.as_str(), usage) {
                return Some(&self.entries[i].1);
            }
            i = i + 1;
        }
        None
    }

    pub fn contains_key(&self, usage: &str) -> (r: bool)
        ensures
            r == value_for(self.view_entries(), usage@) is Some,
    {
        self.get(usage).is_some()
    }

    pub fn len(&self) -> (n: usize)
        ensures
            n == self.entries@.len(),
    {
        self.entries.len()
    }
}

fn entry(usage: &str, model: &str) -> (e: (String, String))
    ensures
        e.0@ == usage@,
        e.1@ == model@,
{
    (owned(usage), owned(model))
}

fn defaults_of(a: &str, b: &str, c: &str, d: &str) -> (m: TierModels)
    ensures
        m.view_entries() == defaults4(a@, b@, c@, d@),
{
    let entries = vec![entry("texte", a), entry("code", b), entry("reflexion", c), entry("embeddings", d)];
    let m = TierModels { entries };
    assert(m.view_entries() =~= defaults4(a@, b@, c@, d@));
    m
}

/// The default model of each usage for `tier`; `None` for anything but the
/// four tier names.
pub fn default_models(tier: &str) -> (r: Option<TierModels>)
    ensures
        r matches Some(m) ==> default_table(tier@) == Some(m.view_entries()) && m.well_formed(),
        r is None ==> default_table(tier@) is None,
{
    proof {
        lemma_usages_distinct();
        if default_table(tier@) is Some {
            law_tables_cover_every_usage(tier@);
            assert(keys_of(default_table(tier@)->0) =~= usage_names());
        }
    }
    if str_equals(tier, "XS") {
        Some(defaults_of("llama3.2:3b", "qwen2.5-coder:3b", "deepseek-r1:1.5b", "nomic-embed-text"))
    } else if str_equals(tier, "S") {
        Some(defaults_of("llama3.1:8b", "qwen2.5-coder:7b", "deepseek-r1:7b", "nomic-embed-text"))
    } else if str_equals(tier, "M") {
        Some(defaults_of("gemma3:12b", "devstral:24b", "deepseek-r1:14b", "nomic-embed-text"))
    } else if str_equals(tier, "L") {
        Some(defaults_of("gemma3:27b", "qwen2.5-coder:32b", "deepseek-r1:32b", "nomic-embed-text"))
    } else {
        None
    }
}


// ---------------------------------------------------------------------------
// Candidate models
// ---------------------------------------------------------------------------

pub type CandidateList = Seq<(Seq<char>, Seq<char>)>;

pub open spec fn xs_candidates() -> Seq<(Seq<char>, CandidateList)> {
    seq![
        ("texte"@, seq![("llama3.2:3b"@, "Fast, solid generalist for low-end hardware"@), ("qwen2.5:3b"@, "Multilingual alternative"@), ("phi3.5:3.8b"@, "Compact, decent basic reasoning"@)]),
        ("code"@, seq![("qwen2.5-coder:3b"@, "Lightweight general-purpose coding model"@), ("starcoder2:3b"@, "Alternative geared toward completion"@)]),
        ("reflexion"@, seq![("deepseek-r1:1.5b"@, "Step-by-step reasoning, very lightweight"@), ("qwen2.5:1.5b"@, "Lightweight generalist alternative"@)]),
        ("embeddings"@, seq![("nomic-embed-text"@, "Standard general-purpose embeddings"@), ("all-minilm"@, "Lighter, faster"@)]),
    ]
}

pub open spec fn s_candidates() -> Seq<(Seq<char>, CandidateList)> {
    seq![
        ("texte"@, seq![("llama3.1:8b"@, "Well-balanced generalist"@), ("gemma2:9b"@, "Google alternative, good instruction following"@), ("mistral:7b"@, "Fast, good tradeoff"@)]),
        ("code"@, seq![("qwen2.5-coder:7b"@, "General-purpose coding model"@), ("codellama:7b"@, "Meta alternative, geared toward completion"@)]),
        ("reflexion"@, seq![("deepseek-r1:7b"@, "Step-by-step reasoning"@), ("qwen2.5:7b"@, "Generalist alternative"@)]),
        ("embeddings"@, seq![("nomic-embed-text"@, "Standard general-purpose embeddings"@), ("all-minilm"@, "Lighter, faster"@)]),
    ]
}

pub open spec fn m_candidates() -> Seq<(Seq<char>, CandidateList)> {
    seq![
        ("texte"@, seq![("gemma3:12b"@, "Recent Google generalist"@), ("mistral-nemo:12b"@, "Mistral/Nvidia alternative"@), ("qwen2.5:14b"@, "Bigger, better general reasoning"@)]),
        ("code"@, seq![("devstral:24b"@, "Geared toward coding agents"@), ("qwen2.5-coder:14b"@, "Lighter alternative"@)]),
        ("reflexion"@, seq![("deepseek-r1:14b"@, "Step-by-step reasoning"@), ("qwen2.5:14b"@, "Generalist alternative"@)]),
        ("embeddings"@, seq![("nomic-embed-text"@, "Standard general-purpose embeddings"@), ("mxbai-embed-large"@, "More accurate, heavier"@)]),
    ]
}

pub open spec fn l_candidates() -> Seq<(Seq<char>, CandidateList)> {
    seq![
        ("texte"@, seq![("gemma3:27b"@, "Large Google generalist"@), ("qwen2.5:32b"@, "Alibaba alternative"@), ("mixtral:8x7b"@, "Mixture-of-experts, good speed/quality tradeoff"@)]),
        ("code"@, seq![("qwen2.5-coder:32b"@, "Large general-purpose coding model"@), ("devstral:24b"@, "Alternative geared toward coding agents"@)]),
        ("reflexion"@, seq![("deepseek-r1:32b"@, "Large step-by-step reasoning model"@), ("qwq:32b"@, "Alibaba alternative geared toward reasoning"@)]),
        ("embeddings"@, seq![("nomic-embed-text"@, "Standard general-purpose embeddings"@), ("mxbai-embed-large"@, "More accurate, heavier"@)]),
    ]
}

/// The models offered for each usage of each tier, each with a short
/// description; the first one of each usage is the tier's default.
pub open spec fn candidate_table(tier: Seq<char>) -> Option<Seq<(Seq<char>, CandidateList)>> {
    if tier == "XS"@ {
        Some(xs_candidates())
    } else if tier == "S"@ {
        Some(s_candidates())
    } else if tier == "M"@ {
        Some(m_candidates())
    } else if tier == "L"@ {
        Some(l_candidates())
    } else {
        None
    }
}

pub open spec fn cand_views(c: Seq<ModelCandidate>) -> CandidateList {
    c.map_values(|m: ModelCandidate| (m.model@, m.desc@))
}

pub open spec fn cand_entry_views(e: Seq<(String, Vec<ModelCandidate>)>) -> Seq<(Seq<char>, CandidateList)> {
    e.map_values(|p: (String, Vec<ModelCandidate>)| (p.0@, cand_views(p.1@)))
}

/// Usage to candidate models, in the order of `USAGES`.
#[derive(Debug, Clone, PartialEq, Eq)]
pub struct TierCandidates {
    pub entries: Vec<(String, Vec<ModelCandidate>)>,
}

impl TierCandidates {
    pub open spec fn view_entries(&self) -> Seq<(Seq<char>, CandidateList)> {
        cand_entry_views(self.entries@)
    }

    /// No usage occurs twice.
    pub open spec fn well_formed(&self) -> bool {
        keys_of(self.view_entries()).no_duplicates()
    }

    /// The candidates for `usage`.
    pub fn get(&self, usage: &str) -> (r: Option<&Vec<ModelCandidate>>)
        ensures
            r matches Some(c) ==> value_for(self.view_entries(), usage@) == Some(cand_views(c@)),
            r is None ==> value_for(self.view_entries(), usage@) is None,
    {
        let ghost t = self.view_entries();
        let mut i: usize = 0;
        assert(t.subrange(0, t.len() as int) =~= t);
        while i < self.entries.len()
            invariant
                i <= self.entries.len(),
                t == self.view_entries(),
                value_for(t, usage@) == value_for(t.subrange(i as int, t.len() as int), usage@),
            decreases self.entries.len() - i,
        {
            let ghost rest = t.subrange(i as int, t.len() as int);
            assert(rest[0] == (self.entries@[i as int].0@, cand_views(self.entries@[i as int].1@)));
            assert(rest.drop_first() =~= t.subrange(i + 1, t.len() as int));
            if str_equals(self.entries[i].0.as_str(), usage) {
                return Some(&self.entries[i].1);
            }
            i = i + 1;
        }
        None
    }

    pub fn len(&self) -> (n: usize)
        ensures
            n == self.entries@.len(),
    {
        self.entries.len()
    }
}

fn cand(model: &str, desc: &str) -> (c: ModelCandidate)
    ensures
        c.model@ == model@,
        c.desc@ == desc@,
{
    ModelCandidate { model: owned(model), desc: owned(desc) }
}

fn xs_candidate_entries() -> (e: Vec<(String, Vec<ModelCandidate>)>)
    ensures
        cand_entry_views(e@) == xs_candidates(),
{
    let c0 = vec![cand("llama3.2:3b", "Fast, solid generalist for low-end hardware"), cand("qwen2.5:3b", "Multilingual alternative"), cand("phi3.5:3.8b", "Compact, decent basic reasoning")];
    assert(cand_views(c0@) =~= seq![("llama3.2:3b"@, "Fast, solid generalist for low-end hardware"@), ("qwen2.5:3b"@, "Multilingual alternative"@), ("phi3.5:3.8b"@, "Compact, decent basic reasoning"@)]);
    let c1 = vec![cand("qwen2.5-coder:3b", "Lightweight general-purpose coding model"), cand("starcoder2:3b", "Alternative geared toward completion")];
    assert(cand_views(c1@) =~= seq![("qwen2.5-coder:3b"@, "Lightweight general-purpose coding model"@), ("starcoder2:3b"@, "Alternative geared toward completion"@)]);
    let c2 = vec![cand("deepseek-r1:1.5b", "Step-by-step reasoning, very lightweight"), cand("qwen2.5:1.5b", "Lightweight generalist alternative")];
    assert(cand_views(c2@) =~= seq![("deepseek-r1:1.5b"@, "Step-by-step reasoning, very lightweight"@), ("qwen2.5:1.5b"@, "Lightweight generalist alternative"@)]);
    let c3 = vec![cand("nomic-embed-text", "Standard general-purpose embeddings"), cand("all-minilm", "Lighter, faster")];
    assert(cand_views(c3@) =~= seq![("nomic-embed-text"@, "Standard general-purpose embeddings"@), ("all-minilm"@, "Lighter, faster"@)]);
    let e = vec![
        (owned("texte"), c0),
        (owned("code"), c1),
        (owned("reflexion"), c2),
        (owned("embeddings"), c3),
    ];
    assert(cand_entry_views(e@) =~= xs_candidates());
    e
}

fn s_candidate_entries() -> (e: Vec<(String, Vec<ModelCandidate>)>)
    ensures
        cand_entry_views(e@) == s_candidates(),
{
    let c0 = vec![cand("llama3.1:8b", "Well-balanced generalist"), cand("gemma2:9b", "Google alternative, good instruction following"), cand("mistral:7b", "Fast, good tradeoff")];
    assert(cand_views(c0@) =~= seq![("llama3.1:8b"@, "Well-balanced generalist"@), ("gemma2:9b"@, "Google alternative, good instruction following"@), ("mistral:7b"@, "Fast, good tradeoff"@)]);
    let c1 = vec![cand("qwen2.5-coder:7b", "General-purpose coding model"), cand("codellama:7b", "Meta alternative, geared toward completion")];
    assert(cand_views(c1@) =~= seq![("qwen2.5-coder:7b"@, "General-purpose coding model"@), ("codellama:7b"@, "Meta alternative, geared toward completion"@)]);
    let c2 = vec![cand("deepseek-r1:7b", "Step-by-step reasoning"), cand("qwen2.5:7b", "Generalist alternative")];
    assert(cand_views(c2@) =~= seq![("deepseek-r1:7b"@, "Step-by-step reasoning"@), ("qwen2.5:7b"@, "Generalist alternative"@)]);
    let c3 = vec![cand("nomic-embed-text", "Standard general-purpose embeddings"), cand("all-minilm", "Lighter, faster")];
    assert(cand_views(c3@) =~= seq![("nomic-embed-text"@, "Standard general-purpose embeddings"@), ("all-minilm"@, "Lighter, faster"@)]);
    let e = vec![
        (owned("texte"), c0),
        (owned("code"), c1),
        (owned("reflexion"), c2),
        (owned("embeddings"), c3),
    ];
    assert(cand_entry_views(e@) =~= s_candidates());
    e
}

fn m_candidate_entries() -> (e: Vec<(String, Vec<ModelCandidate>)>)
    ensures
        cand_entry_views(e@) == m_candidates(),
{
    let c0 = vec![cand("gemma3:12b", "Recent Google generalist"), cand("mistral-nemo:12b", "Mistral/Nvidia alternative"), cand("qwen2.5:14b", "Bigger, better general reasoning")];
    assert(cand_views(c0@) =~= seq![("gemma3:12b"@, "Recent Google generalist"@), ("mistral-nemo:12b"@, "Mistral/Nvidia alternative"@), ("qwen2.5:14b"@, "Bigger, better general reasoning"@)]);
    let c1 = vec![cand("devstral:24b", "Geared toward coding agents"), cand("qwen2.5-coder:14b", "Lighter alternative")];
    assert(cand_views(c1@) =~= seq![("devstral:24b"@, "Geared toward coding agents"@), ("qwen2.5-coder:14b"@, "Lighter alternative"@)]);
    let c2 = vec![cand("deepseek-r1:14b", "Step-by-step reasoning"), cand("qwen2.5:14b", "Generalist alternative")];
    assert(cand_views(c2@) =~= seq![("deepseek-r1:14b"@, "Step-by-step reasoning"@), ("qwen2.5:14b"@, "Generalist alternative"@)]);
    let c3 = vec![cand("nomic-embed-text", "Standard general-purpose embeddings"), cand("mxbai-embed-large", "More accurate, heavier")];
    assert(cand_views(c3@) =~= seq![("nomic-embed-text"@, "Standard general-purpose embeddings"@), ("mxbai-embed-large"@, "More accurate, heavier"@)]);
    let e = vec![
        (owned("texte"), c0),
        (owned("code"), c1),
        (owned("reflexion"), c2),
        (owned("embeddings"), c3),
    ];
    assert(cand_entry_views(e@) =~= m_candidates());
    e
}

fn l_candidate_entries() -> (e: Vec<(String, Vec<ModelCandidate>)>)
    ensures
        cand_entry_views(e@) == l_candidates(),
{
    let c0 = vec![cand("gemma3:27b", "Large Google generalist"), cand("qwen2.5:32b", "Alibaba alternative"), cand("mixtral:8x7b", "Mixture-of-experts, good speed/quality tradeoff")];
    assert(cand_views(c0@) =~= seq![("gemma3:27b"@, "Large Google generalist"@), ("qwen2.5:32b"@, "Alibaba alternative"@), ("mixtral:8x7b"@, "Mixture-of-experts, good speed/quality tradeoff"@)]);
    let c1 = vec![cand("qwen2.5-coder:32b", "Large general-purpose coding model"), cand("devstral:24b", "Alternative geared toward coding agents")];
    assert(cand_views(c1@) =~= seq![("qwen2.5-coder:32b"@, "Large general-purpose coding model"@), ("devstral:24b"@, "Alternative geared toward coding agents"@)]);
    let c2 = vec![cand("deepseek-r1:32b", "Large step-by-step reasoning model"), cand("qwq:32b", "Alibaba alternative geared toward reasoning")];
    assert(cand_views(c2@) =~= seq![("deepseek-r1:32b"@, "Large step-by-step reasoning model"@), ("qwq:32b"@, "Alibaba alternative geared toward reasoning"@)]);
    let c3 = vec![cand("nomic-embed-text", "Standard general-purpose embeddings"), cand("mxbai-embed-large", "More accurate, heavier")];
    assert(cand_views(c3@) =~= seq![("nomic-embed-text"@, "Standard general-purpose embeddings"@), ("mxbai-embed-large"@, "More accurate, heavier"@)]);
    let e = vec![
        (owned("texte"), c0),
        (owned("code"), c1),
        (owned("reflexion"), c2),
        (owned("embeddings"), c3),
    ];
    assert(cand_entry_views(e@) =~= l_candidates());
    e
}

/// The candidate models of each usage for `tier`; `None` for anything but
/// the four tier names.
pub fn candidates(tier: &str) -> (r: Option<TierCandidates>)
    ensures
        r matches Some(c) ==> candidate_table(tier@) == Some(c.view_entries()) && c.well_formed(),
        r is None ==> candidate_table(tier@) is None,
{
    proof {
        lemma_usages_distinct();
        if default_table(tier@) is Some {
            law_tables_cover_every_usage(tier@);
            assert(keys_of(candidate_table(tier@)->0) =~= usage_names());
        }
    }
    if str_equals(tier, "XS") {
        Some(TierCandidates { entries: xs_candidate_entries() })
    } else if str_equals(tier, "S") {
        Some(TierCandidates { entries: s_candidate_entries() })
    } else if str_equals(tier, "M") {
        Some(TierCandidates { entries: m_candidate_entries() })
    } else if str_equals(tier, "L") {
        Some(TierCandidates { entries: l_candidate_entries() })
    } else {
        None
    }
}


// ---------------------------------------------------------------------------
// Laws
// ---------------------------------------------------------------------------

/// For every tier that has default models, the first candidate offered for
/// each usage is that usage's default model.
pub proof fn law_first_candidate_is_default(tier: Seq<char>, k: int)
    requires
        default_table(tier) is Some,
        0 <= k < 4,
    ensures
        candidate_table(tier) is Some,
        candidate_table(tier)->0.len() == 4,
        candidate_table(tier)->0[k].0 == default_table(tier)->0[k].0,
        candidate_table(tier)->0[k].1.len() >= 1,
        candidate_table(tier)->0[k].1[0].0 == default_table(tier)->0[k].1,
{
}

/// Every tier with default models names exactly the four usages, in order,
/// in both its default table and its candidate table.
pub proof fn law_tables_cover_every_usage(tier: Seq<char>)
    requires
        default_table(tier) is Some,
    ensures
        default_table(tier)->0.map_values(|p: (Seq<char>, Seq<char>)| p.0) == usage_names(),
        candidate_table(tier)->0.map_values(|p: (Seq<char>, CandidateList)| p.0) == usage_names(),
{
    assert(default_table(tier)->0.map_values(|p: (Seq<char>, Seq<char>)| p.0) =~= usage_names());
    assert(candidate_table(tier)->0.map_values(|p: (Seq<char>, CandidateList)| p.0) =~= usage_names());
}

/// A tier that was not forced always has both tables.
pub proof fn law_computed_tier_has_tables(ram_gb: int, gpu_vendor: Seq<char>)
    ensures
        default_table(tier_of(ram_gb, gpu_vendor, None)) is Some,
        candidate_table(tier_of(ram_gb, gpu_vendor, None)) is Some,
{
}

/// Without a GPU the tier is never above S, whatever the RAM.
pub proof fn law_cpu_only_tier_at_most_s(ram_gb: int)
    ensures
        tier_of(ram_gb, "none"@, None) == "XS"@ || tier_of(ram_gb, "none"@, None) == "S"@,
{
}

/// More RAM never gives a lower tier.
pub proof fn law_tier_monotone_in_ram(ram_a: int, ram_b: int, gpu_vendor: Seq<char>)
    requires
        ram_a <= ram_b,
    ensures
        capped_rank(ram_a, gpu_vendor) <= capped_rank(ram_b, gpu_vendor),
{
}

/// With a GPU, the RAM tier is kept as it is.
pub proof fn law_gpu_keeps_ram_tier(ram_gb: int, gpu_vendor: Seq<char>)
    requires
        gpu_vendor != "none"@,
    ensures
        capped_rank(ram_gb, gpu_vendor) == ram_rank(ram_gb),
{
}

} // verus!
