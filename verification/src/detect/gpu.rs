//! GPU vendor and name, read from `lspci -nnk` output or from Windows
//! `PNPDeviceID` strings, and the AMD GFX code read from `rocminfo` output.

use vstd::prelude::*;
use crate::text::{
    contains, contains_sub, copy_range, find_last, first_where, first_where_from, is_ascii_seq,
    is_digit, lines_of, lines_of_str, lower_seq, matches_at, owned, rfind_sub, str_equals,
    string_from, to_chars, to_lower_ascii, upper_seq, views,
};

verus! {

#[derive(Debug, Clone, PartialEq, Eq)]
pub struct GpuInfo {
    pub vendor: String,
    pub name: String,
}

impl Default for GpuInfo {
    /// Vendor `none` and an empty name: no dedicated GPU detected.
    fn default() -> (g: Self)
        ensures
            g.vendor@ == "none"@,
            g.name@ == Seq::<char>::empty(),
    {
        GpuInfo { vendor: owned("none"), name: String::new() }
    }
}

// ---------------------------------------------------------------------------
// lspci
// ---------------------------------------------------------------------------

/// A display controller line: it holds `vga`, `3d` or `display`, ignoring
/// ASCII case.
pub open spec fn is_controller_line(l: Seq<char>) -> bool {
    let low = lower_seq(l);
    contains(low, "vga"@) || contains(low, "3d"@) || contains(low, "display"@)
}

/// The elements of `ls` that satisfy `pred`, in order.
pub open spec fn keep(ls: Seq<Seq<char>>, pred: spec_fn(Seq<char>) -> bool) -> Seq<Seq<char>>
    decreases ls.len(),
{
    if ls.len() == 0 {
        seq![]
    } else if pred(ls.last()) {
        keep(ls.drop_last(), pred).push(ls.last())
    } else {
        keep(ls.drop_last(), pred)
    }
}

pub open spec fn controller_line() -> spec_fn(Seq<char>) -> bool {
    |l: Seq<char>| is_controller_line(l)
}

/// A line holding one of the PCI vendor-id prefixes `ps`.
pub open spec fn pci_vendor_line(ps: Seq<Seq<char>>) -> spec_fn(Seq<char>) -> bool {
    |l: Seq<char>| exists|k: int| 0 <= k < ps.len() && contains(l, #[trigger] ps[k])
}

pub open spec fn nvidia_line() -> spec_fn(Seq<char>) -> bool {
    pci_vendor_line(seq!["[10de:"@])
}

pub open spec fn amd_line() -> spec_fn(Seq<char>) -> bool {
    pci_vendor_line(seq!["[1002:"@, "[1022:"@])
}

pub open spec fn intel_line() -> spec_fn(Seq<char>) -> bool {
    pci_vendor_line(seq!["[8086:"@])
}

/// The GPU name of an lspci line: what follows its last `": "`, or the
/// whole line when it has none.
pub open spec fn pci_name(l: Seq<char>) -> Seq<char> {
    match find_last(l, ": "@) {
        Some(i) => l.subrange(i + 2, l.len() as int),
        None => l,
    }
}

/// Vendor and name for `lspci -nnk` output: among the display controller
/// lines, the first Nvidia one, else the first AMD one, else the first
/// Intel one; `none` and an empty name when there is none of these.
pub open spec fn lspci_gpu_of(output: Seq<char>) -> (Seq<char>, Seq<char>) {
    let cl = keep(lines_of(output), controller_line());
    match first_where(cl, nvidia_line()) {
        Some(i) => ("nvidia"@, pci_name(cl[i])),
        None => match first_where(cl, amd_line()) {
            Some(i) => ("amd"@, pci_name(cl[i])),
            None => match first_where(cl, intel_line()) {
                Some(i) => ("intel"@, pci_name(cl[i])),
                None => ("none"@, seq![]),
            },
        },
    }
}

fn lower_chars(v: &Vec<char>) -> (r: Vec<char>)
    ensures
        r@ == lower_seq(v@),
{
    let mut r: Vec<char> = Vec::new();
    let mut i: usize = 0;
    while i < v.len()
        invariant
            i <= v.len(),
            r@ == lower_seq(v@.subrange(0, i as int)),
        decreases v.len() - i,
    {
        r.push(to_lower_ascii(v[i]));
        assert(lower_seq(v@.subrange(0, i + 1)) =~= lower_seq(v@.subrange(0, i as int)).push(
            crate::text::lower_char(v@[i as int]),
        ));
        i = i + 1;
    }
    assert(v@.subrange(0, v.len() as int) =~= v@);
    r
}

fn is_controller(l: &Vec<char>) -> (r: bool)
    ensures
        r == is_controller_line(l@),
{
    let low = lower_chars(l);
    contains_sub(&low, &to_chars("vga")) || contains_sub(&low, &to_chars("3d")) || contains_sub(
        &low,
        &to_chars("display"),
    )
}

/// The name for the first of `lines` that holds one of `prefixes`.
fn first_line_for_pci_prefix(lines: &Vec<Vec<char>>, prefixes: &Vec<Vec<char>>) -> (r: Option<String>)
    ensures
        match first_where(views(lines@), pci_vendor_line(views(prefixes@))) {
            Some(i) => r matches Some(s) && s@ == pci_name(views(lines@)[i]),
            None => r is None,
        },
{
    let ghost pv = views(prefixes@);
    let ghost pred = pci_vendor_line(pv);
    let ghost lv = views(lines@);
    let mut i: usize = 0;
    while i < lines.len()
        invariant
            i <= lines.len(),
            lv == views(lines@),
            pv == views(prefixes@),
            pred == pci_vendor_line(pv),
            first_where(lv, pred) == first_where_from(lv, pred, i as int),
        decreases lines.len() - i,
    {
        assert(lv[i as int] == lines@[i as int]@);
        let mut j: usize = 0;
        let mut hit = false;
        while j < prefixes.len()
            invariant
                j <= prefixes.len(),
                i < lines.len(),
                pv == views(prefixes@),
                hit ==> exists|k: int| 0 <= k < pv.len() && contains(lines@[i as int]@, #[trigger] pv[k]),
                !hit ==> forall|k: int| 0 <= k < j ==> !contains(lines@[i as int]@, #[trigger] pv[k]),
            decreases prefixes.len() - j,
        {
            assert(pv[j as int] == prefixes@[j as int]@);
            if contains_sub(&lines[i], &prefixes[j]) {
                hit = true;
            }
            j = j + 1;
        }
        if hit {
            assert(pred(lv[i as int]));
            assert(first_where_from(lv, pred, i as int) == Some(i as int));
            return Some(name_of_line(&lines[i]));
        }
        assert(!pred(lv[i as int]));
        i = i + 1;
    }
    None
}

fn name_of_line(l: &Vec<char>) -> (r: String)
    ensures
        r@ == pci_name(l@),
{
    proof {
        reveal_strlit(": ");
    }
    let sep = to_chars(": ");
    match rfind_sub(l, &sep) {
        Some(k) => {
            proof {
                lemma_find_last_matches(l@, sep@);
                reveal_strlit(": ");
                assert(matches_at(l@, sep@, k as int));
                assert(sep@.len() == 2);
            }
            let n = l.len();
            let start = k + sep.len();
            string_from(&copy_range(l, start, n))
        },
        None => string_from(l),
    }
}

pub proof fn lemma_find_back_matches(s: Seq<char>, p: Seq<char>, i: int)
    ensures
        crate::text::find_back(s, p, i) matches Some(k) ==> matches_at(s, p, k),
    decreases i + 1,
{
    if i >= 0 && !matches_at(s, p, i) {
        lemma_find_back_matches(s, p, i - 1);
    }
}

pub proof fn lemma_find_last_matches(s: Seq<char>, p: Seq<char>)
    ensures
        find_last(s, p) matches Some(k) ==> matches_at(s, p, k),
{
    lemma_find_back_matches(s, p, s.len() - p.len());
}

fn pci_prefixes(a: &str, b: Option<&str>) -> (r: Vec<Vec<char>>)
    ensures
        b is None ==> views(r@) == seq![a@],
        b matches Some(x) ==> views(r@) == seq![a@, x@],
{
    let mut r: Vec<Vec<char>> = Vec::new();
    r.push(to_chars(a));
    match b {
        Some(x) => {
            r.push(to_chars(x));
            assert(views(r@) =~= seq![a@, x@]);
        },
        None => {
            assert(views(r@) =~= seq![a@]);
        },
    }
    r
}

/// GPU vendor and name for `lspci -nnk` output, preferring Nvidia, then
/// AMD, then Intel when a machine has several display controllers.
pub fn parse_gpu_from_lspci(lspci_nnk_output: &str) -> (g: GpuInfo)
    ensures
        g.vendor@ == lspci_gpu_of(lspci_nnk_output@).0,
        g.name@ == lspci_gpu_of(lspci_nnk_output@).1,
{
    let ls = lines_of_str(lspci_nnk_output);
    let ghost lv = views(ls@);
    let mut cl: Vec<Vec<char>> = Vec::new();
    let mut i: usize = 0;
    assert(lv.take(0) =~= Seq::<Seq<char>>::empty());
    assert(views(cl@) =~= Seq::<Seq<char>>::empty());
    while i < ls.len()
        invariant
            i <= ls.len(),
            lv == views(ls@),
            views(cl@) == keep(lv.take(i as int), controller_line()),
        decreases ls.len() - i,
    {
        let ghost before = views(cl@);
        assert(lv.take(i + 1).drop_last() =~= lv.take(i as int));
        assert(lv.take(i + 1).last() == ls@[i as int]@);
        if is_controller(&ls[i]) {
            cl.push(crate::text::clone_chars(&ls[i]));
            assert(views(cl@) =~= before.push(ls@[i as int]@));
        }
        i = i + 1;
    }
    assert(lv.take(ls.len() as int) =~= lv);
    let ghost cv = views(cl@);
    let nv = pci_prefixes("[10de:", None);
    if let Some(name) = first_line_for_pci_prefix(&cl, &nv) {
        return GpuInfo { vendor: owned("nvidia"), name };
    }
    let am = pci_prefixes("[1002:", Some("[1022:"));
    if let Some(name) = first_line_for_pci_prefix(&cl, &am) {
        return GpuInfo { vendor: owned("amd"), name };
    }
    let it = pci_prefixes("[8086:", None);
    if let Some(name) = first_line_for_pci_prefix(&cl, &it) {
        return GpuInfo { vendor: owned("intel"), name };
    }
    GpuInfo::default()
}


/// Some line of `ls` holds `id`.
pub open spec fn some_line_holds(ls: Seq<Seq<char>>, id: Seq<char>) -> bool {
    exists|i: int| 0 <= i < ls.len() && contains(#[trigger] ls[i], id)
}

/// `i` is the first line of `ls` holding one of `ids`.
pub open spec fn first_line_holding(ls: Seq<Seq<char>>, ids: Seq<Seq<char>>, i: int) -> bool {
    &&& 0 <= i < ls.len()
    &&& exists|k: int| 0 <= k < ids.len() && contains(ls[i], #[trigger] ids[k])
    &&& forall|j: int, k: int| 0 <= j < i && 0 <= k < ids.len() ==> !contains(#[trigger] ls[j], #[trigger] ids[k])
}

proof fn lemma_first_vendor_line(ls: Seq<Seq<char>>, ids: Seq<Seq<char>>)
    ensures
        first_where(ls, pci_vendor_line(ids)) matches Some(i) ==> first_line_holding(ls, ids, i),
        first_where(ls, pci_vendor_line(ids)) is None ==> forall|j: int, k: int|
            0 <= j < ls.len() && 0 <= k < ids.len() ==> !contains(#[trigger] ls[j], #[trigger] ids[k]),
{
    crate::text::lemma_first_where_from(ls, pci_vendor_line(ids), 0);
    let pred = pci_vendor_line(ids);
    match first_where(ls, pred) {
        Some(i) => {
            assert(pred(ls[i]));
            assert forall|j: int, k: int| 0 <= j < i && 0 <= k < ids.len() implies !contains(
                #[trigger] ls[j],
                #[trigger] ids[k],
            ) by {
                assert(!pred(ls[j]));
            }
        },
        None => {
            assert forall|j: int, k: int| 0 <= j < ls.len() && 0 <= k < ids.len() implies !contains(
                #[trigger] ls[j],
                #[trigger] ids[k],
            ) by {
                assert(!pred(ls[j]));
            }
        },
    }
}

/// Which display controller wins on a machine with several: Nvidia
/// (`[10de:`) whenever one is present, else AMD (`[1002:` or `[1022:`)
/// whatever Intel controllers there are, else Intel (`[8086:`), else none;
/// the name is that of the first controller line of the winning vendor.
pub proof fn law_lspci_vendor_priority(output: Seq<char>)
    ensures
        ({
            let cl = keep(lines_of(output), controller_line());
            let g = lspci_gpu_of(output);
            let nv = seq!["[10de:"@];
            let am = seq!["[1002:"@, "[1022:"@];
            let it = seq!["[8086:"@];
            &&& some_line_holds(cl, "[10de:"@) ==> g.0 == "nvidia"@ && exists|i: int|
                first_line_holding(cl, nv, i) && g.1 == pci_name(cl[i])
            &&& !some_line_holds(cl, "[10de:"@) && (some_line_holds(cl, "[1002:"@) || some_line_holds(
                cl,
                "[1022:"@,
            )) ==> g.0 == "amd"@ && exists|i: int| first_line_holding(cl, am, i) && g.1 == pci_name(cl[i])
            &&& g.0 == "intel"@ ==> !some_line_holds(cl, "[10de:"@) && !some_line_holds(cl, "[1002:"@)
                && !some_line_holds(cl, "[1022:"@) && exists|i: int| first_line_holding(cl, it, i) && g.1
                == pci_name(cl[i])
            &&& g.0 == "none"@ ==> !some_line_holds(cl, "[10de:"@) && !some_line_holds(cl, "[1002:"@)
                && !some_line_holds(cl, "[1022:"@) && !some_line_holds(cl, "[8086:"@) && g.1.len() == 0
            &&& g.0 == "nvidia"@ || g.0 == "amd"@ || g.0 == "intel"@ || g.0 == "none"@
        }),
{
    reveal_strlit("nvidia");
    reveal_strlit("amd");
    reveal_strlit("intel");
    reveal_strlit("none");
    assert("nvidia"@.len() == 6 && "amd"@.len() == 3 && "intel"@.len() == 5 && "none"@.len() == 4);
    let cl = keep(lines_of(output), controller_line());
    let nv = seq!["[10de:"@];
    let am = seq!["[1002:"@, "[1022:"@];
    let it = seq!["[8086:"@];
    lemma_first_vendor_line(cl, nv);
    lemma_first_vendor_line(cl, am);
    lemma_first_vendor_line(cl, it);
    assert(nv[0] == "[10de:"@);
    assert(am[0] == "[1002:"@ && am[1] == "[1022:"@);
    assert(it[0] == "[8086:"@);
    assert(nvidia_line() == pci_vendor_line(nv));
    assert(amd_line() == pci_vendor_line(am));
    assert(intel_line() == pci_vendor_line(it));
    assert(some_line_holds(cl, "[10de:"@) ==> first_where(cl, nvidia_line()) is Some) by {
        if some_line_holds(cl, "[10de:"@) {
            let i = choose|i: int| 0 <= i < cl.len() && contains(#[trigger] cl[i], "[10de:"@);
            assert(contains(cl[i], nv[0]));
        }
    }
    assert(some_line_holds(cl, "[1002:"@) ==> first_where(cl, amd_line()) is Some) by {
        if some_line_holds(cl, "[1002:"@) {
            let i = choose|i: int| 0 <= i < cl.len() && contains(#[trigger] cl[i], "[1002:"@);
            assert(contains(cl[i], am[0]));
        }
    }
    assert(some_line_holds(cl, "[1022:"@) ==> first_where(cl, amd_line()) is Some) by {
        if some_line_holds(cl, "[1022:"@) {
            let i = choose|i: int| 0 <= i < cl.len() && contains(#[trigger] cl[i], "[1022:"@);
            assert(contains(cl[i], am[1]));
        }
    }
    assert(some_line_holds(cl, "[8086:"@) ==> first_where(cl, intel_line()) is Some) by {
        if some_line_holds(cl, "[8086:"@) {
            let i = choose|i: int| 0 <= i < cl.len() && contains(#[trigger] cl[i], "[8086:"@);
            assert(contains(cl[i], it[0]));
        }
    }
    match first_where(cl, nvidia_line()) {
        Some(i) => {
            assert(first_line_holding(cl, nv, i));
        },
        None => match first_where(cl, amd_line()) {
            Some(i) => {
                assert(first_line_holding(cl, am, i));
            },
            None => match first_where(cl, intel_line()) {
                Some(i) => {
                    assert(first_line_holding(cl, it, i));
                },
                None => {
                    assert(!some_line_holds(cl, "[8086:"@));
                    assert(lspci_gpu_of(output).0 == "none"@);
                },
            },
        },
    }
}

// ---------------------------------------------------------------------------
// rocminfo GFX code
// ---------------------------------------------------------------------------

/// A `gfx` token starts at `i`: `gfx` followed by at least one ASCII digit.
pub open spec fn gfx_token_at(s: Seq<char>, i: int) -> bool {
    matches_at(s, "gfx"@, i) && i + 3 < s.len() && is_digit(s[i + 3])
}

/// First position at or after `i` where a `gfx` token starts.
pub open spec fn gfx_from(s: Seq<char>, i: int) -> Option<int>
    decreases s.len() + 1 - i,
{
    if i < 0 || i + 3 > s.len() {
        None
    } else if gfx_token_at(s, i) {
        Some(i)
    } else {
        gfx_from(s, i + 1)
    }
}

/// Length of the run of ASCII digits `s` starts with.
pub open spec fn digit_run(s: Seq<char>) -> nat
    decreases s.len(),
{
    if s.len() > 0 && is_digit(s[0]) {
        1 + digit_run(s.drop_first())
    } else {
        0
    }
}

/// The first `gfx` followed by one or more ASCII digits in `rocminfo`
/// output, with all of its digits.
pub open spec fn gfx_of(s: Seq<char>) -> Option<Seq<char>> {
    match gfx_from(s, 0) {
        None => None,
        Some(i) => Some(s.subrange(i, i + 3 + digit_run(s.subrange(i + 3, s.len() as int)))),
    }
}

pub proof fn lemma_digit_run_bound(s: Seq<char>)
    ensures
        digit_run(s) <= s.len(),
    decreases s.len(),
{
    if s.len() > 0 && is_digit(s[0]) {
        lemma_digit_run_bound(s.drop_first());
    }
}

/// The GFX code of an AMD GPU in `rocminfo` output, if there is one.
pub fn parse_amd_gfx(rocminfo_output: &str) -> (r: Option<String>)
    ensures
        r matches Some(g) ==> gfx_of(rocminfo_output@) == Some(g@),
        r is None ==> gfx_of(rocminfo_output@) is None,
{
    proof {
        reveal_strlit("gfx");
    }
    let v = to_chars(rocminfo_output);
    let gfx = to_chars("gfx");
    let n = v.len();
    if n < 3 {
        assert(gfx_from(v@, 0) is None);
        return None;
    }
    let mut i: usize = 0;
    while i <= n - 3
        invariant
            n >= 3,
            i <= n - 2,
            n == v.len(),
            v@ == rocminfo_output@,
            gfx@ == "gfx"@,
            gfx@.len() == 3,
            gfx_from(v@, 0) == gfx_from(v@, i as int),
        decreases n - i,
    {
        if crate::text::occurs_at(&v, &gfx, i) {
            let mut j: usize = i + 3;
            while j < n && '0' <= v[j] && v[j] <= '9'
                invariant
                    i + 3 <= j <= n,
                    n == v.len(),
                    digit_run(v@.subrange(i + 3, n as int)) == (j - i - 3) + digit_run(
                        v@.subrange(j as int, n as int),
                    ),
                decreases n - j,
            {
                assert(v@.subrange(j as int, n as int).drop_first() =~= v@.subrange(j + 1, n as int));
                j = j + 1;
            }
            if j > i + 3 {
                assert(gfx_token_at(v@, i as int));
                assert(gfx_from(v@, i as int) == Some(i as int));
                assert(digit_run(v@.subrange(j as int, n as int)) == 0);
                return Some(string_from(&copy_range(&v, i, j)));
            }
            assert(!gfx_token_at(v@, i as int));
        }
        i = i + 1;
    }
    assert(gfx_from(v@, i as int) is None);
    None
}

// ---------------------------------------------------------------------------
// HSA override
// ---------------------------------------------------------------------------

/// GFX codes that ROCm does not yet support officially, with the
/// `HSA_OVERRIDE_GFX_VERSION` value that unlocks the Vulkan fallback.
pub open spec fn gfx_override_table() -> Seq<(Seq<char>, Seq<char>)> {
    seq![("gfx1200"@, "11.5.0"@), ("gfx1201"@, "11.5.0"@)]
}

/// The override for `gfx`: the value of the first entry of the table whose
/// code is `gfx`.
pub open spec fn override_in(t: Seq<(Seq<char>, Seq<char>)>, gfx: Seq<char>) -> Option<Seq<char>>
    decreases t.len(),
{
    if t.len() == 0 {
        None
    } else if t[0].0 == gfx {
        Some(t[0].1)
    } else {
        override_in(t.drop_first(), gfx)
    }
}

pub open spec fn gfx_override_of(gfx: Seq<char>) -> Option<Seq<char>> {
    override_in(gfx_override_table(), gfx)
}

pub open spec fn pair_views(t: Seq<(&'static str, &'static str)>) -> Seq<(Seq<char>, Seq<char>)> {
    t.map_values(|p: (&'static str, &'static str)| (p.0@, p.1@))
}

/// The GFX override table as (code, HSA version) pairs; every code occurs once.
pub fn amd_gfx_override_map() -> (m: Vec<(&'static str, &'static str)>)
    ensures
        pair_views(m@) == gfx_override_table(),
{
    let mut m: Vec<(&'static str, &'static str)> = Vec::new();
    m.push(("gfx1200", "11.5.0"));
    m.push(("gfx1201", "11.5.0"));
    assert(pair_views(m@) =~= gfx_override_table());
    m
}

/// The `HSA_OVERRIDE_GFX_VERSION` a GFX code needs, `None` when ROCm
/// supports it officially (or does not know it).
pub fn amd_gfx_override(gfx: &str) -> (r: Option<&'static str>)
    ensures
        r matches Some(v) ==> gfx_override_of(gfx@) == Some(v@),
        r is None ==> gfx_override_of(gfx@) is None,
{
    let m = amd_gfx_override_map();
    let ghost t = pair_views(m@);
    let mut i: usize = 0;
    assert(t.subrange(0, t.len() as int) =~= t);
    while i < m.len()
        invariant
            i <= m.len(),
            t == pair_views(m@),
            t == gfx_override_table(),
            gfx_override_of(gfx@) == override_in(t.subrange(i as int, t.len() as int), gfx@),
        decreases m.len() - i,
    {
        let ghost rest = t.subrange(i as int, t.len() as int);
        assert(rest[0] == (m@[i as int].0@, m@[i as int].1@));
        assert(rest.drop_first() =~= t.subrange(i + 1, t.len() as int));
        if str_equals(m[i].0, gfx) {
            return Some(m[i].1);
        }
        i = i + 1;
    }
    None
}

// ---------------------------------------------------------------------------
// Windows PNPDeviceID
// ---------------------------------------------------------------------------

/// What `str::to_uppercase` returns for a string: its Unicode uppercase form.
pub uninterp spec fn unicode_upper(s: Seq<char>) -> Seq<char>;

/// `str::to_uppercase`. Claimed: the result is the uppercase form named by
/// `unicode_upper`, and for ASCII-only text it is the ASCII uppercase form.
/// The Unicode case tables themselves are not stated.
#[verifier::external_body]
fn to_uppercase(s: &str) -> (r: String)
    ensures
        r@ == unicode_upper(s@),
        is_ascii_seq(s@) ==> r@ == upper_seq(s@),
{
    s.to_uppercase()
}

pub open spec fn string_views(s: Seq<String>) -> Seq<Seq<char>> {
    s.map_values(|x: String| x@)
}

pub open spec fn vendor_id_line(id: Seq<char>) -> spec_fn(Seq<char>) -> bool {
    |l: Seq<char>| contains(l, id)
}

pub open spec fn amd_id_line() -> spec_fn(Seq<char>) -> bool {
    |l: Seq<char>| contains(l, "VEN_1002"@) || contains(l, "VEN_1022"@)
}

/// Vendor and name for Windows PNPDeviceIDs `ids` whose uppercase forms
/// are `upper`: the first id whose uppercase form names Nvidia, else AMD,
/// else Intel; the name is the id as given.
pub open spec fn pnp_gpu_of(ids: Seq<Seq<char>>, upper: Seq<Seq<char>>) -> (Seq<char>, Seq<char>) {
    match first_where(upper, vendor_id_line("VEN_10DE"@)) {
        Some(i) => ("nvidia"@, ids[i]),
        None => match first_where(upper, amd_id_line()) {
            Some(i) => ("amd"@, ids[i]),
            None => match first_where(upper, vendor_id_line("VEN_8086"@)) {
                Some(i) => ("intel"@, ids[i]),
                None => ("none"@, seq![]),
            },
        },
    }
}

fn first_upper_with(upper: &Vec<Vec<char>>, a: &str, b: Option<&str>) -> (r: Option<usize>)
    ensures
        ({
            let pred = match b {
                None => vendor_id_line(a@),
                Some(x) => |l: Seq<char>| contains(l, a@) || contains(l, x@),
            };
            &&& r matches Some(i) ==> first_where(views(upper@), pred) == Some(i as int)
            &&& r is None ==> first_where(views(upper@), pred) is None
        }),
{
    let ghost pred = match b {
        None => vendor_id_line(a@),
        Some(x) => |l: Seq<char>| contains(l, a@) || contains(l, x@),
    };
    let ghost uv = views(upper@);
    let av = to_chars(a);
    let mut i: usize = 0;
    while i < upper.len()
        invariant
            i <= upper.len(),
            uv == views(upper@),
            av@ == a@,
            pred == (match b {
                None => vendor_id_line(a@),
                Some(x) => |l: Seq<char>| contains(l, a@) || contains(l, x@),
            }),
            first_where(uv, pred) == first_where_from(uv, pred, i as int),
        decreases upper.len() - i,
    {
        assert(uv[i as int] == upper@[i as int]@);
        let hit = match b {
            None => contains_sub(&upper[i], &av),
            Some(x) => contains_sub(&upper[i], &av) || contains_sub(&upper[i], &to_chars(x)),
        };
        if hit {
            assert(first_where_from(uv, pred, i as int) == Some(i as int));
            return Some(i);
        }
        i = i + 1;
    }
    None
}

/// The GPU that Windows PNPDeviceIDs name, given the ids and their
/// uppercase forms (in the same order).
pub fn gpu_from_uppercased_pnp_ids(ids: &[String], upper: &Vec<Vec<char>>) -> (g: GpuInfo)
    requires
        ids.len() == upper.len(),
    ensures
        g.vendor@ == pnp_gpu_of(string_views(ids@), views(upper@)).0,
        g.name@ == pnp_gpu_of(string_views(ids@), views(upper@)).1,
{
    proof {
        crate::text::lemma_first_where_from(views(upper@), vendor_id_line("VEN_10DE"@), 0);
        crate::text::lemma_first_where_from(views(upper@), amd_id_line(), 0);
        crate::text::lemma_first_where_from(views(upper@), vendor_id_line("VEN_8086"@), 0);
    }
    if let Some(i) = first_upper_with(upper, "VEN_10DE", None) {
        return GpuInfo { vendor: owned("nvidia"), name: ids[i].clone() };
    }
    if let Some(i) = first_upper_with(upper, "VEN_1002", Some("VEN_1022")) {
        assert((|l: Seq<char>| contains(l, "VEN_1002"@) || contains(l, "VEN_1022"@)) =~= amd_id_line());
        return GpuInfo { vendor: owned("amd"), name: ids[i].clone() };
    }
    assert((|l: Seq<char>| contains(l, "VEN_1002"@) || contains(l, "VEN_1022"@)) =~= amd_id_line());
    if let Some(i) = first_upper_with(upper, "VEN_8086", None) {
        return GpuInfo { vendor: owned("intel"), name: ids[i].clone() };
    }
    GpuInfo::default()
}

/// GPU vendor for a list of Windows PNPDeviceIDs, matched without regard to
/// case, with the same Nvidia > AMD > Intel priority as on Linux. For ids
/// that are all ASCII, the uppercase forms are the ASCII uppercase forms.
pub fn parse_gpu_from_pnp_device_ids(ids: &[String]) -> (g: GpuInfo)
    ensures
        ({
            let upper = string_views(ids@).map_values(|s: Seq<char>| unicode_upper(s));
            &&& g.vendor@ == pnp_gpu_of(string_views(ids@), upper).0
            &&& g.name@ == pnp_gpu_of(string_views(ids@), upper).1
        }),
        (forall|k: int| 0 <= k < ids@.len() ==> is_ascii_seq(#[trigger] string_views(ids@)[k])) ==> ({
            let upper = string_views(ids@).map_values(|s: Seq<char>| upper_seq(s));
            &&& g.vendor@ == pnp_gpu_of(string_views(ids@), upper).0
            &&& g.name@ == pnp_gpu_of(string_views(ids@), upper).1
        }),
{
    let mut upper: Vec<Vec<char>> = Vec::new();
    let mut i: usize = 0;
    while i < ids.len()
        invariant
            i <= ids.len(),
            views(upper@) == string_views(ids@).subrange(0, i as int).map_values(
                |s: Seq<char>| unicode_upper(s),
            ),
            forall|k: int| 0 <= k < i && is_ascii_seq(string_views(ids@)[k]) ==> #[trigger] views(upper@)[k]
                == upper_seq(string_views(ids@)[k]),
        decreases ids.len() - i,
    {
        let u = to_uppercase(ids[i].as_str());
        let uc = to_chars(u.as_str());
        let ghost before = views(upper@);
        assert(uc@ == unicode_upper(string_views(ids@)[i as int]));
        assert(is_ascii_seq(string_views(ids@)[i as int]) ==> uc@ == upper_seq(string_views(ids@)[i as int]));
        upper.push(uc);
        assert(views(upper@) =~= before.push(uc@));
        assert(string_views(ids@).subrange(0, i + 1) =~= string_views(ids@).subrange(0, i as int).push(
            string_views(ids@)[i as int],
        ));
        assert(views(upper@) =~= string_views(ids@).subrange(0, i + 1).map_values(
            |s: Seq<char>| unicode_upper(s),
        ));
        i = i + 1;
    }
    assert(string_views(ids@).subrange(0, ids.len() as int) =~= string_views(ids@));
    proof {
        if forall|k: int| 0 <= k < ids@.len() ==> is_ascii_seq(#[trigger] string_views(ids@)[k]) {
            assert(views(upper@) =~= string_views(ids@).map_values(|s: Seq<char>| upper_seq(s)));
        }
    }
    gpu_from_uppercased_pnp_ids(ids, &upper)
}


/// The same priority for Windows device ids, matched on their uppercase
/// forms: Nvidia (`VEN_10DE`) whenever one is present, else AMD (`VEN_1002`
/// or `VEN_1022`) whatever Intel devices there are, else Intel
/// (`VEN_8086`), else none.
pub proof fn law_pnp_vendor_priority(ids: Seq<Seq<char>>, upper: Seq<Seq<char>>)
    ensures
        ({
            let g = pnp_gpu_of(ids, upper);
            &&& some_line_holds(upper, "VEN_10DE"@) ==> g.0 == "nvidia"@
            &&& !some_line_holds(upper, "VEN_10DE"@) && (some_line_holds(upper, "VEN_1002"@)
                || some_line_holds(upper, "VEN_1022"@)) ==> g.0 == "amd"@
            &&& g.0 == "intel"@ ==> !some_line_holds(upper, "VEN_10DE"@) && !some_line_holds(upper, "VEN_1002"@)
                && !some_line_holds(upper, "VEN_1022"@) && some_line_holds(upper, "VEN_8086"@)
            &&& g.0 == "none"@ ==> !some_line_holds(upper, "VEN_10DE"@) && !some_line_holds(upper, "VEN_1002"@)
                && !some_line_holds(upper, "VEN_1022"@) && !some_line_holds(upper, "VEN_8086"@)
        }),
{
    reveal_strlit("nvidia");
    reveal_strlit("amd");
    reveal_strlit("intel");
    reveal_strlit("none");
    assert("nvidia"@.len() == 6 && "amd"@.len() == 3 && "intel"@.len() == 5 && "none"@.len() == 4);
    crate::text::lemma_first_where_from(upper, vendor_id_line("VEN_10DE"@), 0);
    crate::text::lemma_first_where_from(upper, amd_id_line(), 0);
    crate::text::lemma_first_where_from(upper, vendor_id_line("VEN_8086"@), 0);
    assert(some_line_holds(upper, "VEN_10DE"@) ==> first_where(upper, vendor_id_line("VEN_10DE"@)) is Some) by {
        if some_line_holds(upper, "VEN_10DE"@) {
            let i = choose|i: int| 0 <= i < upper.len() && contains(#[trigger] upper[i], "VEN_10DE"@);
            assert(vendor_id_line("VEN_10DE"@)(upper[i]));
        }
    }
    assert(some_line_holds(upper, "VEN_1002"@) ==> first_where(upper, amd_id_line()) is Some) by {
        if some_line_holds(upper, "VEN_1002"@) {
            let i = choose|i: int| 0 <= i < upper.len() && contains(#[trigger] upper[i], "VEN_1002"@);
            assert(amd_id_line()(upper[i]));
        }
    }
    assert(some_line_holds(upper, "VEN_1022"@) ==> first_where(upper, amd_id_line()) is Some) by {
        if some_line_holds(upper, "VEN_1022"@) {
            let i = choose|i: int| 0 <= i < upper.len() && contains(#[trigger] upper[i], "VEN_1022"@);
            assert(amd_id_line()(upper[i]));
        }
    }
    assert(some_line_holds(upper, "VEN_8086"@) ==> first_where(upper, vendor_id_line("VEN_8086"@)) is Some) by {
        if some_line_holds(upper, "VEN_8086"@) {
            let i = choose|i: int| 0 <= i < upper.len() && contains(#[trigger] upper[i], "VEN_8086"@);
            assert(vendor_id_line("VEN_8086"@)(upper[i]));
        }
    }
    match first_where(upper, vendor_id_line("VEN_10DE"@)) {
        Some(i) => {},
        None => {
            assert(!some_line_holds(upper, "VEN_10DE"@));
            match first_where(upper, amd_id_line()) {
                Some(i) => {},
                None => {
                    assert(!some_line_holds(upper, "VEN_1002"@));
                    assert(!some_line_holds(upper, "VEN_1022"@));
                    match first_where(upper, vendor_id_line("VEN_8086"@)) {
                        Some(i) => {
                            assert(vendor_id_line("VEN_8086"@)(upper[i]));
                            assert(some_line_holds(upper, "VEN_8086"@));
                        },
                        None => {
                            assert(!some_line_holds(upper, "VEN_8086"@));
                        },
                    }
                },
            }
        },
    }
}

} // verus!
