//! Distribution family and display name, read from `/etc/os-release`.

use vstd::prelude::*;
use crate::install::{family_of_name, DistroFamily};
use crate::text::{
    contains, contains_sub, lines_of, lines_of_str, owned, split_once, split_once_sub, string_from,
    to_chars, trim, trim_chars, views,
};

verus! {

#[derive(Debug, Clone, PartialEq, Eq)]
pub struct DistroInfo {
    pub family: String,
    pub pretty: String,
}

impl Default for DistroInfo {
    /// Both fields `unknown`: what is reported when `/etc/os-release` is missing.
    fn default() -> (d: Self)
        ensures
            d.family@ == "unknown"@,
            d.pretty@ == "unknown"@,
    {
        DistroInfo { family: owned("unknown"), pretty: owned("unknown") }
    }
}

/// One layer of surrounding double quotes removed, when there is one.
pub open spec fn unquote(v: Seq<char>) -> Seq<char> {
    if v.len() >= 2 && v[0] == '"' && v.last() == '"' {
        v.subrange(1, v.len() - 1)
    } else {
        v
    }
}

/// The `KEY=VALUE` field a line of os-release holds: none for a blank line,
/// a `#` comment or a line without `=`; key and value trimmed, the value
/// unquoted.
pub open spec fn field_of_line(line: Seq<char>) -> Option<(Seq<char>, Seq<char>)> {
    let t = trim(line);
    if t.len() == 0 || t[0] == '#' {
        None
    } else {
        match split_once(t, "="@) {
            None => None,
            Some(kv) => Some((trim(kv.0), unquote(trim(kv.1)))),
        }
    }
}

/// The fields of a sequence of lines, in order.
pub open spec fn fields_of(ls: Seq<Seq<char>>) -> Seq<(Seq<char>, Seq<char>)>
    decreases ls.len(),
{
    if ls.len() == 0 {
        seq![]
    } else {
        match field_of_line(ls.last()) {
            Some(f) => fields_of(ls.drop_last()).push(f),
            None => fields_of(ls.drop_last()),
        }
    }
}

/// The value of `key`: a later line overrides an earlier one.
pub open spec fn lookup(fs: Seq<(Seq<char>, Seq<char>)>, key: Seq<char>) -> Option<Seq<char>>
    decreases fs.len(),
{
    if fs.len() == 0 {
        None
    } else if fs.last().0 == key {
        Some(fs.last().1)
    } else {
        lookup(fs.drop_last(), key)
    }
}

/// The family a distribution's `ID` and `ID_LIKE`, written one after the
/// other, belong to; checked in the order arch, debian/ubuntu,
/// fedora/rhel, suse.
pub open spec fn family_of_ids(ids: Seq<char>) -> Seq<char> {
    if contains(ids, "arch"@) {
        "arch"@
    } else if contains(ids, "debian"@) || contains(ids, "ubuntu"@) {
        "debian"@
    } else if contains(ids, "fedora"@) || contains(ids, "rhel"@) {
        "fedora"@
    } else if contains(ids, "suse"@) {
        "opensuse"@
    } else {
        "unknown"@
    }
}

pub open spec fn value_or(v: Option<Seq<char>>, d: Seq<char>) -> Seq<char> {
    match v {
        Some(x) => x,
        None => d,
    }
}

pub open spec fn distro_family_of(contents: Seq<char>) -> Seq<char> {
    let fs = fields_of(lines_of(contents));
    family_of_ids(value_or(lookup(fs, "ID"@), seq![]) + value_or(lookup(fs, "ID_LIKE"@), seq![]))
}

pub open spec fn distro_pretty_of(contents: Seq<char>) -> Seq<char> {
    value_or(lookup(fields_of(lines_of(contents)), "PRETTY_NAME"@), "unknown"@)
}

fn unquote_chars(v: Vec<char>) -> (r: Vec<char>)
    ensures
        r@ == unquote(v@),
{
    let n = v.len();
    if n >= 2 && v[0] == '"' && v[n - 1] == '"' {
        copy_inner(&v)
    } else {
        v
    }
}

fn copy_inner(v: &Vec<char>) -> (r: Vec<char>)
    requires
        v.len() >= 2,
    ensures
        r@ == v@.subrange(1, v.len() - 1),
{
    crate::text::copy_range(v, 1, v.len() - 1)
}

fn field_of(line: &Vec<char>) -> (r: Option<(Vec<char>, Vec<char>)>)
    ensures
        r matches Some(f) ==> field_of_line(line@) == Some((f.0@, f.1@)),
        r is None ==> field_of_line(line@) is None,
{
    let t = trim_chars(line);
    if t.len() == 0 || t[0] == '#' {
        return None;
    }
    let eq = to_chars("=");
    match split_once_sub(&t, &eq) {
        None => None,
        Some(kv) => {
            let key = trim_chars(&kv.0);
            let value = unquote_chars(trim_chars(&kv.1));
            Some((key, value))
        },
    }
}

pub open spec fn field_views(fs: Seq<(Vec<char>, Vec<char>)>) -> Seq<(Seq<char>, Seq<char>)> {
    fs.map_values(|f: (Vec<char>, Vec<char>)| (f.0@, f.1@))
}

/// The `KEY=VALUE` fields of os-release contents, in file order.
fn parse_os_release_fields(contents: &str) -> (r: Vec<(Vec<char>, Vec<char>)>)
    ensures
        field_views(r@) == fields_of(lines_of(contents@)),
{
    let ls = lines_of_str(contents);
    let ghost lv = views(ls@);
    let mut out: Vec<(Vec<char>, Vec<char>)> = Vec::new();
    let mut i: usize = 0;
    assert(lv.take(0) =~= Seq::<Seq<char>>::empty());
    assert(field_views(out@) =~= Seq::<(Seq<char>, Seq<char>)>::empty());
    while i < ls.len()
        invariant
            i <= ls.len(),
            lv == views(ls@),
            lv == lines_of(contents@),
            field_views(out@) == fields_of(lv.take(i as int)),
        decreases ls.len() - i,
    {
        let ghost before = field_views(out@);
        assert(lv.take(i + 1).drop_last() =~= lv.take(i as int));
        assert(lv.take(i + 1).last() == ls@[i as int]@);
        match field_of(&ls[i]) {
            Some(f) => {
                out.push(f);
                assert(field_views(out@) =~= before.push((f.0@, f.1@)));
            },
            None => {},
        }
        i = i + 1;
    }
    assert(lv.take(ls.len() as int) =~= lv);
    out
}

fn lookup_field(fs: &Vec<(Vec<char>, Vec<char>)>, key: &Vec<char>) -> (r: Option<Vec<char>>)
    ensures
        r matches Some(v) ==> lookup(field_views(fs@), key@) == Some(v@),
        r is None ==> lookup(field_views(fs@), key@) is None,
{
    let ghost all = field_views(fs@);
    let mut i: usize = fs.len();
    assert(all.take(i as int) =~= all);
    while i > 0
        invariant
            i <= fs.len(),
            all == field_views(fs@),
            lookup(all, key@) == lookup(all.take(i as int), key@),
        decreases i,
    {
        let ghost pre = all.take(i as int);
        assert(pre.last() == (fs@[i - 1].0@, fs@[i - 1].1@));
        assert(pre.drop_last() =~= all.take(i - 1));
        if same_key(&fs[i - 1].0, key) {
            return Some(crate::text::clone_chars(&fs[i - 1].1));
        }
        i = i - 1;
    }
    None
}

fn same_key(a: &Vec<char>, b: &Vec<char>) -> (r: bool)
    ensures
        r == (a@ == b@),
{
    crate::text::same_chars(a, b)
}


fn family_name(ids: &Vec<char>) -> (r: &'static str)
    ensures
        r@ == family_of_ids(ids@),
{
    if contains_sub(ids, &to_chars("arch")) {
        "arch"
    } else if contains_sub(ids, &to_chars("debian")) || contains_sub(ids, &to_chars("ubuntu")) {
        "debian"
    } else if contains_sub(ids, &to_chars("fedora")) || contains_sub(ids, &to_chars("rhel")) {
        "fedora"
    } else if contains_sub(ids, &to_chars("suse")) {
        "opensuse"
    } else {
        "unknown"
    }
}

/// Family and display name of the distribution whose `/etc/os-release`
/// holds `os_release` (`None` when the file does not exist).
pub fn parse_distro(os_release: Option<&str>) -> (d: DistroInfo)
    ensures
        os_release is None ==> d.family@ == "unknown"@ && d.pretty@ == "unknown"@,
        os_release matches Some(c) ==> d.family@ == distro_family_of(c@) && d.pretty@
            == distro_pretty_of(c@),
{
    let contents = match os_release {
        None => {
            return DistroInfo::default();
        },
        Some(c) => c,
    };
    let fields = parse_os_release_fields(contents);
    let id = match lookup_field(&fields, &to_chars("ID")) {
        Some(v) => v,
        None => Vec::new(),
    };
    let id_like = match lookup_field(&fields, &to_chars("ID_LIKE")) {
        Some(v) => v,
        None => Vec::new(),
    };
    let pretty = match lookup_field(&fields, &to_chars("PRETTY_NAME")) {
        Some(v) => string_from(&v),
        None => owned("unknown"),
    };
    let mut combined = id;
    let mut extra = id_like;
    let ghost a = combined@;
    let ghost b = extra@;
    combined.append(&mut extra);
    assert(combined@ == a + b);
    DistroInfo { family: owned(family_name(&combined)), pretty }
}


/// The family an `ID`/`ID_LIKE` text names, as the install plans take it:
/// anything naming arch is Arch; else anything naming debian or ubuntu
/// (Pop!_OS, Mint, Zorin...) is Debian; else fedora or rhel is Fedora; else
/// suse is openSUSE; anything else is unknown.
pub proof fn law_family_follows_the_id_words(ids: Seq<char>)
    ensures
        contains(ids, "arch"@) ==> family_of_name(family_of_ids(ids)) == DistroFamily::Arch,
        !contains(ids, "arch"@) && (contains(ids, "debian"@) || contains(ids, "ubuntu"@)) ==> family_of_name(
            family_of_ids(ids),
        ) == DistroFamily::Debian,
        !contains(ids, "arch"@) && !contains(ids, "debian"@) && !contains(ids, "ubuntu"@) && (contains(
            ids,
            "fedora"@,
        ) || contains(ids, "rhel"@)) ==> family_of_name(family_of_ids(ids)) == DistroFamily::Fedora,
        !contains(ids, "arch"@) && !contains(ids, "debian"@) && !contains(ids, "ubuntu"@) && !contains(
            ids,
            "fedora"@,
        ) && !contains(ids, "rhel"@) && contains(ids, "suse"@) ==> family_of_name(family_of_ids(ids))
            == DistroFamily::OpenSuse,
        !contains(ids, "arch"@) && !contains(ids, "debian"@) && !contains(ids, "ubuntu"@) && !contains(
            ids,
            "fedora"@,
        ) && !contains(ids, "rhel"@) && !contains(ids, "suse"@) ==> family_of_name(family_of_ids(ids))
            == DistroFamily::Unknown,
{
    reveal_strlit("arch");
    reveal_strlit("debian");
    reveal_strlit("fedora");
    reveal_strlit("opensuse");
    reveal_strlit("unknown");
    assert("arch"@.len() == 4 && "debian"@.len() == 6 && "fedora"@.len() == 6 && "opensuse"@.len() == 8
        && "unknown"@.len() == 7);
    assert("debian"@[0] != "fedora"@[0]);
}

} // verus!
