//! Installed RAM, read from `free -g` / `free -m` output.

use vstd::prelude::*;
use crate::text::{
    first_where, first_where_from, lines_of, lines_of_str, parse_unsigned, parse_unsigned_chars,
    split_whitespace, starts_with, starts_with_sub, to_chars, views, words,
};

verus! {

pub open spec fn mem_line() -> spec_fn(Seq<char>) -> bool {
    |l: Seq<char>| starts_with(l, "Mem:"@)
}

/// The total column of the first `Mem:` line of `free` output: its second
/// whitespace-separated field read as a `u64`.
pub open spec fn free_total_of(output: Seq<char>) -> Option<nat> {
    let ls = lines_of(output);
    match first_where(ls, mem_line()) {
        None => None,
        Some(i) => {
            let w = words(ls[i]);
            if w.len() > 1 {
                parse_unsigned(w[1], u64::MAX as nat)
            } else {
                None
            }
        },
    }
}

/// Gigabytes of RAM: the `free -g` total when it is above zero; otherwise
/// the `free -m` total divided by 1024 (rounding down) plus one.
pub open spec fn ram_gb_of(free_g: Seq<char>, free_m: Seq<char>) -> nat {
    let gb = match free_total_of(free_g) {
        Some(n) => n,
        None => 0,
    };
    if gb == 0 {
        let mb = match free_total_of(free_m) {
            Some(n) => n,
            None => 0,
        };
        mb / 1024 + 1
    } else {
        gb
    }
}

fn parse_free_total(output: &str) -> (r: Option<u64>)
    ensures
        r matches Some(n) ==> free_total_of(output@) == Some(n as nat),
        r is None ==> free_total_of(output@) is None,
{
    let ls = lines_of_str(output);
    let prefix = to_chars("Mem:");
    let ghost lv = views(ls@);
    let mut i: usize = 0;
    while i < ls.len()
        invariant
            i <= ls.len(),
            lv == views(ls@),
            lv == lines_of(output@),
            prefix@ == "Mem:"@,
            first_where(lv, mem_line()) == first_where_from(lv, mem_line(), i as int),
        decreases ls.len() - i,
    {
        assert(lv[i as int] == ls@[i as int]@);
        if starts_with_sub(&ls[i], &prefix) {
            assert(first_where_from(lv, mem_line(), i as int) == Some(i as int));
            let w = split_whitespace(&ls[i]);
            assert(views(w@) == words(lv[i as int]));
            if w.len() > 1 {
                assert(views(w@)[1] == w@[1]@);
                return parse_unsigned_chars(&w[1], u64::MAX);
            } else {
                return None;
            }
        }
        i = i + 1;
    }
    None
}

/// Gigabytes of RAM from `free -g` and `free -m` output. Never zero: a
/// machine that `free -g` rounds down to 0 GB falls back to `free -m`.
pub fn compute_ram_gb(free_g_output: &str, free_m_output: &str) -> (r: u64)
    ensures
        r == ram_gb_of(free_g_output@, free_m_output@),
        r >= 1,
{
    let gb = match parse_free_total(free_g_output) {
        Some(n) => n,
        None => 0,
    };
    if gb == 0 {
        let mb = match parse_free_total(free_m_output) {
            Some(n) => n,
            None => 0,
        };
        mb / 1024 + 1
    } else {
        gb
    }
}

} // verus!
