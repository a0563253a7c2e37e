//! CPU model and thread count, for display only.

use vstd::prelude::*;
use crate::text::{
    first_where, first_where_from, lines_of, lines_of_str, owned, parse_unsigned, parse_unsigned_chars,
    split_once, split_once_sub, starts_with, starts_with_sub, string_from, to_chars, trim, trim_chars,
    trim_str, views,
};

verus! {

pub open spec fn is_model_name_line(line: Seq<char>) -> bool {
    starts_with(line, "model name"@)
}

pub open spec fn model_name_line() -> spec_fn(Seq<char>) -> bool {
    |l: Seq<char>| is_model_name_line(l)
}

/// The model name shown for `/proc/cpuinfo` contents: the text after the
/// first `": "` of the first line starting with `model name`, trimmed;
/// `unknown` when there is no such line, no `": "` on it, or nothing after it.
pub open spec fn cpu_model_of(cpuinfo: Seq<char>) -> Seq<char> {
    let ls = lines_of(cpuinfo);
    match first_where(ls, model_name_line()) {
        None => "unknown"@,
        Some(i) => match split_once(ls[i], ": "@) {
            None => "unknown"@,
            Some(parts) => if trim(parts.1).len() == 0 {
                "unknown"@
            } else {
                trim(parts.1)
            },
        },
    }
}

/// Reads the CPU model out of `/proc/cpuinfo` contents.
pub fn parse_cpu_model(proc_cpuinfo: &str) -> (r: String)
    ensures
        r@ == cpu_model_of(proc_cpuinfo@),
{
    let ls = lines_of_str(proc_cpuinfo);
    let prefix = to_chars("model name");
    let sep = to_chars(": ");
    let ghost pred = model_name_line();
    let ghost lv = views(ls@);
    let mut i: usize = 0;
    while i < ls.len()
        invariant
            i <= ls.len(),
            lv == views(ls@),
            lv == lines_of(proc_cpuinfo@),
            prefix@ == "model name"@,
            sep@ == ": "@,
            pred == model_name_line(),
            first_where(lv, pred) == first_where_from(lv, pred, i as int),
        decreases ls.len() - i,
    {
        assert(lv[i as int] == ls@[i as int]@);
        if starts_with_sub(&ls[i], &prefix) {
            assert(first_where_from(lv, pred, i as int) == Some(i as int));
            return match split_once_sub(&ls[i], &sep) {
                None => owned("unknown"),
                Some(parts) => {
                    let value = trim_chars(&parts.1);
                    if value.len() == 0 {
                        owned("unknown")
                    } else {
                        string_from(&value)
                    }
                },
            };
        }
        i = i + 1;
    }
    assert(first_where_from(lv, pred, i as int) is None);
    owned("unknown")
}

/// The thread count for `nproc` output: the trimmed text read as a `u32`,
/// `1` when it is not one.
pub open spec fn cpu_threads_of(nproc_output: Seq<char>) -> nat {
    match parse_unsigned(trim(nproc_output), u32::MAX as nat) {
        Some(n) => n,
        None => 1,
    }
}

/// Reads the logical CPU count out of `nproc` output.
pub fn parse_cpu_threads(nproc_output: &str) -> (r: u32)
    ensures
        r == cpu_threads_of(nproc_output@),
{
    let t = trim_str(nproc_output);
    match parse_unsigned_chars(&t, u32::MAX as u64) {
        Some(n) => n as u32,
        None => 1,
    }
}


/// The model shown comes from the first line that starts with the whole key
/// `model name` (a `model` line holding the numeric model is no such line):
/// it is the trimmed text after that line's first `": "`, or `unknown` when
/// that line has none or nothing after it, and `unknown` when no line
/// starts with `model name`.
pub proof fn law_cpu_model_comes_from_the_model_name_line(cpuinfo: Seq<char>)
    ensures
        ({
            let ls = lines_of(cpuinfo);
            let m = cpu_model_of(cpuinfo);
            &&& (forall|j: int| 0 <= j < ls.len() ==> !starts_with(#[trigger] ls[j], "model name"@)) ==> m
                == "unknown"@
            &&& m != "unknown"@ ==> exists|i: int|
                0 <= i < ls.len() && starts_with(#[trigger] ls[i], "model name"@) && (forall|j: int|
                    0 <= j < i ==> !starts_with(#[trigger] ls[j], "model name"@)) && (split_once(ls[i], ": "@) matches Some(
                    parts,
                ) && m == trim(parts.1))
        }),
{
    let ls = lines_of(cpuinfo);
    let pred = model_name_line();
    crate::text::lemma_first_where_from(ls, pred, 0);
    match first_where(ls, pred) {
        Some(i) => {
            assert(pred(ls[i]));
            assert forall|j: int| 0 <= j < i implies !starts_with(#[trigger] ls[j], "model name"@) by {
                assert(!pred(ls[j]));
            }
        },
        None => {
            assert forall|j: int| 0 <= j < ls.len() implies !starts_with(#[trigger] ls[j], "model name"@) by {
                assert(!pred(ls[j]));
            }
        },
    }
}

/// A line `model<TAB><TAB>: N`, as `/proc/cpuinfo` has on x86 just before
/// the `model name` line, never starts with the key `model name`.
pub proof fn law_numeric_model_line_is_not_the_model_name(value: Seq<char>)
    ensures
        !starts_with("model\t\t: "@ + value, "model name"@),
{
    reveal_strlit("model\t\t: ");
    reveal_strlit("model name");
    let l = "model\t\t: "@ + value;
    assert(l[5] == '\t');
    assert("model name"@[5] == ' ');
    assert("model\t\t: "@.len() == 9);
    if starts_with(l, "model name"@) {
        assert(l.subrange(0, 10)[5] == l[5]);
    }
}

} // verus!
