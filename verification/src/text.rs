//! Character-level text processing shared by every parser in the library:
//! line splitting, trimming, whitespace splitting, substring search and
//! decimal parsing, each specified over `Seq<char>`.

use vstd::prelude::*;

verus! {

// ---------------------------------------------------------------------------
// Character classes
// ---------------------------------------------------------------------------

/// The Unicode `White_Space` property, the set `char::is_whitespace` tests.
pub open spec fn is_ws(c: char) -> bool {
    let u = c as u32;
    ||| (0x09 <= u && u <= 0x0D)
    ||| u == 0x20
    ||| u == 0x85
    ||| u == 0xA0
    ||| u == 0x1680
    ||| (0x2000 <= u && u <= 0x200A)
    ||| u == 0x2028
    ||| u == 0x2029
    ||| u == 0x202F
    ||| u == 0x205F
    ||| u == 0x3000
}

pub fn is_whitespace(c: char) -> (b: bool)
    ensures
        b == is_ws(c),
{
    let u = c as u32;
    (0x09 <= u && u <= 0x0D) || u == 0x20 || u == 0x85 || u == 0xA0 || u == 0x1680 || (0x2000 <= u
        && u <= 0x200A) || u == 0x2028 || u == 0x2029 || u == 0x202F || u == 0x205F || u == 0x3000
}

pub open spec fn is_digit(c: char) -> bool {
    '0' <= c && c <= '9'
}

pub open spec fn is_upper_ascii(c: char) -> bool {
    'A' <= c && c <= 'Z'
}

pub open spec fn is_lower_ascii(c: char) -> bool {
    'a' <= c && c <= 'z'
}

/// `char::to_ascii_lowercase`: ASCII capitals map to their small letter,
/// every other character is left as it is.
pub open spec fn lower_char(c: char) -> char {
    if is_upper_ascii(c) {
        ((c as u32) + 32) as char
    } else {
        c
    }
}

/// `char::to_ascii_uppercase`.
pub open spec fn upper_char(c: char) -> char {
    if is_lower_ascii(c) {
        ((c as u32) - 32) as char
    } else {
        c
    }
}

pub open spec fn lower_seq(s: Seq<char>) -> Seq<char> {
    s.map_values(|c: char| lower_char(c))
}

pub open spec fn upper_seq(s: Seq<char>) -> Seq<char> {
    s.map_values(|c: char| upper_char(c))
}

pub open spec fn is_ascii_seq(s: Seq<char>) -> bool {
    forall|i: int| 0 <= i < s.len() ==> (s[i] as u32) < 128
}

pub fn to_lower_ascii(c: char) -> (r: char)
    ensures
        r == lower_char(c),
{
    if 'A' <= c && c <= 'Z' {
        ((c as u8) + 32) as char
    } else {
        c
    }
}

// ---------------------------------------------------------------------------
// Conversions between `str`/`String` and `Vec<char>`
// ---------------------------------------------------------------------------

pub open spec fn views(s: Seq<Vec<char>>) -> Seq<Seq<char>> {
    s.map_values(|x: Vec<char>| x@)
}

pub fn to_chars(s: &str) -> (v: Vec<char>)
    ensures
        v@ == s@,
{
    let mut v: Vec<char> = Vec::new();
    for c in it: s.chars()
        invariant
            v@ == it.seq().take(it.index() as int),
            it.seq() == s@,
    {
        v.push(c);
    }
    v
}

/// `String::push`: appends one character.
#[verifier::external_body]
pub(crate) fn push_char(s: &mut String, c: char)
    ensures
        final(s)@ == old(s)@.push(c),
{
    s.push(c);
}

pub fn string_from(v: &Vec<char>) -> (s: String)
    ensures
        s@ == v@,
{
    let mut s = String::new();
    let mut i: usize = 0;
    while i < v.len()
        invariant
            i <= v.len(),
            s@ == v@.subrange(0, i as int),
        decreases v.len() - i,
    {
        push_char(&mut s, v[i]);
        assert(v@.subrange(0, i + 1) =~= v@.subrange(0, i as int).push(v@[i as int]));
        i = i + 1;
    }
    assert(v@.subrange(0, v.len() as int) =~= v@);
    s
}

pub fn copy_range(v: &Vec<char>, lo: usize, hi: usize) -> (r: Vec<char>)
    requires
        lo <= hi <= v.len(),
    ensures
        r@ == v@.subrange(lo as int, hi as int),
{
    let mut r: Vec<char> = Vec::new();
    let mut i: usize = lo;
    while i < hi
        invariant
            lo <= i <= hi,
            hi <= v.len(),
            r@ == v@.subrange(lo as int, i as int),
        decreases hi - i,
    {
        r.push(v[i]);
        assert(v@.subrange(lo as int, i + 1) =~= v@.subrange(lo as int, i as int).push(v@[i as int]));
        i = i + 1;
    }
    r
}

pub fn clone_chars(v: &Vec<char>) -> (r: Vec<char>)
    ensures
        r@ == v@,
{
    let r = copy_range(v, 0, v.len());
    assert(v@.subrange(0, v.len() as int) =~= v@);
    r
}

pub fn same_chars(a: &Vec<char>, b: &Vec<char>) -> (r: bool)
    ensures
        r == (a@ == b@),
{
    if a.len() != b.len() {
        return false;
    }
    let mut i: usize = 0;
    while i < a.len()
        invariant
            a.len() == b.len(),
            i <= a.len(),
            forall|k: int| 0 <= k < i ==> a@[k] == b@[k],
        decreases a.len() - i,
    {
        if a[i] != b[i] {
            return false;
        }
        i = i + 1;
    }
    assert(a@ =~= b@);
    true
}

pub fn str_equals(a: &str, b: &str) -> (r: bool)
    ensures
        r == (a@ == b@),
{
    let x = to_chars(a);
    let y = to_chars(b);
    same_chars(&x, &y)
}

// ---------------------------------------------------------------------------
// Substring search
// ---------------------------------------------------------------------------

pub open spec fn matches_at(s: Seq<char>, p: Seq<char>, i: int) -> bool {
    0 <= i && i + p.len() <= s.len() && s.subrange(i, i + p.len()) == p
}

/// Leftmost position at or after `i` where `p` occurs in `s`.
pub open spec fn find_from(s: Seq<char>, p: Seq<char>, i: int) -> Option<int>
    decreases s.len() + 1 - i,
{
    if i < 0 || i + p.len() > s.len() {
        None
    } else if matches_at(s, p, i) {
        Some(i)
    } else {
        find_from(s, p, i + 1)
    }
}

pub open spec fn find_first(s: Seq<char>, p: Seq<char>) -> Option<int> {
    find_from(s, p, 0)
}

/// Rightmost position at or before `i` where `p` occurs in `s`.
pub open spec fn find_back(s: Seq<char>, p: Seq<char>, i: int) -> Option<int>
    decreases i + 1,
{
    if i < 0 {
        None
    } else if matches_at(s, p, i) {
        Some(i)
    } else {
        find_back(s, p, i - 1)
    }
}

pub open spec fn find_last(s: Seq<char>, p: Seq<char>) -> Option<int> {
    find_back(s, p, s.len() - p.len())
}

pub open spec fn contains(s: Seq<char>, p: Seq<char>) -> bool {
    find_first(s, p) is Some
}

pub open spec fn starts_with(s: Seq<char>, p: Seq<char>) -> bool {
    matches_at(s, p, 0)
}

/// `str::split_once`: the text before and after the first occurrence of `p`.
pub open spec fn split_once(s: Seq<char>, p: Seq<char>) -> Option<(Seq<char>, Seq<char>)> {
    match find_first(s, p) {
        Some(i) => Some((s.subrange(0, i), s.subrange(i + p.len(), s.len() as int))),
        None => None,
    }
}

/// `str::strip_prefix`.
pub open spec fn strip_prefix(s: Seq<char>, p: Seq<char>) -> Option<Seq<char>> {
    if starts_with(s, p) {
        Some(s.subrange(p.len() as int, s.len() as int))
    } else {
        None
    }
}

pub proof fn lemma_find_from_bounds(s: Seq<char>, p: Seq<char>, i: int)
    requires
        0 <= i,
    ensures
        find_from(s, p, i) matches Some(k) ==> i <= k && matches_at(s, p, k) && forall|j: int|
            i <= j < k ==> !#[trigger] matches_at(s, p, j),
        find_from(s, p, i) is None ==> forall|j: int| i <= j ==> !#[trigger] matches_at(s, p, j),
    decreases s.len() + 1 - i,
{
    if i + p.len() > s.len() {
    } else if matches_at(s, p, i) {
    } else {
        lemma_find_from_bounds(s, p, i + 1);
    }
}

/// Whether `p` occurs in `h` at position `i`.
pub fn occurs_at(h: &Vec<char>, p: &Vec<char>, i: usize) -> (r: bool)
    ensures
        r == matches_at(h@, p@, i as int),
{
    if i > h.len() || p.len() > h.len() - i {
        return false;
    }
    let mut k: usize = 0;
    while k < p.len()
        invariant
            i + p.len() <= h.len(),
            k <= p.len(),
            forall|j: int| 0 <= j < k ==> h@[i + j] == p@[j],
        decreases p.len() - k,
    {
        if h[i + k] != p[k] {
            assert(h@.subrange(i as int, i + p.len())[k as int] != p@[k as int]);
            return false;
        }
        k = k + 1;
    }
    assert(h@.subrange(i as int, i + p.len()) =~= p@);
    true
}

/// Leftmost occurrence of `p` in `h` at or after `from`.
pub fn find_sub_from(h: &Vec<char>, p: &Vec<char>, from: usize) -> (r: Option<usize>)
    ensures
        r matches Some(k) ==> find_from(h@, p@, from as int) == Some(k as int),
        r is None ==> find_from(h@, p@, from as int) is None,
{
    if from > h.len() || p.len() > h.len() - from {
        return None;
    }
    let last = h.len() - p.len();
    let mut i: usize = from;
    loop
        invariant
            from <= i <= last,
            last == h.len() - p.len(),
            p.len() <= h.len(),
            find_from(h@, p@, from as int) == find_from(h@, p@, i as int),
        decreases last - i,
    {
        if occurs_at(h, p, i) {
            return Some(i);
        }
        if i == last {
            assert(find_from(h@, p@, i + 1) is None);
            return None;
        }
        i = i + 1;
    }
}

pub fn find_sub(h: &Vec<char>, p: &Vec<char>) -> (r: Option<usize>)
    ensures
        r matches Some(k) ==> find_first(h@, p@) == Some(k as int),
        r is None ==> find_first(h@, p@) is None,
{
    find_sub_from(h, p, 0)
}

pub fn contains_sub(h: &Vec<char>, p: &Vec<char>) -> (r: bool)
    ensures
        r == contains(h@, p@),
{
    find_sub(h, p).is_some()
}

pub fn starts_with_sub(h: &Vec<char>, p: &Vec<char>) -> (r: bool)
    ensures
        r == starts_with(h@, p@),
{
    occurs_at(h, p, 0)
}

/// Rightmost occurrence of `p` in `h`.
pub fn rfind_sub(h: &Vec<char>, p: &Vec<char>) -> (r: Option<usize>)
    ensures
        r matches Some(k) ==> find_last(h@, p@) == Some(k as int),
        r is None ==> find_last(h@, p@) is None,
{
    if p.len() > h.len() {
        return None;
    }
    let mut i: usize = h.len() - p.len();
    loop
        invariant
            i <= h.len() - p.len(),
            p.len() <= h.len(),
            find_last(h@, p@) == find_back(h@, p@, i as int),
        decreases i,
    {
        if occurs_at(h, p, i) {
            return Some(i);
        }
        if i == 0 {
            assert(find_back(h@, p@, -1) is None);
            return None;
        }
        i = i - 1;
    }
}

/// `str::split_once` on characters.
pub fn split_once_sub(h: &Vec<char>, p: &Vec<char>) -> (r: Option<(Vec<char>, Vec<char>)>)
    ensures
        r matches Some(x) ==> split_once(h@, p@) == Some((x.0@, x.1@)),
        r is None ==> split_once(h@, p@) is None,
{
    match find_sub(h, p) {
        Some(k) => {
            proof {
                assert(find_from(h@, p@, 0) == Some(k as int));
                lemma_find_from_bounds(h@, p@, 0);
                assert(matches_at(h@, p@, k as int));
                assert(k + p.len() <= h.len());
            }
            let a = copy_range(h, 0, k);
            let b = copy_range(h, k + p.len(), h.len());
            Some((a, b))
        },
        None => None,
    }
}

/// `str::strip_prefix` on characters.
pub fn strip_prefix_sub(h: &Vec<char>, p: &Vec<char>) -> (r: Option<Vec<char>>)
    ensures
        r matches Some(x) ==> strip_prefix(h@, p@) == Some(x@),
        r is None ==> strip_prefix(h@, p@) is None,
{
    if occurs_at(h, p, 0) {
        Some(copy_range(h, p.len(), h.len()))
    } else {
        None
    }
}


// ---------------------------------------------------------------------------
// Lines
// ---------------------------------------------------------------------------

/// Position of the first `c` in `s`, or `s.len()` when there is none.
pub open spec fn char_pos(s: Seq<char>, c: char) -> nat
    decreases s.len(),
{
    if s.len() == 0 {
        0
    } else if s[0] == c {
        0
    } else {
        1 + char_pos(s.drop_first(), c)
    }
}

pub open spec fn strip_cr(t: Seq<char>) -> Seq<char> {
    if t.len() > 0 && t.last() == '\r' {
        t.drop_last()
    } else {
        t
    }
}

/// `str::lines`: pieces separated by `\n`, a `\r` right before a `\n`
/// removed, and no empty piece after a final `\n`.
pub open spec fn lines_of(s: Seq<char>) -> Seq<Seq<char>>
    decreases s.len(),
{
    if s.len() == 0 {
        seq![]
    } else {
        let k = char_pos(s, '\n');
        if k >= s.len() {
            seq![s]
        } else {
            seq![strip_cr(s.subrange(0, k as int))].add(lines_of(s.subrange(k + 1 as int, s.len() as int)))
        }
    }
}

pub proof fn lemma_char_pos_bound(s: Seq<char>, c: char)
    ensures
        char_pos(s, c) <= s.len(),
        char_pos(s, c) < s.len() ==> s[char_pos(s, c) as int] == c,
        forall|k: int| 0 <= k < char_pos(s, c) ==> s[k] != c,
    decreases s.len(),
{
    if s.len() > 0 && s[0] != c {
        lemma_char_pos_bound(s.drop_first(), c);
        assert forall|k: int| 0 <= k < char_pos(s, c) implies s[k] != c by {
            if k > 0 {
                assert(s[k] == s.drop_first()[k - 1]);
            }
        }
    }
}

/// Position of the first `c` in `v` at or after `start`.
pub fn find_char_from(v: &Vec<char>, c: char, start: usize) -> (r: usize)
    requires
        start <= v.len(),
    ensures
        start <= r <= v.len(),
        r == start + char_pos(v@.subrange(start as int, v.len() as int), c),
{
    let mut j: usize = start;
    while j < v.len() && v[j] != c
        invariant
            start <= j <= v.len(),
            char_pos(v@.subrange(start as int, v.len() as int), c) == (j - start) + char_pos(
                v@.subrange(j as int, v.len() as int),
                c,
            ),
        decreases v.len() - j,
    {
        assert(v@.subrange(j as int, v.len() as int).drop_first() =~= v@.subrange(
            j + 1,
            v.len() as int,
        ));
        j = j + 1;
    }
    j
}

pub fn strip_trailing_cr(t: Vec<char>) -> (r: Vec<char>)
    ensures
        r@ == strip_cr(t@),
{
    let mut t = t;
    if t.len() > 0 && t[t.len() - 1] == '\r' {
        t.pop();
    }
    t
}

/// `str::lines` on characters.
pub fn split_lines(v: &Vec<char>) -> (out: Vec<Vec<char>>)
    ensures
        views(out@) == lines_of(v@),
{
    let n = v.len();
    let mut start: usize = 0;
    let mut out: Vec<Vec<char>> = Vec::new();
    assert(v@.subrange(0, n as int) =~= v@);
    assert(views(out@) + lines_of(v@) =~= lines_of(v@));
    while start < n
        invariant
            n == v.len(),
            start <= n,
            lines_of(v@) == views(out@) + lines_of(v@.subrange(start as int, n as int)),
        decreases n - start,
    {
        let ghost rest = v@.subrange(start as int, n as int);
        let ghost before = views(out@);
        let k = find_char_from(v, '\n', start);
        if k == n {
            let piece = copy_range(v, start, n);
            out.push(piece);
            assert(views(out@) =~= before.push(rest));
            assert(v@.subrange(n as int, n as int) =~= Seq::<char>::empty());
            assert(lines_of(rest) == seq![rest]);
            assert(before + seq![rest] =~= before.push(rest));
            start = n;
        } else {
            let piece = strip_trailing_cr(copy_range(v, start, k));
            out.push(piece);
            assert(rest.subrange(0, (k - start) as int) =~= v@.subrange(start as int, k as int));
            assert(rest.subrange(k - start + 1, rest.len() as int) =~= v@.subrange(
                k + 1,
                n as int,
            ));
            assert(views(out@) =~= before.push(piece@));
            assert(lines_of(rest) == seq![piece@].add(lines_of(v@.subrange(k + 1, n as int))));
            assert(before + lines_of(rest) =~= before.push(piece@) + lines_of(
                v@.subrange(k + 1, n as int),
            ));
            start = k + 1;
        }
    }
    assert(v@.subrange(n as int, n as int) =~= Seq::<char>::empty());
    assert(views(out@) + seq![] =~= views(out@));
    out
}

pub fn lines_of_str(s: &str) -> (out: Vec<Vec<char>>)
    ensures
        views(out@) == lines_of(s@),
{
    let v = to_chars(s);
    split_lines(&v)
}

// ---------------------------------------------------------------------------
// Trimming and whitespace splitting
// ---------------------------------------------------------------------------

pub open spec fn trim_start(s: Seq<char>) -> Seq<char>
    decreases s.len(),
{
    if s.len() > 0 && is_ws(s[0]) {
        trim_start(s.drop_first())
    } else {
        s
    }
}

pub open spec fn trim_end(s: Seq<char>) -> Seq<char>
    decreases s.len(),
{
    if s.len() > 0 && is_ws(s.last()) {
        trim_end(s.drop_last())
    } else {
        s
    }
}

/// `str::trim`: whitespace removed from both ends.
pub open spec fn trim(s: Seq<char>) -> Seq<char> {
    trim_end(trim_start(s))
}

pub fn trim_chars(v: &Vec<char>) -> (r: Vec<char>)
    ensures
        r@ == trim(v@),
{
    let n = v.len();
    let mut i: usize = 0;
    assert(v@.subrange(0, n as int) =~= v@);
    while i < n && is_whitespace(v[i])
        invariant
            n == v.len(),
            i <= n,
            trim_start(v@) == trim_start(v@.subrange(i as int, n as int)),
        decreases n - i,
    {
        assert(v@.subrange(i as int, n as int).drop_first() =~= v@.subrange(i + 1, n as int));
        i = i + 1;
    }
    let mut j: usize = n;
    while j > i && is_whitespace(v[j - 1])
        invariant
            n == v.len(),
            i <= j <= n,
            trim_end(v@.subrange(i as int, n as int)) == trim_end(v@.subrange(i as int, j as int)),
        decreases j,
    {
        assert(v@.subrange(i as int, j as int).drop_last() =~= v@.subrange(i as int, j - 1));
        j = j - 1;
    }
    copy_range(v, i, j)
}

pub fn trim_str(s: &str) -> (r: Vec<char>)
    ensures
        r@ == trim(s@),
{
    let v = to_chars(s);
    trim_chars(&v)
}

/// Length of the leading run of characters that are not whitespace.
pub open spec fn word_len(s: Seq<char>) -> nat
    decreases s.len(),
{
    if s.len() == 0 || is_ws(s[0]) {
        0
    } else {
        1 + word_len(s.drop_first())
    }
}

/// `str::split_whitespace`: the maximal runs of non-whitespace characters.
pub open spec fn words(s: Seq<char>) -> Seq<Seq<char>>
    decreases s.len(),
{
    let t = trim_start(s);
    let k = word_len(t);
    if t.len() == 0 || k == 0 {
        seq![]
    } else {
        proof {
            lemma_trim_start_len(s);
            lemma_word_len_bound(t);
        }
        seq![t.subrange(0, k as int)].add(words(t.subrange(k as int, t.len() as int)))
    }
}

pub proof fn lemma_trim_start_len(s: Seq<char>)
    ensures
        trim_start(s).len() <= s.len(),
        trim_start(s).len() > 0 ==> !is_ws(trim_start(s)[0]),
    decreases s.len(),
{
    if s.len() > 0 && is_ws(s[0]) {
        lemma_trim_start_len(s.drop_first());
    }
}

pub proof fn lemma_word_len_bound(s: Seq<char>)
    ensures
        word_len(s) <= s.len(),
        s.len() > 0 && !is_ws(s[0]) ==> word_len(s) >= 1,
    decreases s.len(),
{
    if s.len() > 0 && !is_ws(s[0]) {
        lemma_word_len_bound(s.drop_first());
    }
}


/// `str::split_whitespace` on characters.
pub fn split_whitespace(v: &Vec<char>) -> (out: Vec<Vec<char>>)
    ensures
        views(out@) == words(v@),
{
    let n = v.len();
    let mut pos: usize = 0;
    let mut out: Vec<Vec<char>> = Vec::new();
    assert(v@.subrange(0, n as int) =~= v@);
    assert(views(out@) + words(v@) =~= words(v@));
    while pos < n
        invariant
            n == v.len(),
            pos <= n,
            words(v@) == views(out@) + words(v@.subrange(pos as int, n as int)),
        decreases n - pos,
    {
        let ghost rest = v@.subrange(pos as int, n as int);
        let ghost before = views(out@);
        let mut i: usize = pos;
        while i < n && is_whitespace(v[i])
            invariant
                n == v.len(),
                pos <= i <= n,
                trim_start(rest) == trim_start(v@.subrange(i as int, n as int)),
                rest == v@.subrange(pos as int, n as int),
            decreases n - i,
        {
            assert(v@.subrange(i as int, n as int).drop_first() =~= v@.subrange(i + 1, n as int));
            i = i + 1;
        }
        if i == n {
            assert(v@.subrange(n as int, n as int) =~= Seq::<char>::empty());
            assert(words(rest) =~= Seq::<Seq<char>>::empty());
            assert(before + seq![] =~= before);
            pos = n;
        } else {
            let ghost t = v@.subrange(i as int, n as int);
            assert(trim_start(rest) == t);
            let mut j: usize = i;
            while j < n && !is_whitespace(v[j])
                invariant
                    n == v.len(),
                    i <= j <= n,
                    t == v@.subrange(i as int, n as int),
                    word_len(t) == (j - i) + word_len(v@.subrange(j as int, n as int)),
                decreases n - j,
            {
                assert(v@.subrange(j as int, n as int).drop_first() =~= v@.subrange(
                    j + 1,
                    n as int,
                ));
                j = j + 1;
            }
            assert(word_len(t) == j - i);
            assert(j > i);
            let piece = copy_range(v, i, j);
            out.push(piece);
            assert(t.subrange(0, (j - i) as int) =~= piece@);
            assert(t.subrange((j - i) as int, t.len() as int) =~= v@.subrange(j as int, n as int));
            assert(words(rest) == seq![piece@].add(words(v@.subrange(j as int, n as int))));
            assert(views(out@) =~= before.push(piece@));
            assert(before + words(rest) =~= before.push(piece@) + words(
                v@.subrange(j as int, n as int),
            ));
            pos = j;
        }
    }
    assert(v@.subrange(n as int, n as int) =~= Seq::<char>::empty());
    assert(words(Seq::<char>::empty()) =~= Seq::<Seq<char>>::empty());
    assert(views(out@) + seq![] =~= views(out@));
    out
}

// ---------------------------------------------------------------------------
// Decimal parsing
// ---------------------------------------------------------------------------

pub open spec fn digit_value(c: char) -> nat {
    (c as int - '0' as int) as nat
}

pub open spec fn digits_value(s: Seq<char>) -> nat
    decreases s.len(),
{
    if s.len() == 0 {
        0
    } else {
        digits_value(s.drop_last()) * 10 + digit_value(s.last())
    }
}

pub open spec fn all_digits(s: Seq<char>) -> bool {
    forall|i: int| 0 <= i < s.len() ==> is_digit(#[trigger] s[i])
}

/// The digits an unsigned integer is read from: one leading `+` is allowed.
pub open spec fn unsigned_body(s: Seq<char>) -> Seq<char> {
    if s.len() > 0 && s[0] == '+' {
        s.drop_first()
    } else {
        s
    }
}

/// `str::parse` for an unsigned integer type whose largest value is `max`.
pub open spec fn parse_unsigned(s: Seq<char>, max: nat) -> Option<nat> {
    let b = unsigned_body(s);
    if b.len() > 0 && all_digits(b) && digits_value(b) <= max {
        Some(digits_value(b))
    } else {
        None
    }
}

pub fn parse_unsigned_chars(v: &Vec<char>, max: u64) -> (r: Option<u64>)
    ensures
        r matches Some(x) ==> parse_unsigned(v@, max as nat) == Some(x as nat),
        r is None ==> parse_unsigned(v@, max as nat) is None,
{
    let n = v.len();
    let start: usize = if n > 0 && v[0] == '+' {
        1
    } else {
        0
    };
    let ghost b = v@.subrange(start as int, n as int);
    assert(b =~= unsigned_body(v@));
    if start == n {
        return None;
    }
    let mut i: usize = start;
    let mut acc: u64 = 0;
    let mut over: bool = false;
    let ghost mut val: nat = 0;
    assert(v@.subrange(start as int, start as int) =~= Seq::<char>::empty());
    while i < n
        invariant
            start <= i <= n,
            n == v.len(),
            b == v@.subrange(start as int, n as int),
            b == unsigned_body(v@),
            val == digits_value(v@.subrange(start as int, i as int)),
            all_digits(v@.subrange(start as int, i as int)),
            !over ==> acc == val && val <= max,
            over ==> val > max,
        decreases n - i,
    {
        let c = v[i];
        if !('0' <= c && c <= '9') {
            assert(b[i - start] == c);
            assert(!is_digit(b[(i - start) as int]));
            assert(!all_digits(b));
            return None;
        }
        let d: u64 = ((c as u32) - ('0' as u32)) as u64;
        let ghost pre = v@.subrange(start as int, i as int);
        let ghost nxt = v@.subrange(start as int, i + 1);
        assert(nxt.drop_last() =~= pre);
        assert(nxt.last() == c);
        proof {
            val = val * 10 + digit_value(c);
        }
        assert(val == digits_value(nxt));
        assert forall|k: int| 0 <= k < nxt.len() implies is_digit(#[trigger] nxt[k]) by {
            if k < pre.len() {
                assert(nxt[k] == pre[k]);
            }
        }
        if !over {
            match acc.checked_mul(10) {
                Some(m) => match m.checked_add(d) {
                    Some(a) => {
                        if a <= max {
                            acc = a;
                        } else {
                            over = true;
                        }
                    },
                    None => {
                        over = true;
                    },
                },
                None => {
                    over = true;
                },
            }
        }
        i = i + 1;
    }
    if over {
        None
    } else {
        Some(acc)
    }
}


// ---------------------------------------------------------------------------
// Searching a list of lines
// ---------------------------------------------------------------------------

/// Index of the first element of `ls` at or after `i` that satisfies `pred`.
pub open spec fn first_where_from(ls: Seq<Seq<char>>, pred: spec_fn(Seq<char>) -> bool, i: int) -> Option<int>
    decreases ls.len() - i,
{
    if i < 0 || i >= ls.len() {
        None
    } else if pred(ls[i]) {
        Some(i)
    } else {
        first_where_from(ls, pred, i + 1)
    }
}

pub open spec fn first_where(ls: Seq<Seq<char>>, pred: spec_fn(Seq<char>) -> bool) -> Option<int> {
    first_where_from(ls, pred, 0)
}

pub proof fn lemma_first_where_from(ls: Seq<Seq<char>>, pred: spec_fn(Seq<char>) -> bool, i: int)
    requires
        0 <= i,
    ensures
        first_where_from(ls, pred, i) matches Some(k) ==> i <= k < ls.len() && pred(ls[k])
            && forall|j: int| i <= j < k ==> !pred(#[trigger] ls[j]),
        first_where_from(ls, pred, i) is None ==> forall|j: int|
            i <= j < ls.len() ==> !pred(#[trigger] ls[j]),
    decreases ls.len() - i,
{
    if i < ls.len() && !pred(ls[i]) {
        lemma_first_where_from(ls, pred, i + 1);
    }
}

/// The pieces joined with `sep` between each two of them.
pub open spec fn join_with(ps: Seq<Seq<char>>, sep: Seq<char>) -> Seq<char>
    decreases ps.len(),
{
    if ps.len() == 0 {
        seq![]
    } else if ps.len() == 1 {
        ps[0]
    } else {
        join_with(ps.drop_last(), sep) + sep + ps.last()
    }
}

/// The decimal digit `d` as a character.
pub open spec fn digit_char(d: int) -> char {
    (48 + d) as char
}

/// `n` written in decimal, without leading zeros.
pub open spec fn decimal_of(n: nat) -> Seq<char>
    decreases n,
{
    if n < 10 {
        seq![digit_char(n as int)]
    } else {
        decimal_of(n / 10) + seq![digit_char((n % 10) as int)]
    }
}

fn decimal_chars(n: u64) -> (v: Vec<char>)
    ensures
        v@ == decimal_of(n as nat),
    decreases n,
{
    let d: u8 = (n % 10) as u8;
    let c: char = (d + 48) as char;
    if n < 10 {
        let mut v: Vec<char> = Vec::new();
        v.push(c);
        v
    } else {
        let mut v = decimal_chars(n / 10);
        v.push(c);
        v
    }
}

/// `n` written in decimal.
pub fn decimal(n: u64) -> (s: String)
    ensures
        s@ == decimal_of(n as nat),
{
    let v = decimal_chars(n);
    string_from(&v)
}

/// Owned copy of a string literal or slice.
pub fn owned(s: &str) -> (r: String)
    ensures
        r@ == s@,
{
    s.to_owned()
}

} // verus!
