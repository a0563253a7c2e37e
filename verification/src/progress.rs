//! Splitting a command's output into display lines the way a terminal shows
//! them: a bare `\r` and the cursor-to-column sequence `ESC [ n G` end a
//! line as `\n` does (a `\r\n` pair ends one line, not two), other `ESC [` sequences are dropped, and a lone `ESC`
//! that does not start one is dropped while the byte after it is kept.
//! Reading the bytes and decoding the lines is the caller's business.

use vstd::prelude::*;

verus! {

#[derive(Debug, Clone, Copy, PartialEq, Eq, Structural)]
pub enum AnsiState {
    Normal,
    /// Just after a `\r` that ended a line: a `\n` right here belongs to it.
    AfterCr,
    Esc,
    Csi,
}

/// One byte read in the normal state: `(state, line, emitted line)`.
pub open spec fn normal_step(line: Seq<u8>, b: u8) -> (AnsiState, Seq<u8>, Option<Seq<u8>>) {
    if b == 0x0A {
        (AnsiState::Normal, seq![], Some(line))
    } else if b == 0x0D {
        (AnsiState::AfterCr, seq![], Some(line))
    } else if b == 0x1B {
        (AnsiState::Esc, line, None)
    } else {
        (AnsiState::Normal, line.push(b), None)
    }
}

/// One byte read in state `st` with `line` collected so far.
pub open spec fn step(st: AnsiState, line: Seq<u8>, b: u8) -> (AnsiState, Seq<u8>, Option<Seq<u8>>) {
    match st {
        AnsiState::Normal => normal_step(line, b),
        AnsiState::AfterCr => if b == 0x0A {
            (AnsiState::Normal, line, None)
        } else {
            normal_step(line, b)
        },
        AnsiState::Esc => if b == 0x5B {
            (AnsiState::Csi, line, None)
        } else {
            normal_step(line, b)
        },
        AnsiState::Csi => if 0x40 <= b && b <= 0x7E {
            if b == 0x47 {
                (AnsiState::Normal, seq![], Some(line))
            } else {
                (AnsiState::Normal, line, None)
            }
        } else {
            (AnsiState::Csi, line, None)
        },
    }
}

/// Reading `input` from state `st` with `line` collected: the final state,
/// the final unfinished line, and the lines emitted on the way.
pub open spec fn run(st: AnsiState, line: Seq<u8>, input: Seq<u8>) -> (AnsiState, Seq<u8>, Seq<Seq<u8>>)
    decreases input.len(),
{
    if input.len() == 0 {
        (st, line, seq![])
    } else {
        let s = step(st, line, input[0]);
        let r = run(s.0, s.1, input.drop_first());
        (
            r.0,
            r.1,
            match s.2 {
                Some(x) => seq![x] + r.2,
                None => r.2,
            },
        )
    }
}

/// Every display line of `input`, the unfinished last one included when it
/// is not empty.
pub open spec fn ansi_lines(input: Seq<u8>) -> Seq<Seq<u8>> {
    let r = run(AnsiState::Normal, seq![], input);
    if r.1.len() > 0 {
        r.2.push(r.1)
    } else {
        r.2
    }
}

/// A byte-by-byte line splitter for streamed output.
pub struct AnsiLineSplitter {
    state: AnsiState,
    line: Vec<u8>,
}

impl AnsiLineSplitter {
    pub closed spec fn state(&self) -> AnsiState {
        self.state
    }

    pub closed spec fn pending(&self) -> Seq<u8> {
        self.line@
    }

    pub fn new() -> (s: Self)
        ensures
            s.state() == AnsiState::Normal,
            s.pending() == Seq::<u8>::empty(),
    {
        AnsiLineSplitter { state: AnsiState::Normal, line: Vec::new() }
    }

    fn normal(&mut self, b: u8) -> (out: Option<Vec<u8>>)
        ensures
            ({
                let s = normal_step(old(self).pending(), b);
                &&& final(self).state() == s.0
                &&& final(self).pending() == s.1
                &&& match s.2 {
                    Some(x) => out matches Some(o) && o@ == x,
                    None => out is None,
                }
            }),
    {
        if b == 0x0A || b == 0x0D {
            let mut done: Vec<u8> = Vec::new();
            std::mem::swap(&mut done, &mut self.line);
            self.state = if b == 0x0D {
                AnsiState::AfterCr
            } else {
                AnsiState::Normal
            };
            Some(done)
        } else if b == 0x1B {
            self.state = AnsiState::Esc;
            None
        } else {
            self.line.push(b);
            self.state = AnsiState::Normal;
            None
        }
    }

    /// Reads one byte; returns the line it completes, if any.
    pub fn feed(&mut self, b: u8) -> (out: Option<Vec<u8>>)
        ensures
            ({
                let s = step(old(self).state(), old(self).pending(), b);
                &&& final(self).state() == s.0
                &&& final(self).pending() == s.1
                &&& match s.2 {
                    Some(x) => out matches Some(o) && o@ == x,
                    None => out is None,
                }
            }),
    {
        match self.state {
            AnsiState::Normal => self.normal(b),
            AnsiState::AfterCr => {
                if b == 0x0A {
                    self.state = AnsiState::Normal;
                    None
                } else {
                    self.normal(b)
                }
            },
            AnsiState::Esc => {
                if b == 0x5B {
                    self.state = AnsiState::Csi;
                    None
                } else {
                    self.normal(b)
                }
            },
            AnsiState::Csi => {
                if 0x40 <= b && b <= 0x7E {
                    self.state = AnsiState::Normal;
                    if b == 0x47 {
                        let mut done: Vec<u8> = Vec::new();
                        std::mem::swap(&mut done, &mut self.line);
                        Some(done)
                    } else {
                        None
                    }
                } else {
                    None
                }
            },
        }
    }

    /// The unfinished last line at the end of the input, if it is not empty.
    pub fn finish(self) -> (out: Option<Vec<u8>>)
        ensures
            self.pending().len() > 0 ==> (out matches Some(o) && o@ == self.pending()),
            self.pending().len() == 0 ==> out is None,
    {
        if self.line.len() > 0 {
            Some(self.line)
        } else {
            None
        }
    }
}

pub open spec fn byte_views(s: Seq<Vec<u8>>) -> Seq<Seq<u8>> {
    s.map_values(|x: Vec<u8>| x@)
}

/// Every display line of a complete output.
pub fn split_ansi_lines(input: &[u8]) -> (out: Vec<Vec<u8>>)
    ensures
        byte_views(out@) == ansi_lines(input@),
{
    let mut sp = AnsiLineSplitter::new();
    let mut out: Vec<Vec<u8>> = Vec::new();
    let n = input.len();
    let mut i: usize = 0;
    assert(input@.subrange(0, n as int) =~= input@);
    assert(byte_views(out@) + run(AnsiState::Normal, seq![], input@).2 =~= run(
        AnsiState::Normal,
        seq![],
        input@,
    ).2);
    while i < n
        invariant
            n == input.len(),
            i <= n,
            ({
                let whole = run(AnsiState::Normal, seq![], input@);
                let rest = run(sp.state(), sp.pending(), input@.subrange(i as int, n as int));
                &&& whole.0 == rest.0
                &&& whole.1 == rest.1
                &&& whole.2 == byte_views(out@) + rest.2
            }),
        decreases n - i,
    {
        let ghost st = sp.state();
        let ghost ln = sp.pending();
        let ghost before = byte_views(out@);
        let ghost sub = input@.subrange(i as int, n as int);
        assert(sub.drop_first() =~= input@.subrange(i + 1, n as int));
        assert(sub[0] == input@[i as int]);
        match sp.feed(input[i]) {
            Some(l) => {
                out.push(l);
                assert(byte_views(out@) =~= before.push(l@));
                assert(before + (seq![l@] + run(sp.state(), sp.pending(), input@.subrange(i + 1, n as int)).2)
                    =~= byte_views(out@) + run(sp.state(), sp.pending(), input@.subrange(i + 1, n as int)).2);
            },
            None => {},
        }
        i = i + 1;
    }
    assert(input@.subrange(n as int, n as int) =~= Seq::<u8>::empty());
    assert(byte_views(out@) + seq![] =~= byte_views(out@));
    let ghost before = byte_views(out@);
    match sp.finish() {
        Some(l) => {
            out.push(l);
            assert(byte_views(out@) =~= before.push(l@));
        },
        None => {},
    }
    out
}


/// A display line: no `\n`, no `\r`, no `ESC`.
pub open spec fn is_clean(l: Seq<u8>) -> bool {
    forall|k: int| 0 <= k < l.len() ==> #[trigger] l[k] != 0x0A && l[k] != 0x0D && l[k] != 0x1B
}

proof fn lemma_step_clean(st: AnsiState, line: Seq<u8>, b: u8)
    requires
        is_clean(line),
    ensures
        is_clean(step(st, line, b).1),
        step(st, line, b).2 matches Some(x) ==> is_clean(x),
{
    let s = step(st, line, b);
    if s.1 =~= line.push(b) {
        assert forall|k: int| 0 <= k < s.1.len() implies #[trigger] s.1[k] != 0x0A && s.1[k] != 0x0D
            && s.1[k] != 0x1B by {
            if k < line.len() {
                assert(s.1[k] == line[k]);
            }
        }
    }
}

proof fn lemma_run_clean(st: AnsiState, line: Seq<u8>, input: Seq<u8>)
    requires
        is_clean(line),
    ensures
        is_clean(run(st, line, input).1),
        forall|k: int| 0 <= k < run(st, line, input).2.len() ==> is_clean(#[trigger] run(st, line, input).2[k]),
    decreases input.len(),
{
    if input.len() > 0 {
        let s = step(st, line, input[0]);
        lemma_step_clean(st, line, input[0]);
        lemma_run_clean(s.0, s.1, input.drop_first());
        let r = run(s.0, s.1, input.drop_first());
        match s.2 {
            Some(x) => {
                assert forall|k: int| 0 <= k < (seq![x] + r.2).len() implies is_clean(
                    #[trigger] (seq![x] + r.2)[k],
                ) by {
                    if k > 0 {
                        assert((seq![x] + r.2)[k] == r.2[k - 1]);
                    }
                }
            },
            None => {},
        }
    }
}

/// No display line ever holds a line break or an escape byte: those only
/// ever end a line or start a sequence that is dropped.
pub proof fn law_display_lines_are_clean(input: Seq<u8>)
    ensures
        forall|k: int| 0 <= k < ansi_lines(input).len() ==> is_clean(#[trigger] ansi_lines(input)[k]),
{
    lemma_run_clean(AnsiState::Normal, seq![], input);
    let r = run(AnsiState::Normal, seq![], input);
    if r.1.len() > 0 {
        assert forall|k: int| 0 <= k < r.2.push(r.1).len() implies is_clean(#[trigger] r.2.push(r.1)[k]) by {
            if k < r.2.len() {
                assert(r.2.push(r.1)[k] == r.2[k]);
            }
        }
    }
}


/// Output read in two pieces gives the same lines as read in one: the
/// second piece goes on from where the first left off.
pub proof fn law_split_is_chunk_independent(st: AnsiState, line: Seq<u8>, a: Seq<u8>, b: Seq<u8>)
    ensures
        ({
            let ra = run(st, line, a);
            let rb = run(ra.0, ra.1, b);
            run(st, line, a + b) == (rb.0, rb.1, ra.2 + rb.2)
        }),
    decreases a.len(),
{
    let ra = run(st, line, a);
    let rb = run(ra.0, ra.1, b);
    if a.len() == 0 {
        assert(a + b =~= b);
        assert(ra.2 + rb.2 =~= rb.2);
    } else {
        let s = step(st, line, a[0]);
        assert((a + b).drop_first() =~= a.drop_first() + b);
        assert((a + b)[0] == a[0]);
        law_split_is_chunk_independent(s.0, s.1, a.drop_first(), b);
        let rest = run(s.0, s.1, a.drop_first());
        match s.2 {
            Some(x) => {
                assert(seq![x] + rest.2 + rb.2 =~= seq![x] + (rest.2 + rb.2));
            },
            None => {},
        }
    }
}


proof fn lemma_plain_text_collects(line: Seq<u8>, text: Seq<u8>)
    requires
        is_clean(text),
    ensures
        run(AnsiState::Normal, line, text) == (AnsiState::Normal, line + text, Seq::<Seq<u8>>::empty()),
    decreases text.len(),
{
    if text.len() == 0 {
        assert(line + text =~= line);
    } else {
        assert(text[0] != 0x0A && text[0] != 0x0D && text[0] != 0x1B);
        let rest = text.drop_first();
        assert forall|k: int| 0 <= k < rest.len() implies #[trigger] rest[k] != 0x0A && rest[k] != 0x0D
            && rest[k] != 0x1B by {
            assert(rest[k] == text[k + 1]);
        }
        lemma_plain_text_collects(line.push(text[0]), rest);
        assert(line.push(text[0]) + rest =~= line + text);
    }
}

/// A line of plain text ended by `\r\n` is one display line, and the pair
/// leaves nothing behind.
pub proof fn law_crlf_ends_one_line(text: Seq<u8>)
    requires
        is_clean(text),
    ensures
        run(AnsiState::Normal, seq![], text + seq![0x0Du8, 0x0Au8]) == (
            AnsiState::Normal,
            Seq::<u8>::empty(),
            seq![text],
        ),
{
    let crlf = seq![0x0Du8, 0x0Au8];
    law_split_is_chunk_independent(AnsiState::Normal, seq![], text, crlf);
    lemma_plain_text_collects(seq![], text);
    assert(Seq::<u8>::empty() + text =~= text);
    let r1 = run(AnsiState::AfterCr, seq![], crlf.drop_first());
    assert(crlf.drop_first().drop_first() =~= Seq::<u8>::empty());
    assert(crlf.drop_first()[0] == 0x0Au8);
    assert(crlf.drop_first().len() == 1);
    assert(run(AnsiState::Normal, seq![], Seq::<u8>::empty()) == (
        AnsiState::Normal,
        Seq::<u8>::empty(),
        Seq::<Seq<u8>>::empty(),
    ));
    assert(r1 == (AnsiState::Normal, Seq::<u8>::empty(), Seq::<Seq<u8>>::empty()));
    assert(run(AnsiState::Normal, text, crlf).2 =~= seq![text]);
    assert(Seq::<Seq<u8>>::empty() + seq![text] =~= seq![text]);
}


/// The bytes of an escape sequence between `ESC [` and its final byte:
/// none of them is a final byte.
pub open spec fn csi_params(p: Seq<u8>) -> bool {
    forall|k: int| 0 <= k < p.len() ==> !(0x40 <= #[trigger] p[k] && p[k] <= 0x7E)
}

proof fn lemma_csi_params_skip(line: Seq<u8>, p: Seq<u8>, rest: Seq<u8>)
    requires
        csi_params(p),
    ensures
        run(AnsiState::Csi, line, p + rest) == run(AnsiState::Csi, line, rest),
    decreases p.len(),
{
    if p.len() > 0 {
        let q = p.drop_first();
        assert(!(0x40 <= p[0] && p[0] <= 0x7E));
        assert forall|k: int| 0 <= k < q.len() implies !(0x40 <= #[trigger] q[k] && q[k] <= 0x7E) by {
            assert(q[k] == p[k + 1]);
        }
        assert((p + rest).drop_first() =~= q + rest);
        assert((p + rest)[0] == p[0]);
        lemma_csi_params_skip(line, q, rest);
    } else {
        assert(p + rest =~= rest);
    }
}

/// An escape sequence `ESC [ params final` whose final byte is not `G` (a
/// colour, an erase, a cursor show or hide) vanishes: whatever was being
/// collected and whatever follows, the output is the same as without it.
pub proof fn law_other_escape_sequences_vanish(line: Seq<u8>, params: Seq<u8>, fin: u8, rest: Seq<u8>)
    requires
        csi_params(params),
        0x40 <= fin <= 0x7E,
        fin != 0x47,
    ensures
        run(AnsiState::Normal, line, seq![0x1Bu8, 0x5Bu8] + params + seq![fin] + rest) == run(
            AnsiState::Normal,
            line,
            rest,
        ),
{
    let input = seq![0x1Bu8, 0x5Bu8] + params + seq![fin] + rest;
    assert(input[0] == 0x1Bu8);
    assert(input.drop_first()[0] == 0x5Bu8);
    assert(input.drop_first().drop_first() =~= params + (seq![fin] + rest));
    let d1 = input.drop_first();
    let d2 = d1.drop_first();
    assert(run(AnsiState::Normal, line, input) == run(AnsiState::Esc, line, d1));
    assert(run(AnsiState::Esc, line, d1) == run(AnsiState::Csi, line, d2));
    lemma_csi_params_skip(line, params, seq![fin] + rest);
    let tail = seq![fin] + rest;
    assert(tail[0] == fin);
    assert(tail.drop_first() =~= rest);
    assert(run(AnsiState::Csi, line, tail) == run(AnsiState::Normal, line, rest));
}

/// The same in terms of display lines: between two pieces of plain text,
/// such a sequence changes nothing.
pub proof fn law_colour_codes_do_not_split_lines(t1: Seq<u8>, params: Seq<u8>, fin: u8, t2: Seq<u8>)
    requires
        is_clean(t1),
        csi_params(params),
        0x40 <= fin <= 0x7E,
        fin != 0x47,
    ensures
        ansi_lines(t1 + (seq![0x1Bu8, 0x5Bu8] + params + seq![fin]) + t2) == ansi_lines(t1 + t2),
{
    let csi = seq![0x1Bu8, 0x5Bu8] + params + seq![fin];
    law_split_is_chunk_independent(AnsiState::Normal, seq![], t1, csi + t2);
    law_split_is_chunk_independent(AnsiState::Normal, seq![], t1, t2);
    lemma_plain_text_collects(seq![], t1);
    assert(csi + t2 =~= seq![0x1Bu8, 0x5Bu8] + params + seq![fin] + t2);
    law_other_escape_sequences_vanish(Seq::<u8>::empty() + t1, params, fin, t2);
    assert(t1 + (csi + t2) =~= t1 + csi + t2);
}

/// `ESC [ params G` ends the line collected so far, and only that one.
pub proof fn law_cursor_to_column_ends_a_line(line: Seq<u8>, params: Seq<u8>, rest: Seq<u8>)
    requires
        csi_params(params),
    ensures
        ({
            let r = run(AnsiState::Normal, seq![], rest);
            run(AnsiState::Normal, line, seq![0x1Bu8, 0x5Bu8] + params + seq![0x47u8] + rest) == (
                r.0,
                r.1,
                seq![line] + r.2,
            )
        }),
{
    let input = seq![0x1Bu8, 0x5Bu8] + params + seq![0x47u8] + rest;
    assert(input[0] == 0x1Bu8);
    assert(input.drop_first()[0] == 0x5Bu8);
    assert(input.drop_first().drop_first() =~= params + (seq![0x47u8] + rest));
    let d1 = input.drop_first();
    let d2 = d1.drop_first();
    assert(run(AnsiState::Normal, line, input) == run(AnsiState::Esc, line, d1));
    assert(run(AnsiState::Esc, line, d1) == run(AnsiState::Csi, line, d2));
    lemma_csi_params_skip(line, params, seq![0x47u8] + rest);
    let tail = seq![0x47u8] + rest;
    assert(tail[0] == 0x47u8);
    assert(tail.drop_first() =~= rest);
    let r = run(AnsiState::Normal, seq![], rest);
    assert(run(AnsiState::Csi, line, tail) == (r.0, r.1, seq![line] + r.2));
}

} // verus!
