//! Framing layer: turns the raw lines read from the peer's output into a
//! sequence of decoded JSON frames.
//!
//! Each non-empty line (after trimming ASCII whitespace) is appended to an
//! accumulation buffer; when the buffer decodes as one JSON value the value
//! is emitted and the buffer cleared, otherwise accumulation continues, which
//! tolerates one logical value spanning several physical lines. A buffer
//! that grows past the configured maximum is reported as one decode error
//! and discarded, and framing resumes with the next line.

use vstd::prelude::*;
use crate::json::{json_model, json_parse, parse_json_bytes, JsonData};

verus! {

/// ASCII whitespace, as the line trimming removes it.
pub open spec fn ws(b: u8) -> bool {
    b == 32 || b == 9 || b == 10 || b == 13
}

/// The line with leading ASCII whitespace removed.
pub open spec fn trim_front(s: Seq<u8>) -> Seq<u8>
    decreases s.len(),
{
    if s.len() > 0 && ws(s[0]) {
        trim_front(s.drop_first())
    } else {
        s
    }
}

/// The line with trailing ASCII whitespace removed.
pub open spec fn trim_back(s: Seq<u8>) -> Seq<u8>
    decreases s.len(),
{
    if s.len() > 0 && ws(s.last()) {
        trim_back(s.drop_last())
    } else {
        s
    }
}

/// The line with whitespace removed from both ends.
pub open spec fn trim_spec(s: Seq<u8>) -> Seq<u8> {
    trim_back(trim_front(s))
}

/// What one line can make the framer emit: a decoded frame, or a decode
/// error for an over-long buffer.
pub enum FrameOut {
    Out(JsonData),
    Over,
}

/// One framing step: the buffer after the line, and what is emitted.
pub open spec fn framer_step(buf: Seq<u8>, max: nat, line: Seq<u8>) -> (Seq<u8>, Option<FrameOut>) {
    let t = trim_spec(line);
    if t.len() == 0 {
        (buf, None)
    } else {
        let nb = buf + t;
        if nb.len() > max {
            (Seq::empty(), Some(FrameOut::Over))
        } else {
            match json_parse(nb) {
                Some(d) => (Seq::empty(), Some(FrameOut::Out(d))),
                None => (nb, None),
            }
        }
    }
}

/// The emitted output of a step, as a sequence of zero or one items.
pub open spec fn opt_out(o: Option<FrameOut>) -> Seq<FrameOut> {
    match o {
        Some(x) => seq![x],
        None => Seq::empty(),
    }
}

/// Running the framer over a sequence of lines: the final buffer and
/// everything emitted, in order.
pub open spec fn framer_run(buf: Seq<u8>, max: nat, lines: Seq<Seq<u8>>) -> (
    Seq<u8>,
    Seq<FrameOut>,
)
    decreases lines.len(),
{
    if lines.len() == 0 {
        (buf, Seq::empty())
    } else {
        let step = framer_step(buf, max, lines.first());
        let rest = framer_run(step.0, max, lines.drop_first());
        (rest.0, opt_out(step.1) + rest.1)
    }
}

/// What `push_line` hands back for one line.
pub enum FrameStep {
    /// Nothing to report: the line was blank, or the buffer is still
    /// accumulating a partial value.
    Quiet,
    /// One complete JSON frame was decoded.
    Decoded(serde_json::Value),
    /// The buffer exceeded the maximum size and was discarded.
    Overflow,
}

/// The exec result agrees with the spec-level emission.
pub open spec fn step_out_matches(r: FrameStep, o: Option<FrameOut>) -> bool {
    match r {
        FrameStep::Quiet => o is None,
        FrameStep::Decoded(v) => o == Some(FrameOut::Out(json_model(v))),
        FrameStep::Overflow => o == Some(FrameOut::Over),
    }
}

/// The accumulating decoder for one byte stream.
pub struct Framer {
    buf: Vec<u8>,
    max: usize,
}

impl Framer {
    /// The bytes accumulated so far.
    pub closed spec fn buffer(self) -> Seq<u8> {
        self.buf@
    }

    /// The configured maximum buffer size.
    pub closed spec fn limit(self) -> nat {
        self.max as nat
    }

    /// A fresh framer with an empty buffer.
    pub fn new(max_buffer_size: usize) -> (r: Self)
        ensures
            r.buffer() == Seq::<u8>::empty(),
            r.limit() == max_buffer_size as nat,
    {
        Framer { buf: Vec::new(), max: max_buffer_size }
    }

    /// Feed one raw line; report a decoded frame, an overflow, or nothing.
    pub fn push_line(&mut self, line: &[u8]) -> (r: FrameStep)
        ensures
            final(self).limit() == old(self).limit(),
            final(self).buffer() == framer_step(old(self).buffer(), old(self).limit(), line@).0,
            step_out_matches(r, framer_step(old(self).buffer(), old(self).limit(), line@).1),
    {
        let n = line.len();
        let mut i: usize = 0;
        while i < n && is_ws(line[i])
            invariant
                0 <= i <= n,
                n == line@.len(),
                forall|k: int| 0 <= k < i ==> ws(line@[k]),
            decreases n - i,
        {
            i = i + 1;
        }
        let mut j: usize = n;
        while j > i && is_ws(line[j - 1])
            invariant
                i <= j <= n,
                n == line@.len(),
                forall|k: int| j <= k < n ==> ws(line@[k]),
            decreases j,
        {
            j = j - 1;
        }
        proof {
            lemma_trim_is_subrange(line@, i as int, j as int);
        }
        if i == j {
            // blank line: nothing accumulates
            assert(final(self).buffer() =~= framer_step(
                old(self).buffer(),
                old(self).limit(),
                line@,
            ).0);
            return FrameStep::Quiet;
        }
        let ghost buf0 = self.buf@;
        let mut k: usize = i;
        while k < j
            invariant
                i <= k <= j <= n,
                n == line@.len(),
                self.buf@ == buf0 + line@.subrange(i as int, k as int),
                self.max == old(self).max,
            decreases j - k,
        {
            let b = line[k];
            self.buf.push(b);
            assert(self.buf@ =~= buf0 + line@.subrange(i as int, k as int + 1));
            k = k + 1;
        }
        assert(self.buf@ == buf0 + trim_spec(line@));
        if self.buf.len() > self.max {
            self.buf.clear();
            assert(self.buf@ =~= Seq::<u8>::empty());
            return FrameStep::Overflow;
        }
        match parse_json_bytes(self.buf.as_slice()) {
            Some(v) => {
                self.buf.clear();
                assert(self.buf@ =~= Seq::<u8>::empty());
                FrameStep::Decoded(v)
            },
            None => FrameStep::Quiet,
        }
    }
}

fn is_ws(b: u8) -> (r: bool)
    ensures
        r == ws(b),
{
    b == 32 || b == 9 || b == 10 || b == 13
}

proof fn lemma_trim_front_index(s: Seq<u8>, i: int)
    requires
        0 <= i <= s.len(),
        forall|k: int| 0 <= k < i ==> ws(s[k]),
        i < s.len() ==> !ws(s[i]),
    ensures
        trim_front(s) == s.subrange(i, s.len() as int),
    decreases i,
{
    if i == 0 {
        assert(s.subrange(0, s.len() as int) =~= s);
    } else {
        assert(ws(s[0]));
        let d = s.drop_first();
        assert(d =~= s.subrange(1, s.len() as int));
        lemma_trim_front_index(d, i - 1);
        assert(d.subrange(i - 1, d.len() as int) =~= s.subrange(i, s.len() as int));
    }
}

proof fn lemma_trim_back_index(s: Seq<u8>, j: int)
    requires
        0 <= j <= s.len(),
        forall|k: int| j <= k < s.len() ==> ws(s[k]),
        j > 0 ==> !ws(s[j - 1]),
    ensures
        trim_back(s) == s.subrange(0, j),
    decreases s.len() - j,
{
    if j == s.len() {
        if s.len() > 0 {
            assert(trim_back(s) == s);
        }
        assert(s.subrange(0, s.len() as int) =~= s);
    } else {
        assert(ws(s.last()));
        let d = s.drop_last();
        assert(d =~= s.subrange(0, s.len() - 1));
        lemma_trim_back_index(d, j);
        assert(d.subrange(0, j) =~= s.subrange(0, j));
    }
}

/// Trimming equals taking the subrange between the first and last
/// non-whitespace bytes.
proof fn lemma_trim_is_subrange(s: Seq<u8>, i: int, j: int)
    requires
        0 <= i <= j <= s.len(),
        forall|k: int| 0 <= k < i ==> ws(s[k]),
        forall|k: int| j <= k < s.len() ==> ws(s[k]),
        i < s.len() ==> i < j ==> !ws(s[i]),
        j > i ==> !ws(s[j - 1]),
        i == j ==> forall|k: int| 0 <= k < s.len() ==> ws(s[k]),
    ensures
        trim_spec(s) == s.subrange(i, j),
{
    if i == j {
        lemma_trim_front_index(s, s.len() as int);
        assert(trim_front(s) =~= Seq::<u8>::empty());
        assert(trim_spec(s) =~= s.subrange(i, j));
    } else {
        lemma_trim_front_index(s, i);
        let f = trim_front(s);
        assert(f == s.subrange(i, s.len() as int));
        lemma_trim_back_index(f, j - i);
        assert(f.subrange(0, j - i) =~= s.subrange(i, j));
    }
}

/// Running over the concatenation of two line sequences is running over the
/// first and then the second, with the outputs concatenated.
pub proof fn lemma_run_append(buf: Seq<u8>, max: nat, l1: Seq<Seq<u8>>, l2: Seq<Seq<u8>>)
    ensures
        framer_run(buf, max, l1 + l2).0 == framer_run(framer_run(buf, max, l1).0, max, l2).0,
        framer_run(buf, max, l1 + l2).1 == framer_run(buf, max, l1).1 + framer_run(
            framer_run(buf, max, l1).0,
            max,
            l2,
        ).1,
    decreases l1.len(),
{
    if l1.len() == 0 {
        assert(l1 + l2 =~= l2);
        assert(framer_run(buf, max, l1).1 + framer_run(buf, max, l2).1 =~= framer_run(
            buf,
            max,
            l2,
        ).1);
    } else {
        let step = framer_step(buf, max, l1.first());
        assert((l1 + l2).first() == l1.first());
        assert((l1 + l2).drop_first() =~= l1.drop_first() + l2);
        lemma_run_append(step.0, max, l1.drop_first(), l2);
        assert(opt_out(step.1) + (framer_run(step.0, max, l1.drop_first()).1 + framer_run(
            framer_run(step.0, max, l1.drop_first()).0,
            max,
            l2,
        ).1) =~= (opt_out(step.1) + framer_run(step.0, max, l1.drop_first()).1) + framer_run(
            framer_run(step.0, max, l1.drop_first()).0,
            max,
            l2,
        ).1);
    }
}

/// Pieces of a single frame: every piece is already trimmed and non-empty.
pub open spec fn clean_pieces(pieces: Seq<Seq<u8>>) -> bool {
    forall|k: int|
        0 <= k < pieces.len() ==> trim_spec(#[trigger] pieces[k]) == pieces[k] && pieces[k].len()
            > 0
}

/// No proper concatenation prefix of the pieces decodes on its own.
pub open spec fn no_early_decode(pieces: Seq<Seq<u8>>) -> bool {
    forall|t: int| 1 <= t < pieces.len() ==> json_parse(#[trigger] pieces.take(t).flatten()) is None
}

proof fn lemma_run_single(buf: Seq<u8>, max: nat, line: Seq<u8>)
    ensures
        framer_run(buf, max, seq![line]).0 == framer_step(buf, max, line).0,
        framer_run(buf, max, seq![line]).1 == opt_out(framer_step(buf, max, line).1),
{
    let single = seq![line];
    assert(single.first() == line);
    assert(single.drop_first() =~= Seq::<Seq<u8>>::empty());
    let step = framer_step(buf, max, line);
    assert(framer_run(step.0, max, Seq::<Seq<u8>>::empty()).1 =~= Seq::<FrameOut>::empty());
    assert(framer_run(buf, max, single).0 == framer_run(step.0, max, single.drop_first()).0);
    assert(framer_run(buf, max, single).1 =~= opt_out(step.1) + Seq::<FrameOut>::empty());
    assert(opt_out(step.1) + Seq::<FrameOut>::empty() =~= opt_out(step.1));
}

proof fn lemma_flatten_take_len(pieces: Seq<Seq<u8>>, t: int)
    requires
        0 <= t <= pieces.len(),
    ensures
        pieces.take(t).flatten().len() <= pieces.flatten().len(),
    decreases pieces.len() - t,
{
    if t == pieces.len() {
        assert(pieces.take(t) =~= pieces);
    } else {
        pieces.lemma_take_succ_push(t);
        pieces.take(t).lemma_flatten_push(pieces[t]);
        lemma_flatten_take_len(pieces, t + 1);
    }
}

/// Feeding a single frame's pieces into an empty buffer emits exactly the
/// decoded frame and leaves the buffer empty, provided the whole frame fits
/// within the limit, decodes, and no proper prefix decodes early.
pub proof fn lemma_one_frame(pieces: Seq<Seq<u8>>, frame: Seq<u8>, max: nat)
    requires
        pieces.len() >= 1,
        clean_pieces(pieces),
        no_early_decode(pieces),
        pieces.flatten() == frame,
        json_parse(frame) is Some,
        frame.len() <= max,
    ensures
        framer_run(Seq::empty(), max, pieces).0 == Seq::<u8>::empty(),
        framer_run(Seq::empty(), max, pieces).1 == seq![
            FrameOut::Out(json_parse(frame).unwrap()),
        ],
{
    let last = pieces.len() - 1;
    lemma_frame_prefix(pieces, frame, max, last);
    let run0 = framer_run(Seq::empty(), max, pieces.take(last));
    pieces.lemma_take_succ_push(last);
    pieces.take(last).lemma_flatten_push(pieces[last]);
    assert(pieces.take(last + 1) =~= pieces);
    // the final piece completes the frame
    let step = framer_step(run0.0, max, pieces[last]);
    assert(run0.0 + trim_spec(pieces[last]) =~= frame);
    assert(step.0 =~= Seq::<u8>::empty());
    lemma_run_append(Seq::empty(), max, pieces.take(last), seq![pieces[last]]);
    lemma_run_single(run0.0, max, pieces[last]);
    assert(pieces.take(last) + seq![pieces[last]] =~= pieces);
    assert(framer_run(Seq::empty(), max, pieces).1 =~= run0.1 + opt_out(step.1));
    assert(framer_run(Seq::empty(), max, pieces).1 =~= seq![
        FrameOut::Out(json_parse(frame).unwrap()),
    ]);
}

proof fn lemma_frame_prefix(pieces: Seq<Seq<u8>>, frame: Seq<u8>, max: nat, t: int)
    requires
        pieces.len() >= 1,
        clean_pieces(pieces),
        no_early_decode(pieces),
        pieces.flatten() == frame,
        json_parse(frame) is Some,
        frame.len() <= max,
        0 <= t < pieces.len(),
    ensures
        framer_run(Seq::empty(), max, pieces.take(t)).0 == pieces.take(t).flatten(),
        framer_run(Seq::empty(), max, pieces.take(t)).1 == Seq::<FrameOut>::empty(),
    decreases t,
{
    if t == 0 {
        assert(pieces.take(0) =~= Seq::<Seq<u8>>::empty());
        assert(pieces.take(0).flatten() =~= Seq::<u8>::empty());
    } else {
        lemma_frame_prefix(pieces, frame, max, t - 1);
        let run0 = framer_run(Seq::empty(), max, pieces.take(t - 1));
        pieces.lemma_take_succ_push(t - 1);
        pieces.take(t - 1).lemma_flatten_push(pieces[t - 1]);
        let step = framer_step(run0.0, max, pieces[t - 1]);
        assert(run0.0 + trim_spec(pieces[t - 1]) =~= pieces.take(t).flatten());
        lemma_flatten_take_len(pieces, t);
        // at a proper prefix the buffer fits and does not decode yet
        assert(pieces.take(t).flatten().len() <= max);
        if t < pieces.len() {
            assert(json_parse(pieces.take(t).flatten()) is None);
        }
        assert(step.0 == pieces.take(t).flatten());
        assert(step.1 is None);
        lemma_run_append(Seq::empty(), max, pieces.take(t - 1), seq![pieces[t - 1]]);
        lemma_run_single(run0.0, max, pieces[t - 1]);
        assert(pieces.take(t - 1) + seq![pieces[t - 1]] =~= pieces.take(t));
        assert(framer_run(Seq::empty(), max, pieces.take(t)).1 =~= Seq::<FrameOut>::empty());
    }
}

/// However a sequence of frames is split into lines, the framer emits the
/// same decoded values as it would for the frames fed undivided, provided
/// each frame fits within the limit, each line piece is trimmed and
/// non-empty, and no frame's proper piece-prefix decodes early.
pub proof fn lemma_framing_split_invariance(splits: Seq<Seq<Seq<u8>>>, frames: Seq<Seq<u8>>, max: nat)
    requires
        splits.len() == frames.len(),
        forall|i: int| 0 <= i < splits.len() ==> (#[trigger] splits[i]).len() >= 1,
        forall|i: int| 0 <= i < splits.len() ==> clean_pieces(#[trigger] splits[i]),
        forall|i: int| 0 <= i < splits.len() ==> no_early_decode(#[trigger] splits[i]),
        forall|i: int| 0 <= i < splits.len() ==> (#[trigger] splits[i]).flatten() == frames[i],
        forall|i: int| 0 <= i < frames.len() ==> json_parse(#[trigger] frames[i]) is Some,
        forall|i: int| 0 <= i < frames.len() ==> (#[trigger] frames[i]).len() <= max,
    ensures
        framer_run(Seq::empty(), max, splits.flatten()).0 == Seq::<u8>::empty(),
        framer_run(Seq::empty(), max, splits.flatten()).1 == Seq::new(
            frames.len(),
            |i: int| FrameOut::Out(json_parse(frames[i]).unwrap()),
        ),
    decreases splits.len(),
{
    if splits.len() == 0 {
        assert(splits.flatten() =~= Seq::<Seq<u8>>::empty());
        assert(framer_run(Seq::empty(), max, splits.flatten()).1 =~= Seq::new(
            frames.len(),
            |i: int| FrameOut::Out(json_parse(frames[i]).unwrap()),
        ));
    } else {
        let head = splits.drop_last();
        let hframes = frames.drop_last();
        lemma_framing_split_invariance(head, hframes, max);
        assert(splits =~= head.push(splits.last()));
        head.lemma_flatten_push(splits.last());
        lemma_run_append(Seq::empty(), max, head.flatten(), splits.last());
        lemma_one_frame(splits.last(), frames.last(), max);
        assert(framer_run(Seq::empty(), max, splits.flatten()).1 =~= Seq::new(
            frames.len(),
            |i: int| FrameOut::Out(json_parse(frames[i]).unwrap()),
        ));
    }
}

} // verus!
