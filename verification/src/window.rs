//! A sliding window over input lines.
//!
//! The window keeps at most the last `cap` lines pushed into it, in
//! arrival order, and can render its content as one newline-joined,
//! whitespace-trimmed byte string.

use vstd::prelude::*;

verus! {

/// Least of two naturals.
pub open spec fn min_nat(a: nat, b: nat) -> nat {
    if a <= b {
        a
    } else {
        b
    }
}

/// One step of the window: append `line`, then drop the oldest lines
/// until at most `cap` remain.
pub open spec fn push_window(buf: Seq<Seq<u8>>, line: Seq<u8>, cap: nat) -> Seq<Seq<u8>> {
    let s = buf.push(line);
    if s.len() <= cap {
        s
    } else {
        s.subrange(s.len() - cap, s.len() as int)
    }
}

/// The window left after pushing every line of `lines`, in order, into
/// an empty window of capacity `cap`.
pub open spec fn window_of(lines: Seq<Seq<u8>>, cap: nat) -> Seq<Seq<u8>>
    decreases lines.len(),
{
    if lines.len() == 0 {
        Seq::empty()
    } else {
        push_window(window_of(lines.drop_last(), cap), lines.last(), cap)
    }
}

/// The window of a line sequence is exactly its last `min(cap, len)`
/// lines, in their original order.
pub proof fn lemma_window_of_is_suffix(lines: Seq<Seq<u8>>, cap: nat)
    ensures
        window_of(lines, cap).len() == min_nat(cap, lines.len()),
        window_of(lines, cap) =~= lines.subrange(
            lines.len() - min_nat(cap, lines.len()),
            lines.len() as int,
        ),
    decreases lines.len(),
{
    if lines.len() > 0 {
        lemma_window_of_is_suffix(lines.drop_last(), cap);
    }
}

/// ASCII whitespace: space, tab, line feed, vertical tab, form feed,
/// carriage return.
pub open spec fn is_ws(b: u8) -> bool {
    b == 32 || b == 9 || b == 10 || b == 11 || b == 12 || b == 13
}

/// `s` without leading whitespace.
pub open spec fn trim_start(s: Seq<u8>) -> Seq<u8>
    decreases s.len(),
{
    if s.len() > 0 && is_ws(s[0]) {
        trim_start(s.drop_first())
    } else {
        s
    }
}

/// `s` without trailing whitespace.
pub open spec fn trim_end(s: Seq<u8>) -> Seq<u8>
    decreases s.len(),
{
    if s.len() > 0 && is_ws(s.last()) {
        trim_end(s.drop_last())
    } else {
        s
    }
}

/// `s` without leading or trailing whitespace.
pub open spec fn trim_ws(s: Seq<u8>) -> Seq<u8> {
    trim_end(trim_start(s))
}

/// The lines joined with a newline between each pair.
pub open spec fn join_lines(lines: Seq<Seq<u8>>) -> Seq<u8>
    decreases lines.len(),
{
    if lines.len() == 0 {
        Seq::empty()
    } else if lines.len() == 1 {
        lines[0]
    } else {
        lines[0] + seq![10u8] + join_lines(lines.drop_first())
    }
}

/// Joining an empty buffer yields the empty string, trimmed or not.
pub proof fn lemma_join_empty_is_empty()
    ensures
        join_lines(Seq::<Seq<u8>>::empty()) =~= Seq::<u8>::empty(),
        trim_ws(join_lines(Seq::<Seq<u8>>::empty())) =~= Seq::<u8>::empty(),
{
}

/// Appending a line to a non-empty sequence joins through one more
/// newline; appending to an empty one yields the line itself.
proof fn lemma_join_push(lines: Seq<Seq<u8>>, line: Seq<u8>)
    ensures
        lines.len() == 0 ==> join_lines(lines.push(line)) =~= line,
        lines.len() > 0 ==> join_lines(lines.push(line)) =~= join_lines(lines) + seq![10u8]
            + line,
    decreases lines.len(),
{
    if lines.len() > 0 {
        lemma_join_push(lines.drop_first(), line);
        assert(lines.push(line).drop_first() =~= lines.drop_first().push(line));
        if lines.len() == 1 {
            assert(join_lines(lines.push(line)) =~= lines[0] + seq![10u8] + line);
        } else {
            assert(join_lines(lines.push(line)) =~= lines[0] + seq![10u8] + (join_lines(
                lines.drop_first(),
            ) + seq![10u8] + line));
            assert(lines[0] + seq![10u8] + (join_lines(lines.drop_first()) + seq![10u8] + line)
                =~= (lines[0] + seq![10u8] + join_lines(lines.drop_first())) + seq![10u8] + line);
        }
    }
}

/// Whether `b` is whitespace.
fn is_ws_byte(b: u8) -> (r: bool)
    ensures
        r == is_ws(b),
{
    b == 32 || b == 9 || b == 10 || b == 11 || b == 12 || b == 13
}

/// Copy `s` with leading and trailing whitespace removed.
pub fn trim_bytes(s: &[u8]) -> (r: Vec<u8>)
    ensures
        r@ == trim_ws(s@),
{
    let n = s.len();
    proof {
        assert(s@.skip(0) =~= s@);
    }
    let mut start: usize = 0;
    while start < n && is_ws_byte(s[start])
        invariant
            n == s@.len(),
            start <= n,
            trim_start(s@) == trim_start(s@.skip(start as int)),
        decreases n - start,
    {
        proof {
            assert(s@.skip(start as int).drop_first() =~= s@.skip(start as int + 1));
        }
        start = start + 1;
    }
    proof {
        if start == n {
            assert(s@.skip(start as int) =~= Seq::<u8>::empty());
        }
        assert(trim_start(s@) =~= s@.subrange(start as int, n as int));
    }
    let mut end: usize = n;
    while end > start && is_ws_byte(s[end - 1])
        invariant
            n == s@.len(),
            start <= end <= n,
            trim_end(s@.subrange(start as int, n as int)) == trim_end(
                s@.subrange(start as int, end as int),
            ),
        decreases end,
    {
        proof {
            assert(s@.subrange(start as int, end as int).drop_last() =~= s@.subrange(
                start as int,
                end as int - 1,
            ));
        }
        end = end - 1;
    }
    proof {
        assert(trim_end(s@.subrange(start as int, end as int)) =~= s@.subrange(
            start as int,
            end as int,
        ));
    }
    let mut r: Vec<u8> = Vec::new();
    let mut i: usize = start;
    while i < end
        invariant
            n == s@.len(),
            start <= i <= end <= n,
            r@ =~= s@.subrange(start as int, i as int),
        decreases end - i,
    {
        r.push(s[i]);
        proof {
            assert(r@ =~= s@.subrange(start as int, i as int + 1));
        }
        i = i + 1;
    }
    proof {
        assert(r@ =~= trim_ws(s@));
    }
    r
}

/// A fixed-capacity buffer of the most recent lines.
pub struct LineWindow {
    cap: usize,
    lines: Vec<Vec<u8>>,
}

impl View for LineWindow {
    type V = Seq<Seq<u8>>;

    closed spec fn view(&self) -> Seq<Seq<u8>> {
        self.lines.deep_view()
    }
}

impl LineWindow {
    /// The capacity the window was created with.
    pub closed spec fn capacity(&self) -> nat {
        self.cap as nat
    }

    /// The window never holds more lines than its capacity.
    pub open spec fn wf(&self) -> bool {
        self@.len() <= self.capacity()
    }

    /// An empty window that will keep at most `n` lines.
    pub fn new(n: usize) -> (w: LineWindow)
        ensures
            w.wf(),
            w.capacity() == n as nat,
            w@ =~= Seq::<Seq<u8>>::empty(),
    {
        LineWindow { cap: n, lines: Vec::new() }
    }

    /// How many lines the window holds.
    pub fn len(&self) -> (r: usize)
        ensures
            r == self@.len(),
    {
        self.lines.len()
    }

    /// Borrow the line at `i`, oldest first.
    pub fn line(&self, i: usize) -> (r: &Vec<u8>)
        requires
            i < self@.len(),
        ensures
            r@ == self@[i as int],
    {
        &self.lines[i]
    }

    /// Append a line; if the window is over capacity, drop the oldest.
    pub fn push(&mut self, line: Vec<u8>)
        requires
            old(self).wf(),
        ensures
            final(self).wf(),
            final(self).capacity() == old(self).capacity(),
            final(self)@ =~= push_window(old(self)@, line@, old(self).capacity()),
    {
        let ghost before = self@;
        self.lines.push(line);
        proof {
            assert(self.lines.deep_view() =~~= before.push(line@));
        }
        if self.lines.len() > self.cap {
            let ghost mid = self.lines.deep_view();
            self.lines.remove(0);
            proof {
                assert(self.lines.deep_view() =~~= mid.subrange(1, mid.len() as int));
            }
        }
    }

    /// Feed a whole line sequence, oldest first, through a fresh window
    /// of capacity `n`. Together with [`lemma_window_of_is_suffix`] the
    /// result is exactly the last `min(n, lines.len())` lines, in order.
    pub fn from_lines(lines: Vec<Vec<u8>>, n: usize) -> (w: LineWindow)
        ensures
            w.wf(),
            w.capacity() == n as nat,
            w@ =~~= window_of(lines.deep_view(), n as nat),
    {
        let ghost all = lines.deep_view();
        let mut rest = lines;
        let mut w = LineWindow::new(n);
        proof {
            assert(all.take(0) =~= Seq::<Seq<u8>>::empty());
        }
        while rest.len() > 0
            invariant
                w.wf(),
                w.capacity() == n as nat,
                rest@.len() <= all.len(),
                rest.deep_view() =~= all.skip(all.len() - rest@.len()),
                w@ =~~= window_of(all.take(all.len() - rest@.len()), n as nat),
            decreases rest@.len(),
        {
            let ghost k = all.len() - rest@.len();
            let ghost before = rest.deep_view();
            let line = rest.remove(0);
            proof {
                assert(rest.deep_view() =~~= before.drop_first());
                assert(rest.deep_view() =~~= all.skip(k + 1));
                assert(line.deep_view() =~~= before[0]);
                assert(before[0] =~~= all.skip(k)[0]);
                assert(line.deep_view() =~~= all[k]);
            }
            w.push(line);
            proof {
                let t = all.take(k + 1);
                assert(t.drop_last() =~= all.take(k));
                assert(t.last() =~~= all[k]);
                assert(window_of(t, n as nat) == push_window(
                    window_of(all.take(k), n as nat),
                    all[k],
                    n as nat,
                ));
                assert(w@ =~~= window_of(all.take(k + 1), n as nat));
            }
        }
        proof {
            assert(all.take(all.len() as int) =~= all);
        }
        w
    }

    /// The windowed lines joined with newlines, then trimmed of leading
    /// and trailing whitespace.
    pub fn joined(&self) -> (r: Vec<u8>)
        ensures
            r@ == trim_ws(join_lines(self@)),
    {
        let mut j: Vec<u8> = Vec::new();
        let mut i: usize = 0;
        let n = self.lines.len();
        while i < n
            invariant
                n == self@.len(),
                i <= n,
                j@ =~= join_lines(self@.take(i as int)),
            decreases n - i,
        {
            if i > 0 {
                j.push(10u8);
            }
            let li = &self.lines[i];
            j.extend_from_slice(li.as_slice());
            proof {
                lemma_join_push(self@.take(i as int), self@[i as int]);
                assert(self@.take(i as int).push(self@[i as int]) =~= self@.take(i as int + 1));
                assert(li@ =~= self@[i as int]);
            }
            i = i + 1;
        }
        proof {
            assert(self@.take(n as int) =~= self@);
        }
        trim_bytes(j.as_slice())
    }
}

} // verus!
