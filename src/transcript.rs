use vstd::prelude::*;

verus! {

/// Which way application bytes travelled.
#[derive(Clone, Copy, Debug, PartialEq, Eq, Structural)]
pub enum Direction {
    /// From the prover to the server.
    Sent,
    /// From the server to the prover.
    Received,
}

/// One contiguous run of application bytes in one direction.
#[derive(Clone, Copy, Debug, PartialEq, Eq, Structural)]
pub struct TranscriptRange {
    pub direction: Direction,
    /// Position of the first byte within its direction's byte stream.
    pub offset: usize,
    pub length: usize,
}

/// Number of bytes that the ranges of `s` carry in direction `d`.
pub open spec fn bytes_in(s: Seq<TranscriptRange>, d: Direction) -> nat
    decreases s.len(),
{
    if s.len() == 0 {
        0
    } else {
        bytes_in(s.drop_last(), d) + if s.last().direction == d {
            s.last().length as nat
        } else {
            0
        }
    }
}

/// Each range starts where the earlier ranges of its direction ended.
pub open spec fn laid_out(s: Seq<TranscriptRange>) -> bool {
    forall|i: int|
        #![trigger s[i]]
        0 <= i < s.len() ==> s[i].offset == bytes_in(s.take(i), s[i].direction)
}

/// Some range of direction `d` in `s` holds position `p` of that direction.
pub open spec fn covered(s: Seq<TranscriptRange>, d: Direction, p: int) -> bool {
    exists|i: int|
        0 <= i < s.len() && s[i].direction == d && s[i].offset <= p < s[i].offset + s[i].length
}

/// The ranges of direction `d` in `s`, taken in order, cover every position
/// of `[0, total)` and nothing else, without gaps or overlaps.
pub open spec fn partitions(s: Seq<TranscriptRange>, d: Direction, total: nat) -> bool {
    &&& forall|p: int| 0 <= p < total ==> #[trigger] covered(s, d, p)
    &&& forall|i: int|
        #![trigger s[i]]
        0 <= i < s.len() && s[i].direction == d ==> s[i].offset + s[i].length <= total
    &&& forall|i: int, j: int|
        #![trigger s[i], s[j]]
        0 <= i < j < s.len() && s[i].direction == d && s[j].direction == d ==> s[i].offset
            + s[i].length <= s[j].offset
}

/// Range `r` holds at least one position of `[start, end)` in direction `d`.
pub open spec fn discloses(r: TranscriptRange, d: Direction, start: int, end: int) -> bool {
    &&& r.direction == d
    &&& r.length > 0
    &&& start < end
    &&& r.offset < end
    &&& start < r.offset + r.length
}

/// The append-only record of every range of application bytes of a session,
/// in the order in which they occurred.
pub struct Transcript {
    ranges: Vec<TranscriptRange>,
    sent_total: usize,
    recv_total: usize,
}

impl View for Transcript {
    type V = Seq<TranscriptRange>;

    closed spec fn view(&self) -> Seq<TranscriptRange> {
        self.ranges@
    }
}

impl Transcript {
    pub closed spec fn wf(&self) -> bool {
        &&& laid_out(self.ranges@)
        &&& self.sent_total == bytes_in(self.ranges@, Direction::Sent)
        &&& self.recv_total == bytes_in(self.ranges@, Direction::Received)
    }

    pub fn new() -> (r: Transcript)
        ensures
            r.wf(),
            r@ == Seq::<TranscriptRange>::empty(),
    {
        Transcript { ranges: Vec::new(), sent_total: 0, recv_total: 0 }
    }

    /// Bytes recorded so far in direction `d`.
    pub fn total(&self, d: Direction) -> (r: usize)
        requires
            self.wf(),
        ensures
            r == bytes_in(self@, d),
    {
        match d {
            Direction::Sent => self.sent_total,
            Direction::Received => self.recv_total,
        }
    }

    pub fn range_count(&self) -> (r: usize)
        ensures
            r == self@.len(),
    {
        self.ranges.len()
    }

    pub fn range_at(&self, i: usize) -> (r: TranscriptRange)
        requires
            i < self@.len(),
        ensures
            r == self@[i as int],
    {
        self.ranges[i]
    }

    /// The ranges, in the order recorded, that must be opened to a verifier to
    /// disclose positions `[start, end)` of direction `d`.
    pub fn ranges_for_disclosure(&self, d: Direction, start: usize, end: usize) -> (r: Vec<
        TranscriptRange,
    >)
        ensures
            r@ == self@.filter(|x: TranscriptRange| discloses(x, d, start as int, end as int)),
    {
        let ghost pred = |x: TranscriptRange| discloses(x, d, start as int, end as int);
        let mut out: Vec<TranscriptRange> = Vec::new();
        let mut i: usize = 0;
        proof {
            reveal(Seq::filter);
        }
        while i < self.ranges.len()
            invariant
                i <= self.ranges@.len(),
                pred == (|x: TranscriptRange| discloses(x, d, start as int, end as int)),
                out@ == self.ranges@.take(i as int).filter(pred),
            decreases self.ranges@.len() - i,
        {
            let x = self.ranges[i];
            assert(self.ranges@.take(i + 1).drop_last() =~= self.ranges@.take(i as int));
            assert(self.ranges@.take(i + 1).last() == x);
            let keep = x.direction == d && x.length > 0 && start < end && x.offset < end && (start
                < x.offset || start - x.offset < x.length);
            assert(keep == pred(x));
            if keep {
                out.push(x);
            }
            proof {
                reveal(Seq::filter);
            }
            i = i + 1;
        }
        assert(self.ranges@.take(self.ranges@.len() as int) =~= self.ranges@);
        out
    }

    /// Appends the range of the next `length` bytes in direction `d`. Nothing is
    /// recorded when the direction's total would no longer fit in a `usize`.
    pub fn record(&mut self, d: Direction, length: usize) -> (r: Option<TranscriptRange>)
        requires
            old(self).wf(),
        ensures
            final(self).wf(),
            r is Some <==> bytes_in(old(self)@, d) + length <= usize::MAX,
            r is Some ==> r->0 == (TranscriptRange {
                direction: d,
                offset: bytes_in(old(self)@, d) as usize,
                length,
            }) && final(self)@ == old(self)@.push(r->0),
            r is None ==> final(self)@ == old(self)@,
    {
        let current = self.total(d);
        if length > usize::MAX - current {
            return None;
        }
        let range = TranscriptRange { direction: d, offset: current, length };
        let ghost s = self.ranges@;
        self.ranges.push(range);
        match d {
            Direction::Sent => self.sent_total = current + length,
            Direction::Received => self.recv_total = current + length,
        }
        proof {
            let s2 = self.ranges@;
            assert(s2.drop_last() =~= s);
            assert forall|i: int| 0 <= i < s2.len() implies #[trigger] s2[i].offset == bytes_in(
                s2.take(i),
                s2[i].direction,
            ) by {
                if i < s.len() {
                    assert(s2.take(i) =~= s.take(i));
                } else {
                    assert(s2.take(i) =~= s);
                }
            }
        }
        Some(range)
    }
}

/// Appending a range adds its length to its own direction only.
pub broadcast proof fn lemma_bytes_in_push(s: Seq<TranscriptRange>, r: TranscriptRange, d: Direction)
    ensures
        #[trigger] bytes_in(s.push(r), d) == bytes_in(s, d) + if r.direction == d {
            r.length as nat
        } else {
            0
        },
{
    assert(s.push(r).drop_last() =~= s);
}

proof fn lemma_prefix_take(s: Seq<TranscriptRange>, i: int)
    requires
        0 <= i < s.len(),
    ensures
        s.take(i + 1).drop_last() =~= s.take(i),
        s.take(i + 1).last() == s[i],
{
}

/// Bytes carried by a prefix grow with the prefix.
proof fn lemma_bytes_in_monotone(s: Seq<TranscriptRange>, d: Direction, i: int, j: int)
    requires
        0 <= i <= j <= s.len(),
    ensures
        bytes_in(s.take(i), d) <= bytes_in(s.take(j), d),
    decreases j - i,
{
    if i < j {
        lemma_prefix_take(s, j - 1);
        lemma_bytes_in_monotone(s, d, i, j - 1);
    }
}

proof fn lemma_laid_out_prefix(s: Seq<TranscriptRange>)
    requires
        s.len() > 0,
        laid_out(s),
    ensures
        laid_out(s.drop_last()),
{
    let t = s.drop_last();
    assert forall|i: int| 0 <= i < t.len() implies #[trigger] t[i].offset == bytes_in(
        t.take(i),
        t[i].direction,
    ) by {
        assert(t.take(i) =~= s.take(i));
        assert(s[i] == t[i]);
    }
}

proof fn lemma_covers(s: Seq<TranscriptRange>, d: Direction, p: int)
    requires
        laid_out(s),
        0 <= p < bytes_in(s, d),
    ensures
        covered(s, d, p),
    decreases s.len(),
{
    let n = s.len() - 1;
    let t = s.drop_last();
    lemma_laid_out_prefix(s);
    if p < bytes_in(t, d) {
        lemma_covers(t, d, p);
        let i = choose|i: int|
            0 <= i < t.len() && t[i].direction == d && t[i].offset <= p < t[i].offset
                + t[i].length;
        assert(s[i] == t[i]);
    } else {
        assert(s.take(n) =~= t);
        assert(s[n].offset == bytes_in(s.take(n), s[n].direction));
        assert(s[n].direction == d);
    }
}

/// For any transcript, the ranges of one direction, in the order recorded
/// (which is the order of their offsets), partition the positions
/// `[0, total)` of that direction exactly: no gaps and no overlaps.
pub proof fn lemma_ranges_partition(t: &Transcript, d: Direction)
    requires
        t.wf(),
    ensures
        partitions(t@, d, bytes_in(t@, d)),
{
    let s = t@;
    assert(s.take(s.len() as int) =~= s);
    assert forall|p: int| 0 <= p < bytes_in(s, d) implies #[trigger] covered(s, d, p) by {
        lemma_covers(s, d, p);
    }
    assert forall|i: int| 0 <= i < s.len() && s[i].direction == d implies #[trigger] s[i].offset
        + s[i].length <= bytes_in(s, d) by {
        lemma_prefix_take(s, i);
        lemma_bytes_in_monotone(s, d, i + 1, s.len() as int);
    }
    assert forall|i: int, j: int|
        0 <= i < j < s.len() && s[i].direction == d && s[j].direction == d implies #[trigger] s[i].offset
        + s[i].length <= #[trigger] s[j].offset by {
        lemma_prefix_take(s, i);
        lemma_bytes_in_monotone(s, d, i + 1, j);
    }
}

/// The ranges chosen to disclose `[start, end)` of one direction cover every
/// recorded position of that interval.
pub proof fn lemma_disclosure_covers(t: &Transcript, d: Direction, start: int, end: int, p: int)
    requires
        t.wf(),
        0 <= start <= p < end,
        p < bytes_in(t@, d),
    ensures
        covered(
            t@.filter(|x: TranscriptRange| discloses(x, d, start, end)),
            d,
            p,
        ),
{
    let s = t@;
    let pred = |x: TranscriptRange| discloses(x, d, start, end);
    lemma_ranges_partition(t, d);
    assert(covered(s, d, p));
    let i = choose|i: int|
        0 <= i < s.len() && s[i].direction == d && s[i].offset <= p < s[i].offset + s[i].length;
    assert(pred(s[i]));
    s.lemma_filter_contains(pred, i);
    let f = s.filter(pred);
    let j = choose|j: int| 0 <= j < f.len() && f[j] == s[i];
    assert(f[j].direction == d && f[j].offset <= p < f[j].offset + f[j].length);
}

} // verus!
