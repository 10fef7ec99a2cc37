use vstd::prelude::*;
use std::collections::VecDeque;
use crate::stream::{StreamLine, StreamSource};

verus! {

/// The texts of a sequence of lines.
pub open spec fn texts(lines: Seq<StreamLine>) -> Seq<Seq<char>> {
    lines.map_values(|l: StreamLine| l.text_view())
}

/// A subscriber's place in a channel: the number of the next line it reads.
#[derive(Debug, Clone, Copy, PartialEq, Eq, Structural)]
pub struct Cursor {
    next: u64,
}

impl Cursor {
    pub closed spec fn position(&self) -> nat {
        self.next as nat
    }

    pub fn next_line(&self) -> (r: u64)
        ensures
            r as nat == self.position(),
    {
        self.next
    }
}

/// What a subscriber gets when it asks for its next line.
#[derive(Debug, Clone)]
pub enum Received {
    /// The next line, in publication order.
    Line(StreamLine),
    /// The subscriber fell behind the retained lines; this many were lost, and
    /// reading resumes at the oldest retained line.
    Lagged(u64),
    /// Nothing new yet.
    Empty,
    /// The stream ended and every line has been read.
    Closed,
}

/// A multicast channel for the lines of one output stream. It keeps at most
/// `capacity` of the latest lines; each subscriber reads them through its own
/// cursor, and one that falls behind is told how many it missed.
pub struct LineChannel {
    source: StreamSource,
    retained: VecDeque<StreamLine>,
    first: u64,
    capacity: usize,
    closed: bool,
    sent: Ghost<Seq<Seq<char>>>,
}

impl LineChannel {
    /// Every line published so far, oldest first.
    pub closed spec fn published(&self) -> Seq<Seq<char>> {
        self.sent@
    }

    /// The number of the oldest line still retained.
    pub closed spec fn oldest(&self) -> nat {
        self.first as nat
    }

    pub closed spec fn bound(&self) -> nat {
        self.capacity as nat
    }

    pub closed spec fn is_closed(&self) -> bool {
        self.closed
    }

    pub closed spec fn stream(&self) -> StreamSource {
        self.source
    }

    pub closed spec fn wf(&self) -> bool {
        &&& self.capacity > 0
        &&& self.retained@.len() <= self.capacity
        &&& self.first + self.retained@.len() == self.sent@.len()
        &&& self.sent@.len() <= u64::MAX
        &&& forall|i: int|
            0 <= i < self.retained@.len() ==> {
                &&& #[trigger] self.retained@[i].text_view() == self.sent@[self.first + i]
                &&& self.retained@[i].source_view() == self.source
            }
    }

    /// The retained lines are the latest ones, at most `bound()` of them.
    pub proof fn lemma_window(&self)
        requires
            self.wf(),
        ensures
            self.oldest() <= self.published().len(),
            self.published().len() <= self.oldest() + self.bound(),
            self.bound() > 0,
    {
    }

    /// Where a subscriber at `p` resumes: at `p`, or at the oldest retained
    /// line if `p` fell behind it.
    pub open spec fn resume_at(&self, p: nat) -> nat {
        if p < self.oldest() {
            self.oldest()
        } else {
            p
        }
    }

    /// The lines that a subscriber at `p` reads from now on, until more are
    /// published.
    pub open spec fn delivered_from(&self, p: nat) -> Seq<Seq<char>> {
        if self.resume_at(p) <= self.published().len() {
            self.published().subrange(self.resume_at(p) as int, self.published().len() as int)
        } else {
            Seq::empty()
        }
    }

    pub fn new(source: StreamSource, capacity: usize) -> (r: Self)
        requires
            capacity > 0,
        ensures
            r.wf(),
            r.published() == Seq::<Seq<char>>::empty(),
            r.oldest() == 0,
            r.bound() == capacity,
            !r.is_closed(),
            r.stream() == source,
    {
        LineChannel {
            source,
            retained: VecDeque::new(),
            first: 0,
            capacity,
            closed: false,
            sent: Ghost(Seq::empty()),
        }
    }

    /// The number of lines published so far.
    pub fn published_count(&self) -> (r: u64)
        requires
            self.wf(),
        ensures
            r as nat == self.published().len(),
    {
        self.first + self.retained.len() as u64
    }

    pub fn closed(&self) -> (r: bool)
        ensures
            r == self.is_closed(),
    {
        self.closed
    }

    /// Appends a line for every subscriber; the oldest retained line is
    /// dropped when the buffer is full.
    pub fn publish(&mut self, line: String)
        requires
            old(self).wf(),
            old(self).published().len() < u64::MAX,
        ensures
            final(self).wf(),
            final(self).published() == old(self).published().push(line@),
            final(self).is_closed() == old(self).is_closed(),
            final(self).bound() == old(self).bound(),
            final(self).stream() == old(self).stream(),
            old(self).published().len() < old(self).oldest() + old(self).bound()
                ==> final(self).oldest() == old(self).oldest(),
            old(self).published().len() == old(self).oldest() + old(self).bound()
                ==> final(self).oldest() == old(self).oldest() + 1,
    {
        let ghost text = line@;
        let ghost prev = self.retained@;
        let ghost prev_first = self.first as int;
        let item = StreamLine::new(line, self.source);
        if self.retained.len() == self.capacity {
            let _ = self.retained.pop_front();
            self.first = self.first + 1;
        }
        let ghost shift = self.first - prev_first;
        self.retained.push_back(item);
        self.sent = Ghost(self.sent@.push(text));
        assert forall|i: int| 0 <= i < self.retained@.len() implies {
            &&& #[trigger] self.retained@[i].text_view() == self.sent@[self.first + i]
            &&& self.retained@[i].source_view() == self.source
        } by {
            if i < self.retained@.len() - 1 {
                let j = i + shift;
                assert(self.retained@[i] == prev[j]);
                assert(prev[j].text_view() == old(self).sent@[prev_first + j]);
                assert(self.sent@[self.first + i] == old(self).sent@[prev_first + j]);
            } else {
                assert(self.retained@[i] == item);
            }
        }
    }

    /// Marks the end of the stream: subscribers read what is left, then see
    /// `Closed`.
    pub fn close(&mut self)
        ensures
            final(self).is_closed(),
            final(self).published() == old(self).published(),
            final(self).oldest() == old(self).oldest(),
            final(self).bound() == old(self).bound(),
            final(self).stream() == old(self).stream(),
            old(self).wf() ==> final(self).wf(),
    {
        self.closed = true;
    }

    /// Opens the stream again for a new run; published lines are kept.
    pub fn reopen(&mut self)
        ensures
            !final(self).is_closed(),
            final(self).published() == old(self).published(),
            final(self).oldest() == old(self).oldest(),
            final(self).bound() == old(self).bound(),
            final(self).stream() == old(self).stream(),
            old(self).wf() ==> final(self).wf(),
    {
        self.closed = false;
    }

    /// A new subscriber; it sees only lines published after this call.
    pub fn subscribe(&self) -> (r: Cursor)
        requires
            self.wf(),
        ensures
            r.position() == self.published().len(),
    {
        Cursor { next: self.first + self.retained.len() as u64 }
    }

    /// The next item for the subscriber at `c`, advancing it.
    pub fn recv(&self, c: &mut Cursor) -> (r: Received)
        requires
            self.wf(),
        ensures
            old(c).position() < self.oldest() ==> {
                &&& r matches Received::Lagged(n) && n == self.oldest() - old(c).position()
                &&& final(c).position() == self.oldest()
            },
            self.oldest() <= old(c).position() < self.published().len() ==> {
                &&& r matches Received::Line(l) && l.text_view()
                    == self.published()[old(c).position() as int]
                    && l.source_view() == self.stream()
                &&& final(c).position() == old(c).position() + 1
            },
            self.published().len() <= old(c).position() ==> {
                &&& (r matches Received::Closed) == self.is_closed()
                &&& (r matches Received::Empty) == !self.is_closed()
                &&& *final(c) == *old(c)
            },
    {
        let end = self.first + self.retained.len() as u64;
        if c.next < self.first {
            let missed = self.first - c.next;
            c.next = self.first;
            Received::Lagged(missed)
        } else if c.next < end {
            let k = (c.next - self.first) as usize;
            let line = self.retained[k].duplicate();
            assert(self.retained@[k as int].text_view() == self.sent@[self.first + k]);
            c.next = c.next + 1;
            Received::Line(line)
        } else if self.closed {
            Received::Closed
        } else {
            Received::Empty
        }
    }

    /// Reads every line available to the subscriber at `c`, skipping over
    /// lines it fell behind on, and leaves it at the end.
    pub fn drain(&self, c: &mut Cursor) -> (r: Vec<StreamLine>)
        requires
            self.wf(),
        ensures
            texts(r@) == self.delivered_from(old(c).position()),
            forall|i: int| 0 <= i < r@.len() ==> (#[trigger] r@[i]).source_view() == self.stream(),
            self.resume_at(old(c).position()) <= self.published().len() ==> final(c).position()
                == self.published().len(),
            self.published().len() < old(c).position() ==> *final(c) == *old(c),
    {
        let end = self.first + self.retained.len() as u64;
        if c.next > end {
            return Vec::new();
        }
        if c.next < self.first {
            c.next = self.first;
        }
        let ghost start = c.next as int;
        let mut out: Vec<StreamLine> = Vec::new();
        while c.next < end
            invariant
                self.wf(),
                end == self.sent@.len(),
                self.first <= start <= c.next <= end,
                texts(out@) == self.sent@.subrange(start, c.next as int),
                forall|i: int|
                    0 <= i < out@.len() ==> (#[trigger] out@[i]).source_view() == self.source,
            decreases end - c.next,
        {
            let k = (c.next - self.first) as usize;
            let line = self.retained[k].duplicate();
            assert(self.retained@[k as int].text_view() == self.sent@[self.first + k]);
            let ghost before = out@;
            let ghost t = line.text_view();
            out.push(line);
            c.next = c.next + 1;
            assert(texts(out@) =~= texts(before).push(t));
            assert(texts(out@) =~= self.sent@.subrange(start, c.next as int));
        }
        out
    }
}

/// Two subscribers at the same place read the same lines in the same order.
pub proof fn lemma_subscribers_agree(ch: LineChannel, a: Cursor, b: Cursor)
    requires
        ch.wf(),
        a.position() == b.position(),
    ensures
        ch.delivered_from(a.position()) == ch.delivered_from(b.position()),
{
}

/// A subscriber that joined after some lines were published reads only the
/// lines published after it joined, each once and in order, provided it did
/// not fall behind the retained buffer.
pub proof fn lemma_late_subscriber_sees_only_later(
    before: LineChannel,
    after: LineChannel,
    c: Cursor,
    later: Seq<Seq<char>>,
)
    requires
        before.wf(),
        after.wf(),
        c.position() == before.published().len(),
        after.published() == before.published() + later,
        after.oldest() <= c.position(),
    ensures
        after.delivered_from(c.position()) == later,
{
    assert(after.published().subrange(
        c.position() as int,
        after.published().len() as int,
    ) =~= later);
}

/// Reading a stream in two sittings neither repeats nor loses a line: what a
/// subscriber reads, then reads again after more lines were published, is the
/// run of published lines from its place onward.
pub proof fn lemma_reads_concatenate(first: LineChannel, second: LineChannel, p: nat)
    requires
        first.wf(),
        second.wf(),
        first.published() == second.published().subrange(0, first.published().len() as int),
        first.published().len() <= second.published().len(),
        first.oldest() <= p <= first.published().len(),
        second.oldest() <= first.published().len(),
    ensures
        first.delivered_from(p) + second.delivered_from(first.published().len())
            == second.published().subrange(p as int, second.published().len() as int),
{
    let n = first.published().len() as int;
    assert(first.delivered_from(p) + second.delivered_from(n as nat) =~= second.published().subrange(
        p as int,
        second.published().len() as int,
    ));
}

} // verus!
