//! The log buffer: a bounded sequence of display lines in arrival order,
//! with the scroll cursor of the view that shows it.

use vstd::prelude::*;
use crate::text::views;

verus! {

/// Lines that a log buffer holds unless it is made with another capacity.
pub const LOG_CAPACITY: usize = 1000;

/// Lines of output kept for display. It never holds more lines than its
/// capacity: an append to a full buffer first drops the oldest half.
#[derive(Debug)]
pub struct LogBuffer {
    lines: Vec<String>,
    capacity: usize,
    scroll: u16,
}

/// A log buffer as plain values.
pub struct LogView {
    /// The lines held, oldest first.
    pub lines: Seq<Seq<char>>,
    /// The most lines the buffer holds.
    pub capacity: nat,
    /// First line that the view shows.
    pub scroll: nat,
}

/// How many lines an append drops from a full buffer of capacity `capacity`:
/// half of them, rounded up.
pub open spec fn half_batch(capacity: nat) -> nat {
    (capacity - capacity / 2) as nat
}

/// Where the cursor stands when the view follows `len` lines: on the last
/// line, as far as the cursor reaches.
pub open spec fn tail_position(len: nat) -> nat {
    if len == 0 {
        0
    } else if len - 1 > u16::MAX {
        u16::MAX as nat
    } else {
        (len - 1) as nat
    }
}

impl LogView {
    /// The buffer can hold a line and holds no more than its capacity.
    pub open spec fn wf(self) -> bool {
        &&& 1 <= self.capacity
        &&& self.lines.len() <= self.capacity
    }

    /// The buffer is full: the next append drops lines.
    pub open spec fn full(self) -> bool {
        self.lines.len() >= self.capacity
    }

    /// The buffer after `line` arrived.
    pub open spec fn with_line(self, line: Seq<char>) -> LogView {
        if self.full() {
            LogView { lines: self.lines.skip(half_batch(self.capacity) as int).push(line), ..self }
        } else {
            LogView { lines: self.lines.push(line), ..self }
        }
    }

    /// The buffer after `lines` arrived one by one, first to last.
    pub open spec fn with_lines(self, lines: Seq<Seq<char>>) -> LogView
        decreases lines.len(),
    {
        if lines.len() == 0 {
            self
        } else {
            self.with_lines(lines.drop_last()).with_line(lines.last())
        }
    }

    /// The buffer without its lines.
    pub open spec fn cleared(self) -> LogView {
        LogView { lines: Seq::empty(), ..self }
    }

    /// The buffer with the cursor on its last line.
    pub open spec fn at_tail(self) -> LogView {
        LogView { scroll: tail_position(self.lines.len()), ..self }
    }
}

impl View for LogBuffer {
    type V = LogView;

    closed spec fn view(&self) -> LogView {
        LogView {
            lines: views(self.lines@),
            capacity: self.capacity as nat,
            scroll: self.scroll as nat,
        }
    }
}

impl LogBuffer {
    /// The invariant of the buffer.
    pub open spec fn wf(&self) -> bool {
        self@.wf()
    }

    /// An empty buffer of capacity `LOG_CAPACITY`.
    pub fn new() -> (out: LogBuffer)
        ensures
            out.wf(),
            out@ == (LogView { lines: Seq::empty(), capacity: LOG_CAPACITY as nat, scroll: 0 }),
    {
        let out = LogBuffer { lines: Vec::new(), capacity: LOG_CAPACITY, scroll: 0 };
        assert(views(out.lines@) =~= Seq::<Seq<char>>::empty());
        out
    }

    /// An empty buffer that holds up to `capacity` lines. There is none that
    /// holds no line.
    pub fn with_capacity(capacity: usize) -> (out: Option<LogBuffer>)
        ensures
            capacity == 0 <==> out is None,
            out matches Some(buffer) ==> buffer.wf() && buffer@ == (LogView {
                lines: Seq::empty(),
                capacity: capacity as nat,
                scroll: 0,
            }),
    {
        if capacity == 0 {
            None
        } else {
            let out = LogBuffer { lines: Vec::new(), capacity, scroll: 0 };
            assert(views(out.lines@) =~= Seq::<Seq<char>>::empty());
            Some(out)
        }
    }

    /// How many lines the buffer holds.
    pub fn len(&self) -> (out: usize)
        ensures
            out == self@.lines.len(),
    {
        self.lines.len()
    }

    /// Whether the buffer holds no line.
    pub fn is_empty(&self) -> (out: bool)
        ensures
            out == (self@.lines.len() == 0),
    {
        self.lines.len() == 0
    }

    /// The most lines the buffer holds.
    pub fn capacity(&self) -> (out: usize)
        ensures
            out == self@.capacity,
    {
        self.capacity
    }

    /// First line that the view shows.
    pub fn scroll(&self) -> (out: u16)
        ensures
            out == self@.scroll,
    {
        self.scroll
    }

    /// Puts `line` at the end. A full buffer first drops its oldest half.
    pub fn append(&mut self, line: String)
        requires
            old(self).wf(),
        ensures
            final(self).wf(),
            final(self)@ == old(self)@.with_line(line@),
    {
        if self.lines.len() >= self.capacity {
            let dropped: usize = self.capacity - self.capacity / 2;
            let kept = self.lines.split_off(dropped);
            self.lines = kept;
            assert(views(self.lines@) =~= views(old(self).lines@).skip(dropped as int));
        }
        assert(views(self.lines@.push(line)) =~= views(self.lines@).push(line@));
        self.lines.push(line);
    }

    /// Puts `lines` at the end, first to last, each as `append` does.
    pub fn append_many(&mut self, lines: &Vec<String>)
        requires
            old(self).wf(),
        ensures
            final(self).wf(),
            final(self)@ == old(self)@.with_lines(views(lines@)),
    {
        let mut i: usize = 0;
        assert(views(lines@).take(0) =~= Seq::<Seq<char>>::empty());
        while i < lines.len()
            invariant
                i <= lines.len(),
                self.wf(),
                self@ == old(self)@.with_lines(views(lines@).take(i as int)),
            decreases lines.len() - i,
        {
            proof {
                let all = views(lines@);
                assert(all.take(i + 1).drop_last() =~= all.take(i as int));
                assert(all.take(i + 1).last() == lines@[i as int]@);
            }
            self.append(lines[i].clone());
            i += 1;
        }
        assert(views(lines@).take(lines.len() as int) =~= views(lines@));
    }

    /// Drops every line. Capacity and cursor stay.
    pub fn clear(&mut self)
        ensures
            final(self)@ == old(self)@.cleared(),
            old(self).wf() ==> final(self).wf(),
    {
        self.lines.clear();
        assert(views(self.lines@) =~= Seq::<Seq<char>>::empty());
    }

    /// Puts the cursor on the last line, as far as the cursor reaches.
    pub fn follow_tail(&mut self)
        ensures
            final(self)@ == old(self)@.at_tail(),
            old(self).wf() ==> final(self).wf(),
    {
        let len = self.lines.len();
        self.scroll = if len == 0 {
            0
        } else if len - 1 > u16::MAX as usize {
            u16::MAX
        } else {
            (len - 1) as u16
        };
    }

    /// A copy of the lines, oldest first.
    pub fn snapshot(&self) -> (out: Vec<String>)
        ensures
            views(out@) == self@.lines,
    {
        let mut out: Vec<String> = Vec::new();
        let mut i: usize = 0;
        while i < self.lines.len()
            invariant
                i <= self.lines.len(),
                out@ == self.lines@.take(i as int),
            decreases self.lines.len() - i,
        {
            out.push(self.lines[i].clone());
            assert(self.lines@.take(i + 1) =~= self.lines@.take(i as int).push(
                self.lines@[i as int],
            ));
            i += 1;
        }
        assert(self.lines@.take(self.lines.len() as int) =~= self.lines@);
        out
    }
}

/// An append keeps the buffer within its capacity and leaves it non-empty,
/// with the new line last.
pub proof fn lemma_append_bounded(log: LogView, line: Seq<char>)
    requires
        log.wf(),
    ensures
        log.with_line(line).wf(),
        log.with_line(line).capacity == log.capacity,
        log.with_line(line).scroll == log.scroll,
        1 <= log.with_line(line).lines.len() <= log.capacity,
        log.with_line(line).lines.last() == line,
{
}

/// After an append the buffer holds lines that it held before, in their
/// order, and the new line.
pub proof fn lemma_append_members(log: LogView, line: Seq<char>, i: int)
    requires
        0 <= i < log.with_line(line).lines.len(),
    ensures
        log.with_line(line).lines[i] == line || log.lines.contains(log.with_line(line).lines[i]),
{
    let after = log.with_line(line).lines;
    if i < after.len() - 1 {
        if log.full() {
            assert(after[i] == log.lines[i + half_batch(log.capacity)]);
        } else {
            assert(after[i] == log.lines[i]);
        }
    }
}

/// Any number of appends keeps the buffer within its capacity, and one or
/// more leave it non-empty, with the last line that arrived last.
pub proof fn lemma_appends_bounded(log: LogView, lines: Seq<Seq<char>>)
    requires
        log.wf(),
    ensures
        log.with_lines(lines).wf(),
        log.with_lines(lines).capacity == log.capacity,
        log.with_lines(lines).scroll == log.scroll,
        log.with_lines(lines).lines.len() <= log.capacity,
        lines.len() > 0 ==> log.with_lines(lines).lines.len() >= 1,
        lines.len() > 0 ==> log.with_lines(lines).lines.last() == lines.last(),
    decreases lines.len(),
{
    if lines.len() > 0 {
        lemma_appends_bounded(log, lines.drop_last());
        lemma_append_bounded(log.with_lines(lines.drop_last()), lines.last());
    }
}

/// After any number of appends the buffer holds lines that it held before
/// and lines that arrived, and no others.
pub proof fn lemma_appends_members(log: LogView, lines: Seq<Seq<char>>, i: int)
    requires
        0 <= i < log.with_lines(lines).lines.len(),
    ensures
        lines.contains(log.with_lines(lines).lines[i]) || log.lines.contains(
            log.with_lines(lines).lines[i],
        ),
    decreases lines.len(),
{
    if lines.len() > 0 {
        let before = log.with_lines(lines.drop_last());
        let line = before.with_line(lines.last()).lines[i];
        lemma_append_members(before, lines.last(), i);
        if line == lines.last() {
            assert(lines[lines.len() - 1] == line);
        } else {
            let j = choose|j: int| 0 <= j < before.lines.len() && before.lines[j] == line;
            lemma_appends_members(log, lines.drop_last(), j);
            if lines.drop_last().contains(line) {
                let k = choose|k: int| 0 <= k < lines.drop_last().len() && lines.drop_last()[k] == line;
                assert(lines[k] == line);
            }
        }
    }
}

/// Lines that fit are all kept, in the order of arrival.
pub proof fn lemma_appends_that_fit(log: LogView, lines: Seq<Seq<char>>)
    requires
        log.wf(),
        log.lines.len() + lines.len() <= log.capacity,
    ensures
        log.with_lines(lines).lines == log.lines + lines,
    decreases lines.len(),
{
    if lines.len() > 0 {
        let before = log.with_lines(lines.drop_last());
        lemma_appends_that_fit(log, lines.drop_last());
        lemma_appends_bounded(log, lines.drop_last());
        assert(!before.full());
        assert(before.lines.push(lines.last()) =~= log.lines + lines);
    } else {
        assert(log.lines + lines =~= log.lines);
    }
}

/// A burst of one line more than the capacity into an empty buffer leaves
/// the newest lines: all but the oldest half batch.
pub proof fn lemma_burst(log: LogView, lines: Seq<Seq<char>>)
    requires
        log.wf(),
        log.lines.len() == 0,
        lines.len() == log.capacity + 1,
    ensures
        log.with_lines(lines).lines == lines.skip(half_batch(log.capacity) as int),
        1 <= log.with_lines(lines).lines.len() <= log.capacity,
{
    let before = log.with_lines(lines.drop_last());
    lemma_appends_that_fit(log, lines.drop_last());
    lemma_appends_bounded(log, lines.drop_last());
    assert(log.lines + lines.drop_last() =~= lines.drop_last());
    assert(before.full());
    assert(before.with_line(lines.last()).lines =~= lines.skip(half_batch(log.capacity) as int));
}

/// What the buffer holds after any number of appends is the end of what it
/// held followed by what arrived: nothing is reordered, and only the oldest
/// lines are dropped.
pub proof fn lemma_appends_keep_order(log: LogView, lines: Seq<Seq<char>>)
    requires
        log.wf(),
    ensures
        log.with_lines(lines).lines.is_suffix_of(log.lines + lines),
    decreases lines.len(),
{
    let all = log.lines + lines;
    if lines.len() == 0 {
        assert(all =~= log.lines);
        assert(log.lines == all.skip(0));
    } else {
        let before = log.with_lines(lines.drop_last());
        let all_before = log.lines + lines.drop_last();
        lemma_appends_keep_order(log, lines.drop_last());
        lemma_appends_bounded(log, lines.drop_last());
        let d = all_before.len() - before.lines.len();
        assert(before.lines == all_before.skip(d));
        assert(all_before.push(lines.last()) =~= all);
        let after = before.with_line(lines.last());
        if before.full() {
            let h = half_batch(log.capacity) as int;
            assert(after.lines =~= all.skip(d + h));
        } else {
            assert(after.lines =~= all.skip(d));
        }
    }
}

} // verus!
