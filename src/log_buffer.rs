use vstd::prelude::*;

verus! {

/// Largest number of lines a process keeps in its log.
pub const MAX_LOG_LINES: usize = 2000;

/// An ordered sequence of captured output lines that keeps at most `max`
/// lines, dropping the oldest first.
pub struct LogBuffer {
    lines: Vec<String>,
    max: usize,
}

impl LogBuffer {
    /// The lines currently held, oldest first.
    pub closed spec fn view_lines(&self) -> Seq<Seq<char>> {
        self.lines@.map_values(|l: String| l@)
    }

    /// The retention bound.
    pub closed spec fn capacity(&self) -> nat {
        self.max as nat
    }

    pub closed spec fn wf(&self) -> bool {
        0 < self.max && self.lines@.len() <= self.max
    }

    /// An empty buffer that keeps at most `max` lines.
    pub fn with_capacity(max: usize) -> (r: LogBuffer)
        requires
            max > 0,
        ensures
            r.wf(),
            r.capacity() == max,
            r.view_lines() == Seq::<Seq<char>>::empty(),
    {
        let r = LogBuffer { lines: Vec::new(), max };
        assert(r.view_lines() =~= Seq::<Seq<char>>::empty());
        r
    }

    /// An empty buffer with the default bound.
    pub fn new() -> (r: LogBuffer)
        ensures
            r.wf(),
            r.capacity() == MAX_LOG_LINES,
            r.view_lines() == Seq::<Seq<char>>::empty(),
    {
        LogBuffer::with_capacity(MAX_LOG_LINES)
    }

    pub fn len(&self) -> (r: usize)
        ensures
            r == self.view_lines().len(),
    {
        self.lines.len()
    }

    /// Appends one line, evicting the oldest line when the bound would be
    /// exceeded.
    pub fn push(&mut self, line: String)
        requires
            old(self).wf(),
        ensures
            final(self).wf(),
            final(self).capacity() == old(self).capacity(),
            final(self).view_lines() == bounded_append(
                old(self).view_lines(),
                line@,
                old(self).capacity(),
            ),
    {
        if self.lines.len() >= self.max {
            self.lines.remove(0);
        }
        self.lines.push(line);
        proof {
            let ghost o = old(self).view_lines();
            assert(self.view_lines() =~= bounded_append(o, line@, old(self).capacity()));
        }
    }

    /// A copy of the lines currently held, oldest first.
    pub fn snapshot(&self) -> (r: Vec<String>)
        ensures
            r@.map_values(|l: String| l@) == self.view_lines(),
    {
        let r = self.lines.clone();
        assert(r@.map_values(|l: String| l@) =~= self.view_lines());
        r
    }
}

/// `lines` followed by `line`, keeping only the newest `max` entries.
pub open spec fn bounded_append(lines: Seq<Seq<char>>, line: Seq<char>, max: nat) -> Seq<Seq<char>> {
    let all = lines.push(line);
    if all.len() > max {
        all.subrange(all.len() - max, all.len() as int)
    } else {
        all
    }
}

/// The newest `max` entries of `s` (all of them when there are fewer).
pub open spec fn newest(s: Seq<Seq<char>>, max: nat) -> Seq<Seq<char>> {
    if s.len() > max {
        s.subrange(s.len() - max, s.len() as int)
    } else {
        s
    }
}

/// `lines` after appending each of `added` in turn.
pub open spec fn append_all(lines: Seq<Seq<char>>, added: Seq<Seq<char>>, max: nat) -> Seq<Seq<char>>
    decreases added.len(),
{
    if added.len() == 0 {
        lines
    } else {
        bounded_append(append_all(lines, added.drop_last(), max), added.last(), max)
    }
}

/// After any sequence of appends a buffer holds at most its bound, and what
/// it holds is the newest lines in the order they came: the oldest are the
/// ones evicted.
pub proof fn lemma_appends_keep_newest(lines: Seq<Seq<char>>, added: Seq<Seq<char>>, max: nat)
    requires
        0 < max,
        lines.len() <= max,
    ensures
        append_all(lines, added, max).len() <= max,
        append_all(lines, added, max) == newest(lines + added, max),
    decreases added.len(),
{
    if added.len() == 0 {
        assert(lines + added =~= lines);
    } else {
        let prev = added.drop_last();
        lemma_appends_keep_newest(lines, prev, max);
        let a = lines + prev;
        assert(lines + added =~= a.push(added.last()));
        assert(bounded_append(newest(a, max), added.last(), max) =~= newest(a.push(added.last()), max));
    }
}

} // verus!
