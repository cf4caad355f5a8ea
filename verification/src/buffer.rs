//! Bounded, FIFO-evicting line buffer with a selection cursor.

use vstd::prelude::*;

verus! {

/// One line of buffer content, abstractly: the characters of the string.
/// The buffer of a source is modelled as a sequence of such lines.
pub type LineSeq = Seq<Seq<char>>;

/// The contents after one bounded append: the new line goes to the back,
/// and the front is dropped as far as the capacity demands.
pub open spec fn fifo_push(cap: nat, s: LineSeq, line: Seq<char>) -> LineSeq {
    if s.len() < cap {
        s.push(line)
    } else {
        s.push(line).skip(s.len() + 1 - cap)
    }
}

/// The contents after appending each line of `lines` in order.
pub open spec fn fifo_push_all(cap: nat, s: LineSeq, lines: LineSeq) -> LineSeq
    decreases lines.len(),
{
    if lines.len() == 0 {
        s
    } else {
        fifo_push_all(cap, fifo_push(cap, s, lines[0]), lines.skip(1))
    }
}

/// The selection cursor after bulk-appending `k` lines to a buffer of
/// `len` lines and capacity `cap`: the fold of `append`'s cursor rule.
/// No lines leave the cursor alone; appending from below capacity tracks
/// the newest line until capacity is reached; a buffer already at
/// capacity keeps its cursor through every eviction.
pub open spec fn bulk_selection(sel: Option<usize>, len: nat, cap: nat, k: nat) -> Option<usize> {
    if k == 0 {
        sel
    } else if len < cap {
        if len + k <= cap {
            Some((len + k - 1) as usize)
        } else {
            Some((cap - 1) as usize)
        }
    } else {
        sel
    }
}

/// Where a selection cursor moves: with no cursor it enters the list at
/// the end the motion starts from (the oldest line going forward, the
/// newest going backward); otherwise it advances or retreats by one,
/// clamped so it never leaves `[0, len - 1]`. On an empty buffer nothing
/// moves.
pub open spec fn moved_selection(sel: Option<usize>, len: nat, forward: bool) -> Option<usize> {
    if len == 0 {
        sel
    } else {
        match sel {
            None => if forward {
                Some(0usize)
            } else {
                Some((len - 1) as usize)
            },
            Some(i) => if forward {
                if i + 1 < len {
                    Some((i + 1) as usize)
                } else {
                    Some(i)
                }
            } else {
                if i > 0 {
                    Some((i - 1) as usize)
                } else {
                    Some(i)
                }
            },
        }
    }
}

/// Is `sel` a cursor inside a buffer of `len` lines?
pub open spec fn selection_in_range(sel: Option<usize>, len: nat) -> bool {
    match sel {
        Some(i) => i < len,
        None => false,
    }
}

/// A capacity-bounded, FIFO-evicting ordered sequence of a source's most
/// recent lines, with an optional selection cursor.
pub struct ContentBuffer {
    /// Retained lines, oldest first.
    pub items: Vec<String>,
    /// Selection cursor: an index into `items`, or none.
    pub selected: Option<usize>,
    /// Capacity: `items` never grows beyond this many lines.
    pub max_lines: usize,
}

impl ContentBuffer {
    /// The retained lines, abstractly.
    pub open spec fn lines(&self) -> LineSeq {
        self.items.deep_view()
    }

    /// The capacity, abstractly.
    pub open spec fn cap(&self) -> nat {
        self.max_lines as nat
    }

    /// Well-formed: within capacity, and the cursor (when set) points at
    /// a retained line.
    pub open spec fn wf(&self) -> bool {
        &&& self.items@.len() <= self.max_lines
        &&& (self.selected matches Some(i) ==> i < self.items@.len())
    }

    /// An empty buffer of capacity `max_lines`.
    pub fn new(max_lines: usize) -> (buf: ContentBuffer)
        ensures
            buf.wf(),
            buf.lines() == Seq::<Seq<char>>::empty(),
            buf.selected is None,
            buf.max_lines == max_lines,
    {
        let buf = ContentBuffer { items: Vec::new(), selected: None, max_lines };
        proof {
            assert(buf.lines() =~= Seq::<Seq<char>>::empty());
        }
        buf
    }

    /// Appends a line at the back. If that would exceed the capacity, the
    /// oldest retained line is evicted from the front; the cursor is then
    /// left untouched. Without eviction the cursor moves to the new line.
    pub fn append(&mut self, line: String)
        requires
            old(self).wf(),
        ensures
            final(self).wf(),
            final(self).max_lines == old(self).max_lines,
            final(self).lines() == fifo_push(old(self).cap(), old(self).lines(), line@),
            old(self).items@.len() < old(self).max_lines ==> final(self).selected == Some(
                (final(self).items@.len() - 1) as usize,
            ),
            old(self).items@.len() >= old(self).max_lines ==> final(self).selected == old(
                self,
            ).selected,
            old(self).items@.len() == old(self).max_lines && old(self).max_lines > 0
                ==> final(self).lines() == old(self).lines().skip(1).push(line@),
    {
        let ghost prev = self.items.deep_view();
        self.items.push(line);
        proof {
            assert(self.items.deep_view() =~= prev.push(line@));
        }
        if self.items.len() > self.max_lines {
            let ghost pushed = self.items.deep_view();
            self.items.remove(0);
            proof {
                assert(self.items.deep_view() =~= pushed.skip(1));
                assert(fifo_push(old(self).cap(), prev, line@) == prev.push(line@).skip(
                    prev.len() + 1 - old(self).cap(),
                ));
                assert(self.items.deep_view() =~= fifo_push(old(self).cap(), prev, line@));
                if old(self).items@.len() == old(self).max_lines && old(self).max_lines > 0 {
                    assert(self.items.deep_view() =~= old(self).lines().skip(1).push(line@));
                }
            }
        } else {
            let idx = self.items.len() - 1;
            self.selected = Some(idx);
        }
    }

    /// Moves the selection cursor one step forward (toward the newest
    /// line) or backward (toward the oldest), per `moved_selection`.
    pub fn move_selection(&mut self, forward: bool)
        requires
            old(self).wf(),
        ensures
            final(self).wf(),
            final(self).items == old(self).items,
            final(self).max_lines == old(self).max_lines,
            final(self).selected == moved_selection(
                old(self).selected,
                old(self).items@.len(),
                forward,
            ),
    {
        let len = self.items.len();
        if len == 0 {
            return ;
        }
        match self.selected {
            None => {
                if forward {
                    self.selected = Some(0);
                } else {
                    self.selected = Some(len - 1);
                }
            },
            Some(i) => {
                if forward {
                    if i + 1 < len {
                        self.selected = Some(i + 1);
                    }
                } else {
                    if i > 0 {
                        self.selected = Some(i - 1);
                    }
                }
            },
        }
    }

    /// Bulk-applies `append` to each line in order, as when a file's
    /// pre-existing content is loaded at startup: the retained lines and
    /// the cursor both end as that sequence of appends leaves them.
    pub fn load_initial(&mut self, lines: &Vec<String>)
        requires
            old(self).wf(),
        ensures
            final(self).wf(),
            final(self).max_lines == old(self).max_lines,
            final(self).lines() == fifo_push_all(old(self).cap(), old(self).lines(), lines.deep_view()),
            final(self).selected == bulk_selection(
                old(self).selected,
                old(self).items@.len(),
                old(self).cap(),
                lines@.len(),
            ),
    {
        let ghost all = lines.deep_view();
        proof {
            assert(all.skip(0) =~= all);
        }
        let n = lines.len();
        let mut k: usize = 0;
        while k < n
            invariant
                n == lines@.len(),
                k <= n,
                all == lines.deep_view(),
                self.wf(),
                self.max_lines == old(self).max_lines,
                fifo_push_all(self.cap(), self.lines(), all.skip(k as int)) == fifo_push_all(
                    old(self).cap(),
                    old(self).lines(),
                    all,
                ),
                self.items@.len() == if old(self).items@.len() + k <= old(self).cap() {
                    old(self).items@.len() + k
                } else {
                    old(self).cap() as int
                },
                self.selected == bulk_selection(
                    old(self).selected,
                    old(self).items@.len(),
                    old(self).cap(),
                    k as nat,
                ),
            decreases n - k,
        {
            let ghost before = self.lines();
            let ghost rest = all.skip(k as int);
            let line = lines[k].clone();
            proof {
                assert(line@ == all[k as int]);
                assert(rest[0] == all[k as int]);
                assert(rest.len() > 0);
            }
            self.append(line);
            proof {
                assert(self.lines() == fifo_push(self.cap(), before, rest[0]));
                assert(fifo_push_all(self.cap(), before, rest) == fifo_push_all(
                    self.cap(),
                    self.lines(),
                    rest.skip(1),
                ));
                assert(rest.skip(1) =~= all.skip(k as int + 1));
            }
            k = k + 1;
        }
        proof {
            assert(all.skip(n as int) =~= Seq::<Seq<char>>::empty());
        }
    }
}

/// LAW: a buffer fed any sequence of lines retains exactly the trailing
/// window of the combined content — the last `cap` lines of `s + lines`,
/// or all of them when they number at most `cap`. In particular length
/// never exceeds `cap`, retention is in arrival order, and eviction is
/// strict FIFO from the front.
pub proof fn lemma_fifo_push_all_window(cap: nat, s: LineSeq, lines: LineSeq)
    requires
        s.len() <= cap,
    ensures
        fifo_push_all(cap, s, lines) == if s.len() + lines.len() <= cap {
            s + lines
        } else {
            (s + lines).skip(s.len() + lines.len() - cap)
        },
    decreases lines.len(),
{
    if lines.len() == 0 {
        assert(s + lines =~= s);
    } else {
        let s1 = fifo_push(cap, s, lines[0]);
        assert(s1.len() <= cap);
        lemma_fifo_push_all_window(cap, s1, lines.skip(1));
        if s.len() < cap {
            assert(s1 + lines.skip(1) =~= s + lines);
        } else {
            assert(s1 =~= (s + lines).subrange(
                s.len() + 1 - cap,
                s.len() + 1 as int,
            ));
            assert(s1 + lines.skip(1) =~= (s + lines).skip(s.len() + 1 - cap));
            if s.len() + lines.len() <= cap {
                assert(s.len() == cap && lines.len() == 1);
                assert(fifo_push_all(cap, s, lines) == s1);
                assert((s + lines).skip(1) =~= s1);
                assert((s + lines).skip(s.len() + lines.len() - cap) == (s + lines).skip(1));
            } else {
                let t = s1 + lines.skip(1);
                if s1.len() + lines.skip(1).len() <= cap {
                    assert(fifo_push_all(cap, s, lines) == t);
                    assert(t =~= (s + lines).skip(s.len() + lines.len() - cap));
                } else {
                    assert(fifo_push_all(cap, s, lines) == t.skip(
                        s1.len() + lines.skip(1).len() - cap,
                    ));
                    assert(t.skip(s1.len() + lines.skip(1).len() - cap) =~= (s + lines).skip(
                        s.len() + lines.len() - cap,
                    ));
                }
            }
        }
    }
}

/// LAW: starting from an empty buffer, `N` appended lines leave exactly
/// the last `min(N, cap)` lines, in arrival order.
pub proof fn lemma_fifo_from_empty(cap: nat, lines: LineSeq)
    ensures
        fifo_push_all(cap, Seq::<Seq<char>>::empty(), lines) == if lines.len() <= cap {
            lines
        } else {
            lines.skip(lines.len() - cap)
        },
        fifo_push_all(cap, Seq::<Seq<char>>::empty(), lines).len() == if lines.len() <= cap {
            lines.len()
        } else {
            cap
        },
{
    let e = Seq::<Seq<char>>::empty();
    lemma_fifo_push_all_window(cap, e, lines);
    assert(e + lines =~= lines);
}

/// LAW: one bounded append at capacity drops exactly the oldest retained
/// line and keeps the rest in order, with the new line at the back.
pub proof fn lemma_fifo_push_evicts_oldest(cap: nat, s: LineSeq, line: Seq<char>)
    requires
        s.len() == cap,
        cap > 0,
    ensures
        fifo_push(cap, s, line) == s.skip(1).push(line),
        fifo_push(cap, s, line).len() == cap,
{
    assert(fifo_push(cap, s, line) =~= s.skip(1).push(line));
}

/// LAW: the moved cursor of a non-empty buffer always lies inside
/// `[0, len - 1]`, and at the boundary the clamped motion is idempotent:
/// moving forward at the newest line, or backward at the oldest, changes
/// nothing.
pub proof fn lemma_move_selection_clamped(sel: Option<usize>, len: nat, forward: bool)
    requires
        len > 0,
        len <= usize::MAX,
        sel matches Some(i) ==> i < len,
    ensures
        selection_in_range(moved_selection(sel, len, forward), len),
        forward && sel == Some((len - 1) as usize) ==> moved_selection(sel, len, forward) == sel,
        !forward && sel == Some(0usize) ==> moved_selection(sel, len, forward) == sel,
{
}

} // verus!
