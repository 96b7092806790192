//! The output history: an append-only, capacity-bounded sequence of display
//! lines. When an append would exceed the capacity, the oldest lines are
//! evicted first (FIFO eviction); the newest line is never evicted.

use std::collections::VecDeque;
use vstd::prelude::*;

verus! {

/// One append to a bounded history: push the line at the end, then drop
/// lines from the front until at most `cap` remain.
pub open spec fn fifo_push(h: Seq<Seq<char>>, line: Seq<char>, cap: nat) -> Seq<Seq<char>> {
    let grown = h.push(line);
    if grown.len() <= cap {
        grown
    } else {
        grown.skip(grown.len() - cap)
    }
}

/// A sequence of appends to a bounded history, oldest first.
pub open spec fn fifo_extend(h: Seq<Seq<char>>, lines: Seq<Seq<char>>, cap: nat) -> Seq<
    Seq<char>,
>
    decreases lines.len(),
{
    if lines.len() == 0 {
        h
    } else {
        fifo_extend(fifo_push(h, lines[0], cap), lines.skip(1), cap)
    }
}

/// The capacity-bounded output history.
pub struct History {
    lines: VecDeque<String>,
    cap: usize,
}

impl View for History {
    type V = Seq<Seq<char>>;

    closed spec fn view(&self) -> Seq<Seq<char>> {
        self.lines@.map_values(|s: String| s@)
    }
}

impl History {
    /// The bound on the number of retained lines.
    pub closed spec fn capacity(self) -> nat {
        self.cap as nat
    }

    /// The history never holds more lines than its capacity.
    pub open spec fn wf(self) -> bool {
        self@.len() <= self.capacity()
    }

    /// An empty history that will retain at most `cap` lines.
    pub fn with_capacity(cap: usize) -> (r: History)
        ensures
            r.wf(),
            r@ == Seq::<Seq<char>>::empty(),
            r.capacity() == cap,
    {
        let r = History { lines: VecDeque::new(), cap };
        proof {
            assert(r@ =~= Seq::<Seq<char>>::empty());
        }
        r
    }

    /// How many lines are currently retained.
    pub fn len(&self) -> (r: usize)
        ensures
            r == self@.len(),
    {
        self.lines.len()
    }

    /// Append one line at the end, evicting from the front if the capacity
    /// would be exceeded.
    pub fn append(&mut self, line: String)
        requires
            old(self).wf(),
        ensures
            final(self).wf(),
            final(self).capacity() == old(self).capacity(),
            final(self)@ == fifo_push(old(self)@, line@, old(self).capacity()),
    {
        let ghost target = fifo_push(old(self)@, line@, old(self).capacity());
        self.lines.push_back(line);
        proof {
            assert(self.lines@.map_values(|s: String| s@) =~= old(self)@.push(line@));
            if self.lines@.len() > self.cap as nat {
                assert(self@.skip(1) =~= target);
            }
        }
        while self.lines.len() > self.cap
            invariant
                self.cap == old(self).cap,
                self.lines@.len() > self.cap as nat ==> self.lines@.len() == self.cap as nat + 1
                    && self@.skip(1) == target,
                self.lines@.len() <= self.cap as nat ==> self@ == target,
            decreases self.lines@.len(),
        {
            let ghost prev = self.lines@;
            let _ = self.lines.pop_front();
            proof {
                lemma_map_values_drop_first(prev, self.lines@);
                assert(prev.map_values(|s: String| s@).drop_first() =~= prev.map_values(
                    |s: String| s@,
                ).skip(1));
            }
        }
        proof {
            assert(self@ == target);
        }
    }

    /// A read-only copy of the retained lines, oldest first.
    pub fn snapshot(&self) -> (r: Vec<String>)
        ensures
            r@.map_values(|s: String| s@) == self@,
    {
        let mut out: Vec<String> = Vec::new();
        let n: usize = self.lines.len();
        let mut i: usize = 0;
        while i < n
            invariant
                n == self.lines@.len(),
                i <= n,
                out@.len() == i,
                forall|j: int| 0 <= j < i ==> out@[j]@ == self.lines@[j]@,
            decreases n - i,
        {
            out.push(self.lines[i].clone());
            i = i + 1;
        }
        proof {
            assert(out@.map_values(|s: String| s@) =~= self@);
        }
        out
    }
}

/// Dropping the first element commutes with mapping each line to its view.
proof fn lemma_map_values_drop_first(before: Seq<String>, after: Seq<String>)
    requires
        before.len() > 0,
        after == before.drop_first(),
    ensures
        after.map_values(|s: String| s@) == before.map_values(|s: String| s@).drop_first(),
{
    assert(after.map_values(|s: String| s@) =~= before.map_values(
        |s: String| s@,
    ).drop_first());
}

/// The FIFO eviction law: when at least `cap` lines are appended to a
/// well-formed history, exactly the last `cap` appended lines remain, in
/// order, and the history is full.
pub proof fn lemma_fifo_eviction(h: Seq<Seq<char>>, lines: Seq<Seq<char>>, cap: nat)
    requires
        h.len() <= cap,
        lines.len() >= cap,
    ensures
        fifo_extend(h, lines, cap) == lines.skip(lines.len() - cap),
        fifo_extend(h, lines, cap).len() == cap,
{
    lemma_fifo_extend_shape(h, lines, cap);
    assert(fifo_extend(h, lines, cap) =~= lines.skip(lines.len() - cap));
}

/// General shape of repeated appends: the result is the suffix of
/// `h + lines` that fits in the capacity.
pub proof fn lemma_fifo_extend_shape(h: Seq<Seq<char>>, lines: Seq<Seq<char>>, cap: nat)
    requires
        h.len() <= cap,
    ensures
        fifo_extend(h, lines, cap) == if h.len() + lines.len() <= cap {
            h + lines
        } else {
            (h + lines).skip(h.len() + lines.len() - cap)
        },
        fifo_extend(h, lines, cap).len() <= cap,
    decreases lines.len(),
{
    if lines.len() == 0 {
        assert(h + lines =~= h);
    } else {
        let h1 = fifo_push(h, lines[0], cap);
        assert(h1.len() <= cap);
        lemma_fifo_extend_shape(h1, lines.skip(1), cap);
        if h.len() + 1 <= cap {
            assert(h1 =~= h.push(lines[0]));
            assert(h.push(lines[0]) + lines.skip(1) =~= h + lines);
            if h.len() + lines.len() > cap {
                assert((h.push(lines[0]) + lines.skip(1)).skip(
                    h.len() + 1 + (lines.len() - 1) - cap,
                ) =~= (h + lines).skip(h.len() + lines.len() - cap));
            }
        } else {
            assert(h.len() == cap);
            assert(h1 =~= h.push(lines[0]).skip(1));
            assert(h1 + lines.skip(1) =~= (h + lines).skip(1));
            if h1.len() + (lines.len() - 1) <= cap {
                assert((h + lines).skip(1) =~= (h + lines).skip(
                    h.len() + lines.len() - cap,
                ));
            } else {
                assert((h1 + lines.skip(1)).skip(h1.len() + (lines.len() - 1) - cap) =~= (h
                    + lines).skip(h.len() + lines.len() - cap));
            }
        }
    }
}

/// A run of exactly one append.
pub proof fn lemma_fifo_extend_one(h: Seq<Seq<char>>, x: Seq<char>, cap: nat)
    ensures
        fifo_extend(h, seq![x], cap) == fifo_push(h, x, cap),
{
    reveal_with_fuel(fifo_extend, 2);
    assert(seq![x].skip(1) =~= Seq::<Seq<char>>::empty());
}

/// A run of exactly two appends.
pub proof fn lemma_fifo_extend_two(h: Seq<Seq<char>>, x: Seq<char>, y: Seq<char>, cap: nat)
    ensures
        fifo_extend(h, seq![x, y], cap) == fifo_push(fifo_push(h, x, cap), y, cap),
{
    assert(seq![x, y].skip(1) =~= seq![y]);
    lemma_fifo_extend_one(fifo_push(h, x, cap), y, cap);
}

} // verus!
