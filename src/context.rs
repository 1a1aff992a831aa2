//! The bounded conversation log: turns in insertion order, of which only the
//! most recent `limit` are kept.
use crate::types::Message;
use vstd::prelude::*;

verus! {

/// The last `n` elements of `s`, or all of `s` when it is shorter.
pub open spec fn keep_last<T>(s: Seq<T>, n: nat) -> Seq<T> {
    if s.len() <= n {
        s
    } else {
        s.subrange(s.len() - n, s.len() as int)
    }
}

/// The log after appending each of `ms` in turn, starting from `s`.
pub open spec fn after_appends<T>(s: Seq<T>, ms: Seq<T>, limit: nat) -> Seq<T>
    decreases ms.len(),
{
    if ms.len() == 0 {
        s
    } else {
        after_appends(keep_last(s.push(ms[0]), limit), ms.drop_first(), limit)
    }
}

/// Trimming a prefix away first changes nothing of what is kept after more
/// elements come.
proof fn lemma_keep_last_absorbs<T>(x: Seq<T>, y: Seq<T>, n: nat)
    ensures
        keep_last(keep_last(x, n) + y, n) == keep_last(x + y, n),
{
    let xk = keep_last(x, n);
    if x.len() > n {
        let l = keep_last(xk + y, n);
        let r = keep_last(x + y, n);
        assert(l.len() == r.len());
        assert forall|i: int| 0 <= i < l.len() implies l[i] == r[i] by {
            let d = x.len() - n;
            if (xk + y).len() > n {
                assert(l[i] == (xk + y)[(xk + y).len() - n + i]);
                assert(r[i] == (x + y)[(x + y).len() - n + i]);
                let k = (xk + y).len() - n + i;
                if k < xk.len() {
                    assert((xk + y)[k] == x[d + k]);
                } else {
                    assert((xk + y)[k] == y[k - xk.len()]);
                }
            }
        }
        assert(l =~= r);
    }
}

/// The log stays within its bound, and after any sequence of appends to a
/// log within the bound it holds exactly the most recently appended turns,
/// in the order they came.
pub proof fn lemma_appends_keep_most_recent<T>(s: Seq<T>, ms: Seq<T>, limit: nat)
    requires
        s.len() <= limit,
    ensures
        after_appends(s, ms, limit) == keep_last(s + ms, limit),
        after_appends(s, ms, limit).len() <= limit,
    decreases ms.len(),
{
    if ms.len() > 0 {
        let s1 = keep_last(s.push(ms[0]), limit);
        lemma_appends_keep_most_recent(s1, ms.drop_first(), limit);
        lemma_keep_last_absorbs(s.push(ms[0]), ms.drop_first(), limit);
        assert(s.push(ms[0]) + ms.drop_first() =~= s + ms);
    }
}

/// The conversation log and the bound it keeps to.
pub struct Context {
    turns: Vec<Message>,
    limit: usize,
}

impl Context {
    pub closed spec fn turns_spec(&self) -> Seq<Message> {
        self.turns@
    }

    pub closed spec fn limit_spec(&self) -> nat {
        self.limit as nat
    }

    /// The log never holds more turns than its bound.
    pub open spec fn wf(&self) -> bool {
        self.turns_spec().len() <= self.limit_spec()
    }

    /// An empty log with bound `limit`.
    pub fn new(limit: usize) -> (r: Context)
        ensures
            r.wf(),
            r.turns_spec() == Seq::<Message>::empty(),
            r.limit_spec() == limit,
    {
        Context { turns: Vec::new(), limit }
    }

    /// A log holding the most recent `limit` of `turns`, as when persisted
    /// turns are loaded.
    pub fn from_turns(turns: Vec<Message>, limit: usize) -> (r: Context)
        ensures
            r.wf(),
            r.turns_spec() == keep_last(turns@, limit as nat),
            r.limit_spec() == limit,
    {
        let mut turns = turns;
        if turns.len() > limit {
            let at = turns.len() - limit;
            turns = turns.split_off(at);
        }
        Context { turns, limit }
    }

    pub fn limit(&self) -> (r: usize)
        ensures
            r == self.limit_spec(),
    {
        self.limit
    }

    pub fn len(&self) -> (r: usize)
        ensures
            r == self.turns_spec().len(),
    {
        self.turns.len()
    }

    /// The turns in order, oldest first.
    pub fn snapshot(&self) -> (r: &Vec<Message>)
        ensures
            r@ == self.turns_spec(),
    {
        &self.turns
    }

    /// Appends `m`; when the log then exceeds its bound, the oldest turn goes.
    pub fn append(&mut self, m: Message)
        requires
            old(self).wf(),
        ensures
            final(self).wf(),
            final(self).limit_spec() == old(self).limit_spec(),
            final(self).turns_spec() == keep_last(
                old(self).turns_spec().push(m),
                old(self).limit_spec(),
            ),
    {
        self.turns.push(m);
        if self.turns.len() > self.limit {
            self.turns.remove(0);
            assert(self.turns@ =~= keep_last(old(self).turns@.push(m), self.limit as nat));
        }
    }

    /// Changes the bound, dropping the oldest turns that no longer fit.
    pub fn set_limit(&mut self, limit: usize)
        ensures
            final(self).wf(),
            final(self).limit_spec() == limit,
            final(self).turns_spec() == keep_last(old(self).turns_spec(), limit as nat),
    {
        if self.turns.len() > limit {
            let at = self.turns.len() - limit;
            self.turns = self.turns.split_off(at);
        }
        self.limit = limit;
    }

    /// Empties the log.
    pub fn clear(&mut self)
        ensures
            final(self).wf(),
            final(self).limit_spec() == old(self).limit_spec(),
            final(self).turns_spec() == Seq::<Message>::empty(),
    {
        self.turns.clear();
    }
}

} // verus!
