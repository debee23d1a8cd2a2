//! A history of bounded length: each new entry is kept, and once the history
//! is full the oldest entry makes room for it.

use std::collections::VecDeque;

use vstd::prelude::*;

verus! {

/// The last `n` items of a sequence (all of them when there are no more).
pub open spec fn latest<T>(s: Seq<T>, n: nat) -> Seq<T> {
    if s.len() <= n {
        s
    } else {
        s.subrange(s.len() - n, s.len() as int)
    }
}

/// The entries after a push onto a history that holds at most `cap`.
pub open spec fn capped_push<T>(s: Seq<T>, x: T, cap: nat) -> Seq<T> {
    if s.len() >= cap {
        s.drop_first().push(x)
    } else {
        s.push(x)
    }
}

/// The entries after several pushes, in order.
pub open spec fn capped_push_all<T>(s: Seq<T>, xs: Seq<T>, cap: nat) -> Seq<T>
    decreases xs.len(),
{
    if xs.len() == 0 {
        s
    } else {
        capped_push(capped_push_all(s, xs.drop_last(), cap), xs.last(), cap)
    }
}

/// Entries of type `T`, oldest first, at most `cap` of them.
pub struct History<T> {
    items: VecDeque<T>,
    cap: usize,
}

impl<T> History<T> {
    /// The entries, oldest first.
    pub closed spec fn entries(&self) -> Seq<T> {
        self.items@
    }

    /// The most entries kept.
    pub closed spec fn capacity(&self) -> nat {
        self.cap as nat
    }

    /// There is room for one entry, and no more entries than that are kept.
    pub open spec fn wf(&self) -> bool {
        &&& self.capacity() > 0
        &&& self.entries().len() <= self.capacity()
    }

    /// An empty history that keeps at most `cap` entries.
    pub fn new(cap: usize) -> (h: History<T>)
        requires
            cap > 0,
        ensures
            h.wf(),
            h.entries() == Seq::<T>::empty(),
            h.capacity() == cap,
    {
        History { items: VecDeque::new(), cap }
    }

    /// Appends an entry, dropping the oldest when the history is full.
    pub fn push(&mut self, x: T)
        requires
            old(self).wf(),
        ensures
            final(self).wf(),
            final(self).capacity() == old(self).capacity(),
            final(self).entries() == capped_push(old(self).entries(), x, old(self).capacity()),
    {
        if self.items.len() >= self.cap {
            self.items.pop_front();
        }
        self.items.push_back(x);
    }

    /// Forgets every entry.
    pub fn clear(&mut self)
        requires
            old(self).wf(),
        ensures
            final(self).wf(),
            final(self).capacity() == old(self).capacity(),
            final(self).entries() == Seq::<T>::empty(),
    {
        self.items.clear();
    }

    /// The number of entries.
    pub fn len(&self) -> (n: usize)
        ensures
            n == self.entries().len(),
    {
        self.items.len()
    }

    /// The entry at position `i`, the oldest at 0.
    pub fn get(&self, i: usize) -> (x: &T)
        requires
            i < self.entries().len(),
        ensures
            *x == self.entries()[i as int],
    {
        &self.items[i]
    }
}

/// Whatever is pushed, a history holds the latest `cap` of all entries
/// pushed, oldest first.
pub proof fn lemma_keeps_latest<T>(s: Seq<T>, xs: Seq<T>, cap: nat)
    requires
        cap > 0,
        s.len() <= cap,
    ensures
        capped_push_all(s, xs, cap) == latest(s + xs, cap),
    decreases xs.len(),
{
    if xs.len() == 0 {
        assert(s + xs =~= s);
    } else {
        let rest = xs.drop_last();
        let x = xs.last();
        lemma_keeps_latest(s, rest, cap);
        let l = s + rest;
        assert(s + xs =~= l.push(x));
        if l.len() >= cap {
            assert(latest(l, cap).drop_first().push(x) =~= latest(l.push(x), cap));
        } else {
            assert(latest(l, cap).push(x) =~= latest(l.push(x), cap));
        }
    }
}

} // verus!
