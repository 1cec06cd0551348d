//! The child-enumeration state machine.
//!
//! A [`ChildStream`] walks a parent node's children one index at a time,
//! holding at most one outstanding remote call. The surrounding program
//! drives it: [`ChildStream::next_action`] says whether to issue a fresh
//! child-at-index call, keep waiting on the outstanding one, or stop; the
//! call's reply is handed back through [`ChildStream::resolve`], which yields
//! the item for that index and decides whether the index advances.
//!
//! Failures are per-item, not terminal. With the retry flag off, a failed
//! call is yielded as a failed item and enumeration moves to the next index.
//! With the retry flag on, a failed call is yielded but the index does not
//! advance, so the same index is re-issued on the next step: a persistently
//! failing index live-locks enumeration forever. That behaviour is kept
//! deliberately; see [`lemma_retry_livelock`].
//!
//! Dropping the stream mid-enumeration is inert: the machine only acts when
//! one of its methods is called, so no further call is requested and the
//! discarded outstanding call yields no item.

use vstd::prelude::*;
use crate::handle::Accessible;

verus! {

/// What the consumer must do next to advance enumeration.
#[derive(Clone, Copy, PartialEq, Eq, Structural, Debug)]
pub enum PollAction {
    /// Enumeration is over: every index has been visited.
    Finished,
    /// Issue a child-at-index call for this index; it is now outstanding.
    Issue(i32),
    /// A call for this index is already outstanding; wait for its reply.
    Wait(i32),
}

/// State of one child enumeration: bound to one parent handle and one fixed
/// child count, both set at construction. The count is never re-queried, so
/// a remote child count that changes mid-enumeration is not seen. The fields
/// are private and no method ever moves the index backwards: an exhausted
/// stream stays exhausted and cannot be restarted.
pub struct ChildStream<'a, C> {
    parent: &'a Accessible<C>,
    current: i32,
    total: i32,
    retry: bool,
    pending: bool,
}

/// The index reached after one resolved call: it advances unless the call
/// failed and the retry flag keeps enumeration at the failing index.
pub open spec fn resolve_current(current: int, retry: bool, ok: bool) -> int {
    if ok || !retry {
        current + 1
    } else {
        current
    }
}

/// Indices of the items yielded by a run of the machine that starts at
/// `current` and resolves one call per entry of `oks` (`true` for a call
/// that succeeded), stopping early if enumeration finishes.
pub open spec fn yielded_indices(current: int, total: int, retry: bool, oks: Seq<bool>) -> Seq<int>
    decreases oks.len(),
{
    if oks.len() == 0 || current >= total {
        Seq::empty()
    } else {
        seq![current] + yielded_indices(
            resolve_current(current, retry, oks[0]),
            total,
            retry,
            oks.drop_first(),
        )
    }
}

/// The index the machine stands at after the run described in
/// [`yielded_indices`].
pub open spec fn current_after(current: int, total: int, retry: bool, oks: Seq<bool>) -> int
    decreases oks.len(),
{
    if oks.len() == 0 || current >= total {
        current
    } else {
        current_after(resolve_current(current, retry, oks[0]), total, retry, oks.drop_first())
    }
}

/// Law: with the retry flag off, every resolved call — success or failure —
/// yields the item for the index it was issued at and moves enumeration one
/// index forward, so a run of `oks.len()` resolved calls starting at
/// `current` yields exactly the indices `current, current + 1, ...`, one
/// each, in increasing order, with no duplicates.
pub proof fn lemma_no_retry_each_index_once(current: int, total: int, oks: Seq<bool>)
    requires
        0 <= current,
        current + oks.len() <= total,
    ensures
        yielded_indices(current, total, false, oks) =~= Seq::new(
            oks.len(),
            |k: int| current + k,
        ),
        current_after(current, total, false, oks) == current + oks.len(),
    decreases oks.len(),
{
    if oks.len() == 0 {
    } else {
        lemma_no_retry_each_index_once(current + 1, total, oks.drop_first());
    }
}

/// Law: an enumeration with the retry flag off over `total` children, given
/// one reply per index in whatever mix of successes and failures, yields
/// exactly `total` items, the item at position `k` belonging to index `k`,
/// and stands at the end afterwards.
pub proof fn lemma_enumeration_complete(total: int, oks: Seq<bool>)
    requires
        0 <= total,
        oks.len() == total,
    ensures
        yielded_indices(0, total, false, oks) =~= Seq::new(total as nat, |k: int| k),
        current_after(0, total, false, oks) == total,
{
    lemma_no_retry_each_index_once(0, total, oks);
}

/// Law: with the retry flag on, a failing reply never advances the index, so
/// as long as every reply fails the machine stays at the same index, yields
/// one failed item for it per step, and never advances past it: a
/// persistently failing index live-locks enumeration.
pub proof fn lemma_retry_livelock(current: int, total: int, oks: Seq<bool>)
    requires
        0 <= current < total,
        forall|i: int| 0 <= i < oks.len() ==> !oks[i],
    ensures
        current_after(current, total, true, oks) == current,
        yielded_indices(current, total, true, oks) =~= Seq::new(oks.len(), |k: int| current),
    decreases oks.len(),
{
    if oks.len() == 0 {
    } else {
        assert(!oks[0]);
        assert forall|i: int| 0 <= i < oks.drop_first().len() implies !oks.drop_first()[i] by {
            assert(oks.drop_first()[i] == oks[i + 1]);
        }
        lemma_retry_livelock(current, total, oks.drop_first());
    }
}

impl<'a, C> ChildStream<'a, C> {
    /// Index of the next child to visit.
    pub closed spec fn current(&self) -> int {
        self.current as int
    }

    /// The fixed child count the stream was constructed with.
    pub closed spec fn total(&self) -> int {
        self.total as int
    }

    /// Whether a failing index is retried instead of skipped.
    pub closed spec fn retry(&self) -> bool {
        self.retry
    }

    /// Whether a call is outstanding; at most one ever is.
    pub closed spec fn pending(&self) -> bool {
        self.pending
    }

    /// The parent handle the stream is bound to.
    pub closed spec fn parent(&self) -> Accessible<C> {
        *self.parent
    }

    /// The stream's invariant: the index stays within `[0, total]`, and a
    /// call is only ever outstanding for an index that exists.
    pub open spec fn inv(&self) -> bool {
        &&& 0 <= self.current() <= self.total()
        &&& (self.pending() ==> self.current() < self.total())
    }

    /// Binds an enumeration to one parent handle, a fixed child count
    /// (obtained beforehand from a child-count call) and a retry policy.
    pub fn new(parent: &'a Accessible<C>, total: i32, retry: bool) -> (s: Self)
        requires
            total >= 0,
        ensures
            s.inv(),
            s.current() == 0,
            s.total() == total as int,
            s.retry() == retry,
            !s.pending(),
            s.parent() == *parent,
    {
        ChildStream { parent, current: 0, total, retry, pending: false }
    }

    /// One scheduling step. If every index has been visited the enumeration
    /// is finished and the state no longer changes. Otherwise, if no call is
    /// outstanding, the call for the current index becomes outstanding and
    /// must be issued; if one is outstanding already, it must be awaited —
    /// never more than one call at a time.
    pub fn next_action(&mut self) -> (a: PollAction)
        requires
            old(self).inv(),
        ensures
            final(self).inv(),
            final(self).current() == old(self).current(),
            final(self).total() == old(self).total(),
            final(self).retry() == old(self).retry(),
            final(self).parent() == old(self).parent(),
            old(self).current() >= old(self).total() ==> {
                &&& a == PollAction::Finished
                &&& final(self).pending() == old(self).pending()
            },
            old(self).current() < old(self).total() ==> {
                &&& final(self).pending()
                &&& (!old(self).pending() ==> (a matches PollAction::Issue(i) && i as int
                    == old(self).current()))
                &&& (old(self).pending() ==> (a matches PollAction::Wait(i) && i as int == old(
                    self,
                ).current()))
            },
    {
        if self.current >= self.total {
            PollAction::Finished
        } else if self.pending {
            PollAction::Wait(self.current)
        } else {
            self.pending = true;
            PollAction::Issue(self.current)
        }
    }

    /// Feeds the reply of the outstanding call back into the machine and
    /// yields the item for the current index. A successful reply yields a
    /// child handle carrying the reply's identity, the parent's deadline and
    /// the parent's shared connection; the reply pair is taken as it came,
    /// without the null-child-sentinel filtering that a direct
    /// child-at-index lookup applies. A failed reply yields the error
    /// itself. The index advances as [`resolve_current`] says: always on
    /// success, on failure only when the retry flag is off.
    pub fn resolve<E>(&mut self, reply: Result<(String, String), E>) -> (item: Result<
        Accessible<C>,
        E,
    >)
        requires
            old(self).inv(),
            old(self).pending(),
        ensures
            final(self).inv(),
            !final(self).pending(),
            final(self).total() == old(self).total(),
            final(self).retry() == old(self).retry(),
            final(self).parent() == old(self).parent(),
            final(self).current() == resolve_current(
                old(self).current(),
                old(self).retry(),
                reply is Ok,
            ),
            reply matches Ok(pair) ==> (item matches Ok(c) && {
                &&& c.endpoint@ == pair.0@
                &&& c.path@ == pair.1@
                &&& c.timeout_ms == old(self).parent().timeout_ms
                &&& c.conn == old(self).parent().conn
            }),
            reply matches Err(e) ==> (item matches Err(e2) && e2 == e),
    {
        self.pending = false;
        match reply {
            Ok((endpoint, path)) => {
                self.current = self.current + 1;
                Ok(Accessible::with_timeout(
                    endpoint,
                    path,
                    crate::handle::share_connection(&self.parent.conn),
                    self.parent.timeout_ms,
                ))
            },
            Err(e) => {
                if !self.retry {
                    self.current = self.current + 1;
                }
                Err(e)
            },
        }
    }

    /// Bounds on how many items are still to come: at least the number of
    /// unvisited indices, and exactly that number when the retry flag is
    /// off; with it on there is no upper bound, since a failing index may be
    /// retried indefinitely.
    pub fn size_hint(&self) -> (r: (usize, Option<usize>))
        requires
            self.inv(),
        ensures
            r.0 == self.total() - self.current(),
            self.retry() ==> r.1 is None,
            !self.retry() ==> (r.1 matches Some(u) && u == self.total() - self.current()),
    {
        let remaining: usize = (self.total - self.current) as usize;
        if self.retry {
            (remaining, None)
        } else {
            (remaining, Some(remaining))
        }
    }
}

} // verus!
