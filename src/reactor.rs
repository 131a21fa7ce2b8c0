use vstd::prelude::*;
use std::collections::HashMap;
use crate::waker::Waker;

verus! {

broadcast use vstd::std_specs::hash::group_hash_axioms;

/// What the table records for a token.
#[derive(Clone, Copy, Debug, PartialEq, Eq, Structural)]
pub enum Status {
    /// A task is suspended until the token becomes ready.
    Awaited(Waker),
    /// Readiness came and no task has consumed it yet.
    Happened,
}

/// The two outcomes of advancing a computation by one step.
#[derive(Clone, Copy, Debug, PartialEq, Eq, Structural)]
pub enum Poll {
    Ready,
    Pending,
}

/// The table after a resource polls `token` with handle `w`.
pub open spec fn poll_next(m: Map<u64, Status>, token: u64, w: Waker) -> Map<u64, Status> {
    if !m.contains_key(token) {
        m.insert(token, Status::Awaited(w))
    } else {
        match m[token] {
            Status::Awaited(prev) => if prev.task == w.task {
                m
            } else {
                m.insert(token, Status::Awaited(w))
            },
            Status::Happened => m.remove(token),
        }
    }
}

/// What a poll of `token` returns on table `m`.
pub open spec fn poll_result(m: Map<u64, Status>, token: u64) -> Poll {
    if m.contains_key(token) && m[token] == Status::Happened {
        Poll::Ready
    } else {
        Poll::Pending
    }
}

/// Whether a poll of `token` with `w` stores a new clone of the handle.
pub open spec fn poll_stores_clone(m: Map<u64, Status>, token: u64, w: Waker) -> bool {
    !m.contains_key(token) || match m[token] {
        Status::Awaited(prev) => prev.task != w.task,
        Status::Happened => false,
    }
}

/// The table after the operating system reports readiness of `token`.
pub open spec fn event_next(m: Map<u64, Status>, token: u64) -> Map<u64, Status> {
    m.insert(token, Status::Happened)
}

/// The handle that an event on `token` must wake, if any.
pub open spec fn event_wakes(m: Map<u64, Status>, token: u64) -> Option<Waker> {
    if m.contains_key(token) {
        match m[token] {
            Status::Awaited(w) => Some(w),
            Status::Happened => None,
        }
    } else {
        None
    }
}

/// The token-indexed readiness table and the token allocator.
pub struct Reactor {
    statuses: HashMap<u64, Status>,
    next_token: u64,
}

impl Reactor {
    pub closed spec fn table(&self) -> Map<u64, Status> {
        self.statuses@
    }

    /// The next token that `unique_token` hands out.
    pub closed spec fn next_token_spec(&self) -> nat {
        self.next_token as nat
    }

    pub fn new() -> (r: Reactor)
        ensures
            r.table() == Map::<u64, Status>::empty(),
            r.next_token_spec() == 0,
    {
        Reactor { statuses: HashMap::new(), next_token: 0 }
    }

    pub fn next_token(&self) -> (r: u64)
        ensures
            r == self.next_token_spec(),
    {
        self.next_token
    }

    /// Allocates a token that was never handed out before.
    pub fn unique_token(&mut self) -> (t: u64)
        requires
            old(self).next_token_spec() < u64::MAX,
        ensures
            t == old(self).next_token_spec(),
            final(self).next_token_spec() == old(self).next_token_spec() + 1,
            final(self).table() == old(self).table(),
    {
        let t = self.next_token;
        self.next_token = self.next_token + 1;
        t
    }

    /// The status recorded for `token`, if any.
    pub fn status(&self, token: u64) -> (r: Option<Status>)
        ensures
            r == (if self.table().contains_key(token) {
                Some(self.table()[token])
            } else {
                None
            }),
    {
        match self.statuses.get(&token) {
            Some(s) => Some(*s),
            None => None,
        }
    }

    /// Checks `token` for readiness on behalf of the task behind `waker`,
    /// arming a wake-up when it is not ready yet.
    ///
    /// No entry: the handle is stored and the result is `Pending`. An entry
    /// awaited by a handle of the same task is left alone (no new clone); one
    /// of another task is replaced. `Happened` is consumed: the entry goes
    /// and the result is `Ready`.
    pub fn poll(&mut self, token: u64, waker: &Waker) -> (r: Poll)
        ensures
            r == poll_result(old(self).table(), token),
            final(self).table() == poll_next(old(self).table(), token, *waker),
            final(self).next_token_spec() == old(self).next_token_spec(),
    {
        match self.statuses.get(&token) {
            None => {
                self.statuses.insert(token, Status::Awaited(*waker));
                Poll::Pending
            },
            Some(Status::Awaited(prev)) => {
                if !prev.will_wake(waker) {
                    self.statuses.insert(token, Status::Awaited(*waker));
                }
                Poll::Pending
            },
            Some(Status::Happened) => {
                self.statuses.remove(&token);
                Poll::Ready
            },
        }
    }

    /// Records readiness of `token`, whatever was stored before, and returns
    /// the handle that was waiting for it; the caller wakes it once the table
    /// is released.
    pub fn on_event(&mut self, token: u64) -> (r: Option<Waker>)
        ensures
            r == event_wakes(old(self).table(), token),
            final(self).table() == event_next(old(self).table(), token),
            final(self).next_token_spec() == old(self).next_token_spec(),
    {
        match self.statuses.insert(token, Status::Happened) {
            Some(Status::Awaited(w)) => Some(w),
            _ => None,
        }
    }
}

/// Polling a token twice in a row with the same handle and no event in
/// between gives `Pending` both times, and only the first poll may store a
/// clone of the handle.
pub proof fn lemma_repeated_poll_elides_clone(m: Map<u64, Status>, token: u64, w: Waker)
    requires
        poll_result(m, token) == Poll::Pending,
    ensures
        poll_result(poll_next(m, token, w), token) == Poll::Pending,
        !poll_stores_clone(poll_next(m, token, w), token, w),
        poll_next(poll_next(m, token, w), token, w) == poll_next(m, token, w),
{
}

/// Readiness is consumed once: after an event, the first poll returns
/// `Ready` and removes the entry, and a second poll with no new event returns
/// `Pending` and arms a fresh wait.
pub proof fn lemma_readiness_single_shot(m: Map<u64, Status>, token: u64, w1: Waker, w2: Waker)
    ensures
        poll_result(event_next(m, token), token) == Poll::Ready,
        poll_next(event_next(m, token), token, w1) == m.remove(token),
        poll_result(poll_next(event_next(m, token), token, w1), token) == Poll::Pending,
        poll_next(poll_next(event_next(m, token), token, w1), token, w2) == m.remove(token).insert(
            token,
            Status::Awaited(w2),
        ),
{
    assert(poll_next(event_next(m, token), token, w1) =~= m.remove(token));
}

} // verus!
