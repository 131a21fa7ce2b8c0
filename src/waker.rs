use vstd::prelude::*;

verus! {

/// An opaque handle that can reschedule one task.
///
/// `task` names the task the handle wakes; `slot` names the share of the
/// task's reference count that this particular handle owns.
#[derive(Clone, Copy, Debug, PartialEq, Eq, Structural)]
pub struct Waker {
    pub task: u64,
    pub slot: u64,
}

impl Waker {
    /// Two handles wake the same task exactly when they point at the same task.
    pub fn will_wake(&self, other: &Waker) -> (r: bool)
        ensures
            r == (self.task == other.task),
    {
        self.task == other.task
    }
}

/// A standalone model of the reference count of one task, with the handles
/// and queue entries that own a share of it. It states the discipline that
/// the four handle operations (clone, drop, wake, wake by reference) keep on
/// the count; the executor's own handles carry no ledger.
pub struct TaskShares {
    task: u64,
    count: u64,
    live: Vec<u64>,
    queued: u64,
    next_slot: u64,
}

impl TaskShares {
    pub closed spec fn task_id(&self) -> u64 {
        self.task
    }

    /// The task's reference count.
    pub closed spec fn count_spec(&self) -> nat {
        self.count as nat
    }

    /// The slots of the handles that are alive.
    pub closed spec fn live_slots(&self) -> Seq<u64> {
        self.live@
    }

    /// How many ready-queue entries hold a share of the task.
    pub closed spec fn queued_spec(&self) -> nat {
        self.queued as nat
    }

    pub closed spec fn next_slot_spec(&self) -> nat {
        self.next_slot as nat
    }

    /// The count is exactly the number of live handles plus the queue
    /// entries; each live handle has its own slot.
    pub closed spec fn wf(&self) -> bool {
        &&& self.count as nat == self.live@.len() + self.queued as nat
        &&& self.live@.no_duplicates()
        &&& forall|i: int| 0 <= i < self.live@.len() ==> self.live@[i] < self.next_slot
    }

    /// Membership of a handle in this ledger.
    pub open spec fn holds(&self, w: Waker) -> bool {
        w.task == self.task_id() && self.live_slots().contains(w.slot)
    }

    /// A freshly spawned task: its one share is held by its queue entry.
    pub fn new(task: u64) -> (r: TaskShares)
        ensures
            r.wf(),
            r.task_id() == task,
            r.count_spec() == 1,
            r.queued_spec() == 1,
            r.live_slots().len() == 0,
            r.next_slot_spec() == 0,
    {
        TaskShares { task, count: 1, live: Vec::new(), queued: 0 + 1, next_slot: 0 }
    }

    pub fn count(&self) -> (r: u64)
        ensures
            r == self.count_spec(),
    {
        self.count
    }

    pub fn queued(&self) -> (r: u64)
        ensures
            r == self.queued_spec(),
    {
        self.queued
    }

    pub fn live_handles(&self) -> (r: usize)
        ensures
            r == self.live_slots().len(),
    {
        self.live.len()
    }

    /// True when no share is left, so the task is released.
    pub fn is_released(&self) -> (r: bool)
        ensures
            r == (self.count_spec() == 0),
    {
        self.count == 0
    }

    fn add_handle(&mut self) -> (w: Waker)
        requires
            old(self).wf(),
            old(self).count_spec() < u64::MAX,
            old(self).next_slot_spec() < u64::MAX,
        ensures
            final(self).wf(),
            final(self).task_id() == old(self).task_id(),
            final(self).count_spec() == old(self).count_spec() + 1,
            final(self).queued_spec() == old(self).queued_spec(),
            final(self).live_slots() == old(self).live_slots().push(w.slot),
            final(self).next_slot_spec() == old(self).next_slot_spec() + 1,
            !old(self).live_slots().contains(w.slot),
            final(self).live_slots().contains(w.slot),
            forall|s: u64|
                old(self).live_slots().contains(s) ==> #[trigger] final(self).live_slots().contains(
                    s,
                ),
            w.task == old(self).task_id(),
    {
        let slot = self.next_slot;
        let ghost before = self.live@;
        self.live.push(slot);
        self.count = self.count + 1;
        self.next_slot = self.next_slot + 1;
        assert(self.live@[before.len() as int] == slot);
        assert forall|s: u64| before.contains(s) implies #[trigger] self.live@.contains(s) by {
            let k = choose|k: int| 0 <= k < before.len() && before[k] == s;
            assert(self.live@[k] == s);
        }
        Waker { task: self.task, slot }
    }

    /// Hands out a new handle to the task, taking one more share.
    pub fn waker(&mut self) -> (w: Waker)
        requires
            old(self).wf(),
            old(self).count_spec() < u64::MAX,
            old(self).next_slot_spec() < u64::MAX,
        ensures
            final(self).wf(),
            final(self).task_id() == old(self).task_id(),
            final(self).count_spec() == old(self).count_spec() + 1,
            final(self).queued_spec() == old(self).queued_spec(),
            final(self).live_slots() == old(self).live_slots().push(w.slot),
            final(self).next_slot_spec() == old(self).next_slot_spec() + 1,
            !old(self).holds(w),
            final(self).holds(w),
    {
        self.add_handle()
    }

    /// Clones a live handle: one more share, and the handle passed in stays live.
    pub fn clone_waker(&mut self, w: &Waker) -> (c: Waker)
        requires
            old(self).wf(),
            old(self).holds(*w),
            old(self).count_spec() < u64::MAX,
            old(self).next_slot_spec() < u64::MAX,
        ensures
            final(self).wf(),
            final(self).task_id() == old(self).task_id(),
            final(self).count_spec() == old(self).count_spec() + 1,
            final(self).queued_spec() == old(self).queued_spec(),
            final(self).live_slots() == old(self).live_slots().push(c.slot),
            final(self).next_slot_spec() == old(self).next_slot_spec() + 1,
            final(self).holds(*w),
            final(self).holds(c),
            c.task == w.task,
            c.slot != w.slot,
    {
        self.add_handle()
    }

    fn release_slot(&mut self, slot: u64)
        requires
            old(self).wf(),
            old(self).live_slots().contains(slot),
        ensures
            final(self).task_id() == old(self).task_id(),
            final(self).count == old(self).count,
            final(self).queued == old(self).queued,
            final(self).next_slot == old(self).next_slot,
            final(self).live_slots().len() + 1 == old(self).live_slots().len(),
            final(self).live_slots().no_duplicates(),
            forall|s: u64| #[trigger]
                final(self).live_slots().contains(s) <==> (old(self).live_slots().contains(s)
                    && s != slot),
            forall|i: int|
                0 <= i < final(self).live@.len() ==> final(self).live@[i] < final(self).next_slot,
    {
        let n: usize = self.live.len();
        let mut i: usize = 0;
        while self.live[i] != slot
            invariant
                n == self.live@.len(),
                0 <= i < n,
                self.live@.contains(slot),
                forall|j: int| 0 <= j < i ==> self.live@[j] != slot,
            decreases self.live@.len() - i,
        {
            i = i + 1;
            if i == n {
                let ghost k = choose|k: int| 0 <= k < self.live@.len() && self.live@[k] == slot;
                assert(false);
            }
        }
        let ghost before = self.live@;
        self.live.remove(i);
        assert(self.live@ =~= before.subrange(0, i as int) + before.subrange(i as int + 1, before.len() as int));
        assert forall|s: u64| #[trigger]
            self.live@.contains(s) <==> (before.contains(s) && s != slot) by {
            if self.live@.contains(s) {
                let k = choose|k: int| 0 <= k < self.live@.len() && self.live@[k] == s;
                if k < i {
                    assert(before[k] == s);
                } else {
                    assert(before[k + 1] == s);
                }
            }
            if before.contains(s) && s != slot {
                let k = choose|k: int| 0 <= k < before.len() && before[k] == s;
                if k < i {
                    assert(self.live@[k] == s);
                } else {
                    assert(k != i);
                    assert(self.live@[k - 1] == s);
                }
            }
        }
        assert forall|a: int, b: int|
            0 <= a < self.live@.len() && 0 <= b < self.live@.len() && a != b implies self.live@[a]
            != self.live@[b] by {
            let a2 = if a < i { a } else { a + 1 };
            let b2 = if b < i { b } else { b + 1 };
            assert(before[a2] != before[b2]);
        }
        assert forall|j: int| 0 <= j < self.live@.len() implies self.live@[j] < self.next_slot by {
            if j < i {
                assert(before[j] == self.live@[j]);
            } else {
                assert(before[j + 1] == self.live@[j]);
            }
        }
    }

    /// Drops a live handle, giving up its share.
    pub fn drop_waker(&mut self, w: Waker)
        requires
            old(self).wf(),
            old(self).holds(w),
        ensures
            final(self).wf(),
            final(self).task_id() == old(self).task_id(),
            final(self).count_spec() + 1 == old(self).count_spec(),
            final(self).queued_spec() == old(self).queued_spec(),
            final(self).next_slot_spec() == old(self).next_slot_spec(),
            final(self).live_slots().len() + 1 == old(self).live_slots().len(),
            forall|s: u64| #[trigger]
                final(self).live_slots().contains(s) <==> (old(self).live_slots().contains(s)
                    && s != w.slot),
    {
        self.release_slot(w.slot);
        self.count = self.count - 1;
    }

    /// Wakes through a handle and consumes it: its share passes to the new
    /// queue entry, so the count does not change.
    pub fn wake(&mut self, w: Waker)
        requires
            old(self).wf(),
            old(self).holds(w),
            old(self).queued_spec() < u64::MAX,
        ensures
            final(self).wf(),
            final(self).task_id() == old(self).task_id(),
            final(self).count_spec() == old(self).count_spec(),
            final(self).queued_spec() == old(self).queued_spec() + 1,
            final(self).next_slot_spec() == old(self).next_slot_spec(),
            final(self).live_slots().len() + 1 == old(self).live_slots().len(),
            forall|s: u64| #[trigger]
                final(self).live_slots().contains(s) <==> (old(self).live_slots().contains(s)
                    && s != w.slot),
    {
        self.release_slot(w.slot);
        self.queued = self.queued + 1;
    }

    /// Wakes through a handle and keeps it: a fresh share goes to the new
    /// queue entry, the handle's own share stays.
    pub fn wake_by_ref(&mut self, w: &Waker)
        requires
            old(self).wf(),
            old(self).holds(*w),
            old(self).count_spec() < u64::MAX,
        ensures
            final(self).wf(),
            final(self).task_id() == old(self).task_id(),
            final(self).count_spec() == old(self).count_spec() + 1,
            final(self).queued_spec() == old(self).queued_spec() + 1,
            final(self).next_slot_spec() == old(self).next_slot_spec(),
            final(self).live_slots() == old(self).live_slots(),
    {
        self.count = self.count + 1;
        self.queued = self.queued + 1;
    }

    /// The executor takes one entry off the queue and, after polling, lets go
    /// of that entry's share.
    pub fn dequeue(&mut self)
        requires
            old(self).wf(),
            old(self).queued_spec() > 0,
        ensures
            final(self).wf(),
            final(self).task_id() == old(self).task_id(),
            final(self).count_spec() + 1 == old(self).count_spec(),
            final(self).queued_spec() + 1 == old(self).queued_spec(),
            final(self).next_slot_spec() == old(self).next_slot_spec(),
            final(self).live_slots() == old(self).live_slots(),
    {
        self.count = self.count - 1;
        self.queued = self.queued - 1;
    }
}

/// Whatever sequence of clone, drop, wake and wake-by-reference led to a
/// well-formed ledger, the task is never released while a handle or a queue
/// entry still holds a share, and it is released once none does.
pub proof fn lemma_share_count_tracks_handles(s: TaskShares, w: Waker)
    requires
        s.wf(),
    ensures
        s.count_spec() == s.live_slots().len() + s.queued_spec(),
        s.holds(w) ==> s.count_spec() > 0,
        s.count_spec() == 0 <==> (s.live_slots().len() == 0 && s.queued_spec() == 0),
{
    if s.holds(w) {
        assert(s.live_slots().len() > 0);
    }
}

} // verus!
