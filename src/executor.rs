use vstd::prelude::*;
use crate::reactor::Poll;
use crate::waker::Waker;

verus! {

/// The largest number of tasks the ready queue holds at once.
pub const MAX_QUEUED_TASKS: usize = 10000;

/// A suspendable computation, advanced one step at a time by the executor.
pub trait Future {
    /// What the next poll returns, from the computation's present state and
    /// the handle it is polled with.
    spec fn next_outcome(&self, waker: Waker) -> Poll;

    /// Advances the computation by one step.
    fn poll(&mut self, cx: &Context) -> (r: Poll)
        ensures
            r == old(self).next_outcome(cx.waker_spec()),
    ;
}

/// The handle the executor polls task `id` with.
pub open spec fn task_waker(id: u64) -> Waker {
    Waker { task: id, slot: 0 }
}

/// What a computation sees while it is polled: the handle that reschedules it.
pub struct Context {
    waker: Waker,
}

impl Context {
    pub fn from_waker(waker: Waker) -> (r: Context)
        ensures
            r.waker_spec() == waker,
    {
        Context { waker }
    }

    pub closed spec fn waker_spec(&self) -> Waker {
        self.waker
    }

    pub fn waker(&self) -> (r: &Waker)
        ensures
            *r == self.waker_spec(),
    {
        &self.waker
    }
}

/// One computation, under the id it was spawned with.
pub struct Task<F> {
    pub id: u64,
    pub future: F,
}

/// The ids of a sequence of tasks, in order.
pub open spec fn task_ids<F>(s: Seq<Task<F>>) -> Seq<u64> {
    s.map_values(|t: Task<F>| t.id)
}

/// The outcome of polling task `t` once with its own handle.
pub open spec fn outcome_of<F: Future>(t: Task<F>) -> Poll {
    t.future.next_outcome(task_waker(t.id))
}

/// The ids of the tasks of `s` whose poll completes them, in order.
pub open spec fn ready_ids<F: Future>(s: Seq<Task<F>>) -> Seq<u64>
    decreases s.len(),
{
    if s.len() == 0 {
        Seq::empty()
    } else if outcome_of(s.last()) == Poll::Ready {
        ready_ids(s.drop_last()).push(s.last().id)
    } else {
        ready_ids(s.drop_last())
    }
}

/// The ids of the tasks of `s` whose poll suspends them, in order.
pub open spec fn pending_ids<F: Future>(s: Seq<Task<F>>) -> Seq<u64>
    decreases s.len(),
{
    if s.len() == 0 {
        Seq::empty()
    } else if outcome_of(s.last()) == Poll::Pending {
        pending_ids(s.drop_last()).push(s.last().id)
    } else {
        pending_ids(s.drop_last())
    }
}

/// A task whose poll completes it is among the ready ids of any sequence
/// that holds it.
pub proof fn lemma_ready_ids_contains<F: Future>(s: Seq<Task<F>>, i: int)
    requires
        0 <= i < s.len(),
        outcome_of(s[i]) == Poll::Ready,
    ensures
        ready_ids(s).contains(s[i].id),
    decreases s.len(),
{
    if i == s.len() - 1 {
        assert(ready_ids(s)[ready_ids(s).len() - 1] == s[i].id);
    } else {
        lemma_ready_ids_contains(s.drop_last(), i);
        let k = choose|k: int|
            0 <= k < ready_ids(s.drop_last()).len() && ready_ids(s.drop_last())[k] == s[i].id;
        if outcome_of(s.last()) == Poll::Ready {
            assert(ready_ids(s)[k] == s[i].id);
        }
    }
}

/// The sending side: a bounded first-in first-out queue of runnable tasks.
pub struct Spawner<F> {
    queue: Vec<Task<F>>,
    capacity: usize,
    next_id: u64,
}

/// The receiving side: the tasks that are suspended, and the ids of those
/// that completed, in the order they completed.
pub struct Executor<F> {
    parked: Vec<Task<F>>,
    completed: Vec<u64>,
}

/// A fresh executor and spawner sharing one ready queue of
/// `MAX_QUEUED_TASKS` entries.
pub fn new_executor_spawner<F>() -> (r: (Executor<F>, Spawner<F>))
    ensures
        r.1.wf(),
        r.0.parked_ids() == Seq::<u64>::empty(),
        r.0.completed_ids() == Seq::<u64>::empty(),
        r.1.queued() == Seq::<Task<F>>::empty(),
        r.1.capacity_spec() == MAX_QUEUED_TASKS,
        r.1.next_id_spec() == 0,
{
    (
        Executor { parked: Vec::new(), completed: Vec::new() },
        Spawner { queue: Vec::new(), capacity: MAX_QUEUED_TASKS, next_id: 0 },
    )
}

impl<F> Spawner<F> {
    pub closed spec fn queued(&self) -> Seq<Task<F>> {
        self.queue@
    }

    pub closed spec fn capacity_spec(&self) -> nat {
        self.capacity as nat
    }

    /// The id the next spawned computation receives.
    pub closed spec fn next_id_spec(&self) -> nat {
        self.next_id as nat
    }

    /// The queue never holds more tasks than its bound.
    pub open spec fn wf(&self) -> bool {
        self.queued().len() <= self.capacity_spec()
    }

    pub open spec fn is_full(&self) -> bool {
        self.queued().len() >= self.capacity_spec()
    }

    /// A spawner whose queue holds at most `capacity` tasks.
    pub fn with_capacity(capacity: usize) -> (r: Spawner<F>)
        ensures
            r.wf(),
            r.queued() == Seq::<Task<F>>::empty(),
            r.capacity_spec() == capacity,
            r.next_id_spec() == 0,
    {
        Spawner { queue: Vec::new(), capacity, next_id: 0 }
    }

    pub fn len(&self) -> (r: usize)
        ensures
            r == self.queued().len(),
    {
        self.queue.len()
    }

    pub fn capacity(&self) -> (r: usize)
        ensures
            r == self.capacity_spec(),
    {
        self.capacity
    }

    pub fn next_id(&self) -> (r: u64)
        ensures
            r == self.next_id_spec(),
    {
        self.next_id
    }

    /// The ids of the queued tasks, front first.
    pub fn queued_ids(&self) -> (r: Vec<u64>)
        ensures
            r@ == task_ids(self.queued()),
    {
        let mut r: Vec<u64> = Vec::new();
        let mut i: usize = 0;
        while i < self.queue.len()
            invariant
                i <= self.queue@.len(),
                r@ == task_ids(self.queue@.subrange(0, i as int)),
            decreases self.queue@.len() - i,
        {
            r.push(self.queue[i].id);
            i = i + 1;
            assert(task_ids(self.queue@.subrange(0, i as int)) =~= task_ids(
                self.queue@.subrange(0, i - 1 as int),
            ).push(self.queue@[i - 1].id));
        }
        assert(self.queue@.subrange(0, i as int) =~= self.queue@);
        r
    }

    /// Puts `future` at the back of the queue as a new task and returns its
    /// id. When the queue is full nothing is queued and the computation comes
    /// back in `Err`: work is never dropped.
    pub fn spawn(&mut self, future: F) -> (r: Result<u64, F>)
        requires
            old(self).wf(),
            old(self).next_id_spec() < u64::MAX,
        ensures
            final(self).wf(),
            final(self).capacity_spec() == old(self).capacity_spec(),
            old(self).is_full() ==> {
                &&& r == Err::<u64, F>(future)
                &&& final(self).queued() == old(self).queued()
                &&& final(self).next_id_spec() == old(self).next_id_spec()
            },
            !old(self).is_full() ==> {
                &&& r == Ok::<u64, F>(old(self).next_id_spec() as u64)
                &&& final(self).queued() == old(self).queued().push(
                    Task { id: old(self).next_id_spec() as u64, future },
                )
                &&& final(self).next_id_spec() == old(self).next_id_spec() + 1
            },
    {
        if self.queue.len() >= self.capacity {
            return Err(future);
        }
        let id = self.next_id;
        self.next_id = self.next_id + 1;
        match self.spawn_task(Task { id, future }) {
            Ok(()) => Ok(id),
            Err(t) => Err(t.future),
        }
    }

    /// Puts an existing task at the back of the queue; a full queue hands it
    /// back.
    pub fn spawn_task(&mut self, task: Task<F>) -> (r: Result<(), Task<F>>)
        requires
            old(self).wf(),
        ensures
            final(self).wf(),
            final(self).capacity_spec() == old(self).capacity_spec(),
            final(self).next_id_spec() == old(self).next_id_spec(),
            old(self).is_full() ==> r == Err::<(), Task<F>>(task) && final(self).queued() == old(self).queued(),
            !old(self).is_full() ==> r == Ok::<(), Task<F>>(()) && final(self).queued() == old(self).queued().push(task),
    {
        if self.queue.len() >= self.capacity {
            Err(task)
        } else {
            self.queue.push(task);
            Ok(())
        }
    }
}

impl<F> Executor<F> {
    /// The suspended tasks, in the order they were parked.
    pub closed spec fn parked(&self) -> Seq<Task<F>> {
        self.parked@
    }

    pub open spec fn parked_ids(&self) -> Seq<u64> {
        task_ids(self.parked())
    }

    pub closed spec fn completed_ids(&self) -> Seq<u64> {
        self.completed@
    }

    pub fn completed(&self) -> (r: &Vec<u64>)
        ensures
            r@ == self.completed_ids(),
    {
        &self.completed
    }

    pub fn parked_len(&self) -> (r: usize)
        ensures
            r == self.parked().len(),
    {
        self.parked.len()
    }

    /// Moves the parked task `id` back to the back of the spawner's queue, as
    /// a wake-up does; the task moves as it is. Returns false, and moves
    /// nothing, when no task `id` is parked or the queue is full.
    pub fn wake(&mut self, spawner: &mut Spawner<F>, id: u64) -> (r: bool)
        requires
            old(spawner).wf(),
        ensures
            final(spawner).wf(),
            final(spawner).capacity_spec() == old(spawner).capacity_spec(),
            final(spawner).next_id_spec() == old(spawner).next_id_spec(),
            final(self).completed_ids() == old(self).completed_ids(),
            r == (old(self).parked_ids().contains(id) && !old(spawner).is_full()),
            r ==> exists|k: int|
                0 <= k < old(self).parked().len() && old(self).parked()[k].id == id
                    && final(spawner).queued() == old(spawner).queued().push(old(self).parked()[k])
                    && final(self).parked() == old(self).parked().remove(k),
            !r ==> final(spawner).queued() == old(spawner).queued() && final(self).parked()
                == old(self).parked(),
    {
        if spawner.queue.len() >= spawner.capacity {
            return false;
        }
        let mut i: usize = 0;
        while i < self.parked.len()
            invariant
                i <= self.parked@.len(),
                forall|j: int| 0 <= j < i ==> self.parked@[j].id != id,
                self.parked@ == old(self).parked@,
                self.completed@ == old(self).completed@,
                spawner.queue@ == old(spawner).queue@,
                spawner.capacity == old(spawner).capacity,
                spawner.next_id == old(spawner).next_id,
                spawner.queue@.len() < spawner.capacity,
            decreases self.parked@.len() - i,
        {
            if self.parked[i].id == id {
                let ghost before = self.parked@;
                let task = self.parked.remove(i);
                let ghost q = spawner.queue@;
                let _ = spawner.spawn_task(task);
                assert(task_ids(before)[i as int] == id);
                assert(before[i as int].id == id && spawner.queue@ == q.push(before[i as int])
                    && self.parked@ == before.remove(i as int));
                return true;
            }
            i = i + 1;
        }
        proof {
            if self.parked_ids().contains(id) {
                let k = choose|k: int| 0 <= k < self.parked_ids().len() && self.parked_ids()[k] == id;
                assert(self.parked@[k].id == id);
            }
        }
        false
    }
}

impl<F: Future> Executor<F> {
    /// Drains the ready queue front first, polling each task exactly once
    /// with a handle naming it. A task whose poll returns `Ready` is
    /// completed; one that returns `Pending` is parked behind the tasks
    /// already parked, which are left untouched until a wake puts them back
    /// in the queue. So every queued computation whose poll does not suspend
    /// has completed by the time the queue is seen empty.
    pub fn run(&mut self, spawner: &mut Spawner<F>)
        ensures
            final(spawner).wf(),
            final(spawner).queued() == Seq::<Task<F>>::empty(),
            final(spawner).capacity_spec() == old(spawner).capacity_spec(),
            final(spawner).next_id_spec() == old(spawner).next_id_spec(),
            final(self).completed_ids() == old(self).completed_ids() + ready_ids(
                old(spawner).queued(),
            ),
            final(self).parked_ids() == old(self).parked_ids() + pending_ids(
                old(spawner).queued(),
            ),
            final(self).parked().subrange(0, old(self).parked().len() as int) == old(
                self,
            ).parked(),
            forall|i: int|
                0 <= i < old(spawner).queued().len() && outcome_of(old(spawner).queued()[i])
                    == Poll::Ready ==> #[trigger] final(self).completed_ids().contains(
                    old(spawner).queued()[i].id,
                ),
    {
        let ghost start = spawner.queue@;
        let ghost start_completed = self.completed@;
        let ghost start_parked = self.parked@;
        let ghost mut done: int = 0;
        while spawner.queue.len() > 0
            invariant
                0 <= done <= start.len(),
                spawner.queue@ == start.subrange(done, start.len() as int),
                spawner.capacity == old(spawner).capacity,
                spawner.next_id == old(spawner).next_id,
                self.completed@ == start_completed + ready_ids(start.subrange(0, done)),
                task_ids(self.parked@) == task_ids(start_parked) + pending_ids(
                    start.subrange(0, done),
                ),
                self.parked@.len() >= start_parked.len(),
                self.parked@.subrange(0, start_parked.len() as int) == start_parked,
            decreases spawner.queue@.len(),
        {
            let ghost before_parked = self.parked@;
            let mut task = spawner.queue.remove(0);
            assert(task == start[done]);
            let ghost polled = task;
            let id = task.id;
            let cx = Context::from_waker(Waker { task: id, slot: 0 });
            let r = task.future.poll(&cx);
            assert(r == outcome_of(polled));
            proof {
                let pre = start.subrange(0, done + 1);
                assert(pre.drop_last() =~= start.subrange(0, done));
                assert(pre.last() == polled);
            }
            match r {
                Poll::Ready => {
                    self.completed.push(id);
                },
                Poll::Pending => {
                    self.parked.push(task);
                    assert(task_ids(self.parked@) =~= task_ids(before_parked).push(id));
                },
            }
            proof {
                assert(spawner.queue@ =~= start.subrange(done + 1, start.len() as int));
                assert(self.parked@.subrange(0, start_parked.len() as int) =~= start_parked);
                done = done + 1;
            }
        }
        assert(start.subrange(0, done) =~= start);
        assert forall|i: int|
            0 <= i < start.len() && outcome_of(start[i]) == Poll::Ready implies #[trigger] self.completed_ids().contains(
            start[i].id,
        ) by {
            lemma_ready_ids_contains(start, i);
            let k = choose|k: int| 0 <= k < ready_ids(start).len() && ready_ids(start)[k] == start[i].id;
            assert(self.completed@[start_completed.len() + k] == start[i].id);
        }
    }
}

} // verus!
