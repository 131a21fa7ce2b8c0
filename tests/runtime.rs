use async_runtime::data::Data;
use async_runtime::executor::{new_executor_spawner, Context, Future, Spawner, MAX_QUEUED_TASKS};
use async_runtime::player::Player;
use async_runtime::reactor::{Poll, Reactor, Status};
use async_runtime::socket::{Registration, SendAttempt, SendStep};
use async_runtime::waker::{TaskShares, Waker};

/// Completes on its first poll.
struct Immediate;

impl Future for Immediate {
    fn next_outcome(&self, _waker: Waker) -> Poll {
        Poll::Ready
    }

    fn poll(&mut self, _cx: &Context) -> Poll {
        Poll::Ready
    }
}

/// Returns `Pending` a given number of times, then `Ready`.
struct Countdown(u32);

impl Future for Countdown {
    fn next_outcome(&self, _waker: Waker) -> Poll {
        if self.0 == 0 {
            Poll::Ready
        } else {
            Poll::Pending
        }
    }

    fn poll(&mut self, _cx: &Context) -> Poll {
        if self.0 == 0 {
            Poll::Ready
        } else {
            self.0 -= 1;
            Poll::Pending
        }
    }
}

enum Job {
    Now(Immediate),
    Later(Countdown),
}

impl Future for Job {
    fn next_outcome(&self, waker: Waker) -> Poll {
        match self {
            Job::Now(f) => f.next_outcome(waker),
            Job::Later(f) => f.next_outcome(waker),
        }
    }

    fn poll(&mut self, cx: &Context) -> Poll {
        match self {
            Job::Now(f) => f.poll(cx),
            Job::Later(f) => f.poll(cx),
        }
    }
}

#[test]
fn immediate_computations_complete_before_queue_is_empty() {
    let (mut executor, mut spawner) = new_executor_spawner::<Job>();
    assert_eq!(spawner.spawn(Job::Now(Immediate)).ok(), Some(0));
    assert_eq!(spawner.spawn(Job::Later(Countdown(1))).ok(), Some(1));
    assert_eq!(spawner.spawn(Job::Now(Immediate)).ok(), Some(2));
    executor.run(&mut spawner);
    assert_eq!(spawner.len(), 0);
    assert_eq!(executor.completed().clone(), vec![0u64, 2]);
    assert_eq!(executor.parked_len(), 1);
}

/// Counts its polls; suspends on the first and completes on the second.
struct Counted(std::rc::Rc<std::cell::Cell<u32>>);

impl Future for Counted {
    fn next_outcome(&self, _waker: Waker) -> Poll {
        if self.0.get() == 0 {
            Poll::Pending
        } else {
            Poll::Ready
        }
    }

    fn poll(&mut self, cx: &Context) -> Poll {
        assert_eq!(cx.waker().slot, 0);
        let polls = self.0.get();
        self.0.set(polls + 1);
        if polls == 0 {
            Poll::Pending
        } else {
            Poll::Ready
        }
    }
}

#[test]
fn parked_task_is_not_polled_again_until_woken() {
    let first = std::rc::Rc::new(std::cell::Cell::new(0));
    let second = std::rc::Rc::new(std::cell::Cell::new(0));
    let (mut executor, mut spawner) = new_executor_spawner::<Counted>();
    spawner.spawn(Counted(first.clone())).ok().unwrap();
    executor.run(&mut spawner);
    assert_eq!(first.get(), 1);
    spawner.spawn(Counted(second.clone())).ok().unwrap();
    executor.run(&mut spawner);
    assert_eq!((first.get(), second.get()), (1, 1));
    assert_eq!(executor.parked_len(), 2);
    assert!(executor.wake(&mut spawner, 1));
    assert!(executor.wake(&mut spawner, 0));
    assert_eq!(spawner.queued_ids(), vec![1u64, 0]);
    executor.run(&mut spawner);
    assert_eq!((first.get(), second.get()), (2, 2));
    assert_eq!(executor.completed().clone(), vec![1u64, 0]);
}

#[test]
fn woken_task_completes_on_next_run() {
    let (mut executor, mut spawner) = new_executor_spawner::<Countdown>();
    spawner.spawn(Countdown(1)).ok().unwrap();
    executor.run(&mut spawner);
    assert!(executor.completed().is_empty());
    assert!(!executor.wake(&mut spawner, 7));
    assert!(executor.wake(&mut spawner, 0));
    assert_eq!(spawner.queued_ids(), vec![0u64]);
    assert_eq!(executor.parked_len(), 0);
    executor.run(&mut spawner);
    assert_eq!(executor.completed().clone(), vec![0u64]);
}

#[test]
fn default_queue_bound_is_ten_thousand() {
    let (_executor, spawner) = new_executor_spawner::<Immediate>();
    assert_eq!(spawner.capacity(), 10_000);
    assert_eq!(MAX_QUEUED_TASKS, 10_000);
}

#[test]
fn spawning_beyond_bound_hands_work_back() {
    let mut spawner: Spawner<Countdown> = Spawner::with_capacity(2);
    assert_eq!(spawner.spawn(Countdown(5)).ok(), Some(0));
    assert_eq!(spawner.spawn(Countdown(6)).ok(), Some(1));
    match spawner.spawn(Countdown(7)) {
        Err(back) => assert_eq!(back.0, 7),
        Ok(_) => panic!("a full queue accepted a task"),
    }
    assert_eq!(spawner.queued_ids(), vec![0u64, 1]);
}

#[test]
fn full_default_queue_refuses_next_spawn() {
    let (mut executor, mut spawner) = new_executor_spawner::<Immediate>();
    for _ in 0..MAX_QUEUED_TASKS {
        assert!(spawner.spawn(Immediate).is_ok());
    }
    assert!(spawner.spawn(Immediate).is_err());
    assert_eq!(spawner.len(), MAX_QUEUED_TASKS);
    executor.run(&mut spawner);
    assert_eq!(executor.completed().len(), MAX_QUEUED_TASKS);
    assert_eq!(spawner.spawn(Immediate).ok(), Some(MAX_QUEUED_TASKS as u64));
}

#[test]
fn wake_into_full_queue_is_refused() {
    let mut spawner: Spawner<Countdown> = Spawner::with_capacity(1);
    let (mut executor, _) = new_executor_spawner::<Countdown>();
    spawner.spawn(Countdown(1)).ok().unwrap();
    executor.run(&mut spawner);
    spawner.spawn(Countdown(1)).ok().unwrap();
    assert!(!executor.wake(&mut spawner, 0));
    assert_eq!(executor.parked_len(), 1);
}

#[test]
fn share_count_follows_clone_drop_and_wakes() {
    let mut shares = TaskShares::new(3);
    assert_eq!(shares.count(), 1);
    shares.dequeue();
    assert!(shares.is_released());
    let w = shares.waker();
    assert_eq!(w.task, 3);
    let c = shares.clone_waker(&w);
    assert_ne!(c.slot, w.slot);
    assert_eq!(shares.count(), 2);
    shares.wake_by_ref(&c);
    assert_eq!(shares.count(), 3);
    assert_eq!(shares.queued(), 1);
    assert_eq!(shares.live_handles(), 2);
    shares.wake(w);
    assert_eq!(shares.count(), 3);
    assert_eq!(shares.queued(), 2);
    assert_eq!(shares.live_handles(), 1);
    shares.dequeue();
    shares.dequeue();
    assert_eq!(shares.count(), 1);
    assert!(!shares.is_released());
    shares.drop_waker(c);
    assert_eq!(shares.count(), 0);
    assert!(shares.is_released());
}

#[test]
fn dropping_one_clone_keeps_task_for_registered_one() {
    let mut reactor = Reactor::new();
    let mut shares = TaskShares::new(9);
    shares.dequeue();
    let first = shares.waker();
    let second = shares.clone_waker(&first);
    let token = reactor.unique_token();
    assert_eq!(reactor.poll(token, &second), Poll::Pending);
    shares.drop_waker(first);
    assert!(!shares.is_released());
    assert_eq!(shares.count(), 1);
    let woken = reactor.on_event(token).unwrap();
    assert_eq!(woken, second);
    shares.wake(woken);
    assert_eq!(shares.count(), 1);
    assert_eq!(shares.live_handles(), 0);
    shares.dequeue();
    assert!(shares.is_released());
}

#[test]
fn will_wake_compares_tasks() {
    let a = Waker { task: 1, slot: 0 };
    let b = Waker { task: 1, slot: 4 };
    let c = Waker { task: 2, slot: 0 };
    assert!(a.will_wake(&b));
    assert!(!a.will_wake(&c));
}

#[test]
fn repeated_poll_with_same_waker_stays_pending() {
    let mut reactor = Reactor::new();
    let token = reactor.unique_token();
    let w = Waker { task: 5, slot: 0 };
    let same_task = Waker { task: 5, slot: 1 };
    assert_eq!(reactor.poll(token, &w), Poll::Pending);
    assert_eq!(reactor.poll(token, &same_task), Poll::Pending);
    assert_eq!(reactor.status(token), Some(Status::Awaited(w)));
    let other = Waker { task: 6, slot: 0 };
    assert_eq!(reactor.poll(token, &other), Poll::Pending);
    assert_eq!(reactor.status(token), Some(Status::Awaited(other)));
}

#[test]
fn readiness_is_consumed_once() {
    let mut reactor = Reactor::new();
    let token = reactor.unique_token();
    let w = Waker { task: 1, slot: 0 };
    assert_eq!(reactor.on_event(token), None);
    assert_eq!(reactor.status(token), Some(Status::Happened));
    assert_eq!(reactor.poll(token, &w), Poll::Ready);
    assert_eq!(reactor.status(token), None);
    assert_eq!(reactor.poll(token, &w), Poll::Pending);
    assert_eq!(reactor.status(token), Some(Status::Awaited(w)));
}

#[test]
fn event_overwrites_awaited_and_returns_waker() {
    let mut reactor = Reactor::new();
    let t0 = reactor.unique_token();
    let t1 = reactor.unique_token();
    assert_eq!((t0, t1), (0, 1));
    let w = Waker { task: 2, slot: 0 };
    reactor.poll(t1, &w);
    assert_eq!(reactor.on_event(t1), Some(w));
    assert_eq!(reactor.on_event(t1), None);
    assert_eq!(reactor.status(t1), Some(Status::Happened));
    assert_eq!(reactor.status(t0), None);
}

#[test]
fn send_with_buffer_space_completes_without_suspending() {
    let mut reactor = Reactor::new();
    let socket = Registration::register(&mut reactor);
    let w = Waker { task: 0, slot: 0 };
    assert_eq!(socket.send_step(&mut reactor, &w, SendAttempt::Sent(12)), SendStep::Complete(12));
    assert_eq!(reactor.status(socket.token()), None);
    assert_eq!(socket.send_step(&mut reactor, &w, SendAttempt::Failed), SendStep::Fail);
}

/// A send whose outcomes come from a script, as the socket would report them.
struct ScriptedSend {
    socket: Registration,
    attempts: Vec<SendAttempt>,
    reactor: std::rc::Rc<std::cell::RefCell<Reactor>>,
    result: std::rc::Rc<std::cell::Cell<Option<usize>>>,
}

impl Future for ScriptedSend {
    fn next_outcome(&self, _waker: Waker) -> Poll {
        let mut ready = self.reactor.borrow().status(self.socket.token()) == Some(Status::Happened);
        for attempt in &self.attempts {
            match attempt {
                SendAttempt::WouldBlock if ready => ready = false,
                SendAttempt::WouldBlock => return Poll::Pending,
                _ => return Poll::Ready,
            }
        }
        Poll::Pending
    }

    fn poll(&mut self, cx: &Context) -> Poll {
        loop {
            let attempt = self.attempts.remove(0);
            let step = self.socket.send_step(&mut self.reactor.borrow_mut(), cx.waker(), attempt);
            match step {
                SendStep::Complete(n) => {
                    self.result.set(Some(n));
                    return Poll::Ready;
                }
                SendStep::Fail => return Poll::Ready,
                SendStep::Retry => continue,
                SendStep::Suspend => return Poll::Pending,
            }
        }
    }
}

#[test]
fn send_on_full_buffer_suspends_then_completes_after_writability() {
    let reactor = std::rc::Rc::new(std::cell::RefCell::new(Reactor::new()));
    let socket = Registration::register(&mut reactor.borrow_mut());
    let token = socket.token();
    let result = std::rc::Rc::new(std::cell::Cell::new(None));
    let (mut executor, mut spawner) = new_executor_spawner::<ScriptedSend>();
    let id = spawner
        .spawn(ScriptedSend {
            socket,
            attempts: vec![SendAttempt::WouldBlock, SendAttempt::Sent(4)],
            reactor: reactor.clone(),
            result: result.clone(),
        })
        .ok()
        .unwrap();
    executor.run(&mut spawner);
    assert_eq!(result.get(), None);
    assert_eq!(executor.parked_len(), 1);
    let woken = reactor.borrow_mut().on_event(token).unwrap();
    assert_eq!(woken.task, id);
    assert!(executor.wake(&mut spawner, woken.task));
    executor.run(&mut spawner);
    assert_eq!(result.get(), Some(4));
    assert_eq!(executor.completed().clone(), vec![id]);
}

#[test]
fn would_block_after_recorded_readiness_retries() {
    let mut reactor = Reactor::new();
    let socket = Registration::register(&mut reactor);
    let w = Waker { task: 0, slot: 0 };
    reactor.on_event(socket.token());
    assert_eq!(socket.send_step(&mut reactor, &w, SendAttempt::WouldBlock), SendStep::Retry);
    assert_eq!(socket.send_step(&mut reactor, &w, SendAttempt::WouldBlock), SendStep::Suspend);
}

#[test]
fn player_dies_keeping_name() {
    let player = Player::new("one".to_string());
    assert_eq!(player.name(), "one");
    assert_eq!(player.health(), 100);
    let player = player.die();
    assert_eq!(player.name(), "one");
    assert_eq!(player.health(), 0);
}

#[test]
fn data_shares_value_between_clones() {
    let data = Data::new(String::from("test hello injection"));
    let other = data.clone();
    assert_eq!(other.get().as_str(), "test hello injection");
    assert_eq!(Data::new(42).get(), &42);
}

#[test]
fn test_one() {
    let vec: Vec<u16> = vec![1, 2, 3];
    let str: String = vec
        .iter()
        .map(|&x| x.to_string())
        .collect::<Vec<String>>()
        .join("_");
    assert_eq!(str, "1_2_3");
}
