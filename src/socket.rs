use vstd::prelude::*;
use crate::reactor::{Poll, Reactor, event_next, event_wakes, poll_next, poll_result};
use crate::waker::Waker;

verus! {

/// What one nonblocking send attempt reported.
#[derive(Clone, Copy, Debug, PartialEq, Eq, Structural)]
pub enum SendAttempt {
    /// The datagram went out with this many bytes.
    Sent(usize),
    /// The socket's buffer is full.
    WouldBlock,
    /// Any other error.
    Failed,
}

/// What the send operation does next.
#[derive(Clone, Copy, Debug, PartialEq, Eq, Structural)]
pub enum SendStep {
    /// Finish with the byte count.
    Complete(usize),
    /// Finish with the error.
    Fail,
    /// Readiness was already signalled: try the send again now.
    Retry,
    /// A wake-up is armed: return `Pending` to the executor.
    Suspend,
}

/// The step chosen after `attempt` on the resource registered under `token`.
pub open spec fn send_step_spec(m: Map<u64, crate::reactor::Status>, token: u64, attempt: SendAttempt) -> SendStep {
    match attempt {
        SendAttempt::Sent(n) => SendStep::Complete(n),
        SendAttempt::Failed => SendStep::Fail,
        SendAttempt::WouldBlock => if poll_result(m, token) == Poll::Ready {
            SendStep::Retry
        } else {
            SendStep::Suspend
        },
    }
}

/// A nonblocking resource registered with the reactor under a token.
pub struct Registration {
    token: u64,
}

impl Registration {
    pub closed spec fn token_spec(&self) -> u64 {
        self.token
    }

    /// Registers a resource under a fresh token.
    pub fn register(reactor: &mut Reactor) -> (r: Registration)
        requires
            old(reactor).next_token_spec() < u64::MAX,
        ensures
            r.token_spec() == old(reactor).next_token_spec(),
            final(reactor).next_token_spec() == old(reactor).next_token_spec() + 1,
            final(reactor).table() == old(reactor).table(),
    {
        Registration { token: reactor.unique_token() }
    }

    pub fn token(&self) -> (r: u64)
        ensures
            r == self.token_spec(),
    {
        self.token
    }

    /// Decides what a send does after one attempt. A byte count or an error
    /// other than would-block ends the operation and leaves the reactor as it
    /// is. On would-block the reactor is polled for the token: readiness
    /// already recorded means retry at once, otherwise the task's handle is
    /// armed and the operation suspends.
    pub fn send_step(&self, reactor: &mut Reactor, waker: &Waker, attempt: SendAttempt) -> (r:
        SendStep)
        ensures
            r == send_step_spec(old(reactor).table(), self.token_spec(), attempt),
            final(reactor).next_token_spec() == old(reactor).next_token_spec(),
            attempt == SendAttempt::WouldBlock ==> final(reactor).table() == poll_next(
                old(reactor).table(),
                self.token_spec(),
                *waker,
            ),
            attempt != SendAttempt::WouldBlock ==> final(reactor).table() == old(reactor).table(),
    {
        match attempt {
            SendAttempt::Sent(n) => SendStep::Complete(n),
            SendAttempt::Failed => SendStep::Fail,
            SendAttempt::WouldBlock => match reactor.poll(self.token, waker) {
                Poll::Ready => SendStep::Retry,
                Poll::Pending => SendStep::Suspend,
            },
        }
    }
}

/// A send suspended on `token` is resumed by the next readiness event: the
/// event hands back the handle that was waiting, and the re-polled send no
/// longer suspends. A would-block retries at once, consuming the readiness,
/// and a successful attempt completes with its byte count.
pub proof fn lemma_event_resumes_suspended_send(
    m: Map<u64, crate::reactor::Status>,
    token: u64,
    w: Waker,
    n: usize,
)
    requires
        send_step_spec(m, token, SendAttempt::WouldBlock) == SendStep::Suspend,
    ensures
        poll_next(m, token, w).contains_key(token),
        poll_next(m, token, w)[token] is Awaited,
        event_wakes(poll_next(m, token, w), token) is Some,
        event_wakes(poll_next(m, token, w), token).unwrap().task == w.task,
        send_step_spec(event_next(poll_next(m, token, w), token), token, SendAttempt::WouldBlock)
            == SendStep::Retry,
        send_step_spec(event_next(poll_next(m, token, w), token), token, SendAttempt::Sent(n))
            == SendStep::Complete(n),
{
}

} // verus!
