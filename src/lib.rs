//! A cooperative task runtime with a readiness-based reactor: the
//! token-indexed readiness table, the bounded ready queue with its executor,
//! the retry step of a nonblocking send, and a standalone model of the share
//! count that waker handles keep on a task.
//! Alongside: a type-indexed dependency container and a type-state player.

pub mod waker;
pub mod reactor;
pub mod executor;
pub mod socket;
pub mod data;
pub mod inject;
pub mod player;
