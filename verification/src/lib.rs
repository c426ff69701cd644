//! A minimal, single-threaded, readiness-driven runtime core for network
//! servers: a reactor that maps descriptors to pending resumption handles,
//! the would-block suspension state machine shared by every asynchronous
//! socket operation, and a cooperative run queue.
//!
//! The OS-facing pieces (the readiness syscalls, the sockets themselves)
//! live outside this crate; this crate holds the bookkeeping and the
//! decisions, with contracts over mathematical models of each.

pub mod interest;
pub mod reactor;
pub mod sched;
pub mod suspend;
pub mod wake;
