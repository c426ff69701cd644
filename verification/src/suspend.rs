use vstd::prelude::*;
use crate::interest::Interest;

verus! {

/// What one immediate, non-blocking OS attempt of an operation reported.
pub enum Attempt<T, E> {
    /// The call finished with its value: bytes moved, a connection, or unit.
    Done(T),
    /// The call could not complete now; the task must suspend and retry
    /// later from scratch.
    WouldBlock,
    /// The call failed with a real error.
    Failed(E),
}

/// How a registration reaches the OS readiness facility: a first-time add
/// of the descriptor, or a re-arm of one the facility already knows. The
/// add call is not idempotent, so the two must stay distinct.
#[derive(Clone, Copy, PartialEq, Eq, Structural, Debug)]
pub enum ArmOp {
    Add,
    Modify,
}

/// What the caller must do after feeding one attempt's outcome through the
/// suspension state machine.
pub enum Step<T, E> {
    /// Hand the value to the task; the operation is over.
    Complete(T),
    /// Register (or re-arm) the given interest for this descriptor with the
    /// task's current resumption handle, then report the task suspended.
    Arm(ArmOp, Interest),
    /// Surface the error; the operation is over.
    Fail(E),
}

/// What one poll of the accepted-connection sequence yields.
pub enum AcceptPoll<T, E> {
    /// A connection was accepted.
    Ready(T),
    /// Arm read interest with the current resumption handle and suspend.
    Suspend(ArmOp),
    /// A real error ends the sequence for this listener; it is reported
    /// once and never retried.
    Ended(E),
}

/// The per-wrapper suspension state: whether this descriptor has ever been
/// added to the OS facility. A one-shot registration stays known to the
/// facility after it fires, so the first would-block adds and every later
/// one re-arms.
pub struct ArmState {
    pub registered: bool,
}

/// The suspension state machine every asynchronous socket operation shares:
/// a finished attempt completes, a would-block attempt arms interest (an
/// add the first time, a re-arm afterwards) and suspends, and an error
/// fails. Only a would-block changes the state, and only to "registered".
pub open spec fn spec_step<T, E>(registered: bool, interest: Interest, a: Attempt<T, E>) -> (Step<
    T,
    E,
>, bool) {
    match a {
        Attempt::Done(v) => (Step::Complete(v), registered),
        Attempt::WouldBlock => (
            Step::Arm(if registered { ArmOp::Modify } else { ArmOp::Add }, interest),
            true,
        ),
        Attempt::Failed(e) => (Step::Fail(e), registered),
    }
}

/// The registration flag left by a run of `n` consecutive would-block
/// attempts starting from `registered`: unchanged by an empty run, and
/// true after any other.
pub open spec fn spec_flag_after_blocks(registered: bool, n: nat) -> bool
    decreases n,
{
    if n == 0 {
        registered
    } else {
        spec_flag_after_blocks(true, (n - 1) as nat)
    }
}

impl ArmState {
    /// A wrapper starts with its descriptor unknown to the OS facility.
    pub fn new() -> (s: ArmState)
        ensures
            !s.registered,
    {
        ArmState { registered: false }
    }

    /// Feeds one attempt's outcome through the shared suspension pattern:
    /// attempt the call; on success return the value; on would-block, arm
    /// the relevant interest — adding the descriptor the first time,
    /// re-arming it afterwards — and suspend; on any other error, surface
    /// it. Resumption restarts the operation from scratch, so no partial
    /// progress is recorded here.
    pub fn step<T, E>(&mut self, interest: Interest, attempt: Attempt<T, E>) -> (step: Step<T, E>)
        ensures
            (step, final(self).registered) == spec_step(
                old(self).registered,
                interest,
                attempt,
            ),
    {
        match attempt {
            Attempt::Done(v) => Step::Complete(v),
            Attempt::WouldBlock => {
                let op = if self.registered {
                    ArmOp::Modify
                } else {
                    ArmOp::Add
                };
                self.registered = true;
                Step::Arm(op, interest)
            },
            Attempt::Failed(e) => Step::Fail(e),
        }
    }

    /// One poll of the listener's accepted-connection sequence. It differs
    /// from the stream operations only in what an error means: an accepted
    /// connection is handed over, a would-block arms read interest and
    /// suspends, and any other error terminates the sequence for this
    /// listener instead of being surfaced and retried.
    pub fn accept_step<T, E>(&mut self, attempt: Attempt<T, E>) -> (r: AcceptPoll<T, E>)
        ensures
            ({
                let (step, registered) = spec_step(old(self).registered, Interest::Read, attempt);
                &&& final(self).registered == registered
                &&& match step {
                    Step::Complete(c) => r == AcceptPoll::<T, E>::Ready(c),
                    Step::Arm(op, i) => r == AcceptPoll::<T, E>::Suspend(op) && i
                        == Interest::Read,
                    Step::Fail(e) => r == AcceptPoll::<T, E>::Ended(e),
                }
            }),
    {
        match self.step(Interest::Read, attempt) {
            Step::Complete(c) => AcceptPoll::Ready(c),
            Step::Arm(op, _interest) => AcceptPoll::Suspend(op),
            Step::Fail(e) => AcceptPoll::Ended(e),
        }
    }
}

/// Law: the accepted-connection sequence is restartable. However many
/// would-block polls a listener has seen, the next poll needs nothing
/// besides its own attempt's outcome: a successful attempt yields exactly
/// the accepted connection, and a would-block merely asks to arm again —
/// as a first-time add only when no would-block ever preceded it.
pub proof fn lemma_accept_restartable<T, E>(registered: bool, n: nat, conn: T)
    ensures
        spec_step::<T, E>(
            spec_flag_after_blocks(registered, n),
            Interest::Read,
            Attempt::Done(conn),
        ).0 == Step::<T, E>::Complete(conn),
        spec_step::<T, E>(
            spec_flag_after_blocks(registered, n),
            Interest::Read,
            Attempt::WouldBlock,
        ).0 == Step::<T, E>::Arm(
            if n == 0 && !registered {
                ArmOp::Add
            } else {
                ArmOp::Modify
            },
            Interest::Read,
        ),
    decreases n,
{
    if n > 0 {
        lemma_flag_after_blocks_true(n);
    }
}

/// After at least one would-block, the descriptor counts as registered, so
/// every later arm is a re-arm.
proof fn lemma_flag_after_blocks_true(n: nat)
    requires
        n > 0,
    ensures
        spec_flag_after_blocks(true, n) == true,
        spec_flag_after_blocks(false, n) == true,
    decreases n,
{
    if n == 1 {
        assert(spec_flag_after_blocks(true, 0) == true);
    } else {
        lemma_flag_after_blocks_true((n - 1) as nat);
    }
}

} // verus!
