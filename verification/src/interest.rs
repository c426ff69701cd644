use vstd::prelude::*;

verus! {

/// Which readiness direction a suspended operation waits for: reads (and
/// accepts) wait for the descriptor to become readable, while writes,
/// flushes and half-closes wait for it to become writable.
#[derive(Clone, Copy, PartialEq, Eq, Structural, Debug)]
pub enum Interest {
    Read,
    Write,
}

/// The four asynchronous operations a connected socket offers. All share
/// one suspension pattern and differ (besides the OS call itself) only in
/// the readiness direction they wait for.
#[derive(Clone, Copy, PartialEq, Eq, Structural, Debug)]
pub enum StreamOp {
    /// Fill a buffer with whatever is immediately available; zero bytes
    /// signals end-of-stream.
    Read,
    /// Send from a buffer, possibly fewer bytes than offered.
    Write,
    /// Force buffered output out.
    Flush,
    /// Half-close the outbound direction only; the inbound direction stays
    /// usable until the socket itself is released.
    CloseWrite,
}

/// The readiness direction each operation waits for when it would block:
/// a read waits to be readable; a write, a flush and a half-close all wait
/// to be writable.
pub open spec fn spec_interest_of(op: StreamOp) -> Interest {
    match op {
        StreamOp::Read => Interest::Read,
        StreamOp::Write => Interest::Write,
        StreamOp::Flush => Interest::Write,
        StreamOp::CloseWrite => Interest::Write,
    }
}

/// Picks the readiness direction a blocked operation suspends on.
pub fn interest_of(op: StreamOp) -> (i: Interest)
    ensures
        i == spec_interest_of(op),
{
    match op {
        StreamOp::Read => Interest::Read,
        StreamOp::Write => Interest::Write,
        StreamOp::Flush => Interest::Write,
        StreamOp::CloseWrite => Interest::Write,
    }
}

/// Bit for "descriptor readable" in an OS readiness mask.
pub const READABLE_BIT: u32 = 0x1;

/// Bit for "descriptor writable" in an OS readiness mask.
pub const WRITABLE_BIT: u32 = 0x4;

/// Bit for edge-triggered delivery: one notification per transition to
/// ready, not one per moment of readiness.
pub const EDGE_BIT: u32 = 0x8000_0000;

/// Bit for one-shot delivery: a registration fires at most once before it
/// must be re-armed.
pub const ONESHOT_BIT: u32 = 0x4000_0000;

/// The mask every registration uses: edge-triggered and one-shot, plus the
/// bit for the requested direction and nothing else.
pub open spec fn spec_interest_mask(i: Interest) -> u32 {
    match i {
        Interest::Read => EDGE_BIT | ONESHOT_BIT | READABLE_BIT,
        Interest::Write => EDGE_BIT | ONESHOT_BIT | WRITABLE_BIT,
    }
}

/// Builds the OS event mask for one registration of the given interest.
pub fn interest_mask(i: Interest) -> (m: u32)
    ensures
        m == spec_interest_mask(i),
{
    match i {
        Interest::Read => EDGE_BIT | ONESHOT_BIT | READABLE_BIT,
        Interest::Write => EDGE_BIT | ONESHOT_BIT | WRITABLE_BIT,
    }
}

} // verus!
