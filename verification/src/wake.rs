use vstd::prelude::*;
use core::task::Waker;

verus! {

/// `core::task::Waker`, declared so the registration table can hold it: an
/// opaque resumption handle whose only meaning is "make the suspended task
/// that installed it runnable again". Nothing inside it is visible here.
#[verifier::external_type_specification]
#[verifier::external_body]
pub struct ExWaker(Waker);

/// Relies on `core::task::Waker::wake`: delivers the resumption once,
/// consuming the handle. The call returns nothing to state a contract
/// over; its effect is on the task the handle belongs to, which lives
/// outside this crate.
#[verifier::external_body]
fn wake_one(w: Waker) {
    w.wake()
}

/// Wakes every handle in the list, front to back, consuming the list.
pub fn wake_all(wakers: Vec<Waker>) {
    let mut rest = wakers;
    while rest.len() > 0
        decreases rest.len(),
    {
        let w = rest.remove(0);
        wake_one(w);
    }
}

} // verus!
