use minireactor::interest::{
    interest_mask, interest_of, Interest, StreamOp, EDGE_BIT, ONESHOT_BIT, READABLE_BIT,
    WRITABLE_BIT,
};
use minireactor::suspend::{AcceptPoll, ArmOp, ArmState, Attempt, Step};

#[test]
fn only_reads_wait_for_readability() {
    assert_eq!(interest_of(StreamOp::Read), Interest::Read);
    assert_eq!(interest_of(StreamOp::Write), Interest::Write);
    assert_eq!(interest_of(StreamOp::Flush), Interest::Write);
    // The half-close is outbound only, so it too waits to be writable.
    assert_eq!(interest_of(StreamOp::CloseWrite), Interest::Write);
}

#[test]
fn interest_masks_are_edge_triggered_one_shot() {
    assert_eq!(interest_mask(Interest::Read), 0xC000_0001);
    assert_eq!(interest_mask(Interest::Write), 0xC000_0004);
    assert_eq!(EDGE_BIT | ONESHOT_BIT | READABLE_BIT, 0xC000_0001);
    assert_eq!(EDGE_BIT | ONESHOT_BIT | WRITABLE_BIT, 0xC000_0004);
}

#[test]
fn done_attempt_completes_without_touching_state() {
    let mut s = ArmState::new();
    assert!(!s.registered);
    let step = s.step::<usize, i32>(Interest::Read, Attempt::Done(42));
    assert!(matches!(step, Step::Complete(42)));
    assert!(!s.registered);
}

#[test]
fn first_would_block_adds_then_rearms() {
    let mut s = ArmState::new();

    let step = s.step::<usize, i32>(Interest::Read, Attempt::WouldBlock);
    assert!(matches!(step, Step::Arm(ArmOp::Add, Interest::Read)));
    assert!(s.registered);

    let step = s.step::<usize, i32>(Interest::Read, Attempt::WouldBlock);
    assert!(matches!(step, Step::Arm(ArmOp::Modify, Interest::Read)));
    assert!(s.registered);
}

#[test]
fn write_side_operations_arm_write_interest() {
    let mut s = ArmState::new();
    let step = s.step::<(), i32>(Interest::Write, Attempt::WouldBlock);
    assert!(matches!(step, Step::Arm(ArmOp::Add, Interest::Write)));
    let step = s.step::<(), i32>(Interest::Write, Attempt::WouldBlock);
    assert!(matches!(step, Step::Arm(ArmOp::Modify, Interest::Write)));
}

#[test]
fn real_error_is_surfaced_and_state_kept() {
    let mut s = ArmState::new();
    s.step::<usize, i32>(Interest::Read, Attempt::WouldBlock);
    let step = s.step::<usize, i32>(Interest::Read, Attempt::Failed(-13));
    assert!(matches!(step, Step::Fail(-13)));
    assert!(s.registered);
}

#[test]
fn accept_sequence_is_restartable_after_would_blocks() {
    // Repeated would-block polls, then a wake and one more poll: the
    // connection arrives using no input besides "poll again".
    let mut listener = ArmState::new();

    let poll = listener.accept_step::<u64, i32>(Attempt::WouldBlock);
    assert!(matches!(poll, AcceptPoll::Suspend(ArmOp::Add)));
    for _ in 0..3 {
        let poll = listener.accept_step::<u64, i32>(Attempt::WouldBlock);
        assert!(matches!(poll, AcceptPoll::Suspend(ArmOp::Modify)));
    }

    let poll = listener.accept_step::<u64, i32>(Attempt::Done(44));
    assert!(matches!(poll, AcceptPoll::Ready(44)));

    // The sequence keeps producing: a later connection is accepted the
    // same way.
    let poll = listener.accept_step::<u64, i32>(Attempt::WouldBlock);
    assert!(matches!(poll, AcceptPoll::Suspend(ArmOp::Modify)));
    let poll = listener.accept_step::<u64, i32>(Attempt::Done(45));
    assert!(matches!(poll, AcceptPoll::Ready(45)));
}

#[test]
fn accept_error_ends_the_sequence() {
    let mut listener = ArmState::new();
    let poll = listener.accept_step::<u64, i32>(Attempt::Failed(-7));
    assert!(matches!(poll, AcceptPoll::Ended(-7)));
}
