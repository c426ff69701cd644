use vstd::prelude::*;
use core::task::Waker;
use std::collections::HashMap;
use crate::wake::wake_all;

verus! {

/// How many resumption handles `m` holds for descriptor `fd`.
pub open spec fn waiters_of(m: Map<u64, Seq<Waker>>, fd: u64) -> nat {
    if m.dom().contains(fd) {
        m[fd].len()
    } else {
        0
    }
}

/// The table after resolving one readiness batch: each reported
/// descriptor's entry is removed, front to back.
pub open spec fn spec_dispatch(m: Map<u64, Seq<Waker>>, ready: Seq<u64>) -> Map<u64, Seq<Waker>>
    decreases ready.len(),
{
    if ready.len() == 0 {
        m
    } else {
        spec_dispatch(m.remove(ready[0]), ready.drop_first())
    }
}

/// How many ready descriptors one blocking wait may resolve at a time: the
/// size of the event buffer handed to the OS. One wait drains at most this
/// many descriptors; the OS keeps any remainder pending for the next wait.
pub const EVENT_BATCH: usize = 10;

/// The reactor's registration table: for every descriptor with pending
/// interest, the resumption handles to deliver when the OS reports the
/// descriptor ready.
///
/// The OS readiness facility itself (its handle and its syscalls) lives
/// with the caller, which pairs each table operation with the matching OS
/// call; this type owns the bookkeeping those calls are resolved against.
/// Registering replaces a descriptor's pending handles rather than
/// accumulating them, and deregistering and dispatching wake everything
/// they remove, so no handle is ever silently dropped.
pub struct Reactor {
    table: HashMap<u64, Vec<Waker>>,
}

impl View for Reactor {
    type V = Map<u64, Seq<Waker>>;

    closed spec fn view(&self) -> Map<u64, Seq<Waker>> {
        self.table@.map_values(|ws: Vec<Waker>| ws@)
    }
}

impl Reactor {
    /// A fresh reactor with no registrations.
    pub fn new() -> (r: Reactor)
        ensures
            r@ == Map::<u64, Seq<Waker>>::empty(),
    {
        let r = Reactor { table: HashMap::new() };
        proof {
            assert(r@ =~= Map::<u64, Seq<Waker>>::empty());
        }
        r
    }

    /// Stores `waker` as the sole pending handle for `fd`, replacing any
    /// prior list for that descriptor, and wakes the replaced handles so
    /// their tasks retry and re-register instead of hanging. Returns how
    /// many handles were displaced and therefore woken.
    pub fn register(&mut self, fd: u64, waker: Waker) -> (woken: usize)
        ensures
            final(self)@ == old(self)@.insert(fd, seq![waker]),
            woken == waiters_of(old(self)@, fd),
    {
        let mut fresh: Vec<Waker> = Vec::new();
        fresh.push(waker);
        proof {
            assert(fresh@ =~= seq![waker]);
        }
        let prev = self.table.insert(fd, fresh);
        proof {
            assert(self@ =~= old(self)@.insert(fd, seq![waker]));
        }
        match prev {
            Some(ws) => {
                let woken = ws.len();
                wake_all(ws);
                woken
            },
            None => 0,
        }
    }

    /// Re-arms interest on a descriptor the OS facility already knows. On
    /// the table it acts exactly as `register` does; the distinction
    /// matters only to the facility, where a first-time add and a re-arm
    /// are different, non-interchangeable calls.
    pub fn modify(&mut self, fd: u64, waker: Waker) -> (woken: usize)
        ensures
            final(self)@ == old(self)@.insert(fd, seq![waker]),
            woken == waiters_of(old(self)@, fd),
    {
        self.register(fd, waker)
    }

    /// Removes the descriptor's entry — whether or not one exists — and
    /// wakes any still-pending handles, which observe cancellation: each
    /// woken task retries its operation against its own socket rather than
    /// waiting forever on a dead registration. Returns how many handles
    /// were woken.
    pub fn deregister(&mut self, fd: u64) -> (woken: usize)
        ensures
            final(self)@ == old(self)@.remove(fd),
            woken == waiters_of(old(self)@, fd),
    {
        let prev = self.table.remove(&fd);
        proof {
            assert(self@ =~= old(self)@.remove(fd));
        }
        match prev {
            Some(ws) => {
                let woken = ws.len();
                wake_all(ws);
                woken
            },
            None => 0,
        }
    }

    /// Resolves one batch of OS readiness events: for each reported
    /// descriptor, front to back, removes its entry and wakes its full
    /// pending list. Descriptors the OS did not report keep their entries
    /// for a later batch.
    pub fn dispatch(&mut self, ready: &Vec<u64>)
        ensures
            final(self)@ == spec_dispatch(old(self)@, ready@),
    {
        let mut i: usize = 0;
        proof {
            assert(ready@.skip(0) =~= ready@);
        }
        while i < ready.len()
            invariant
                i <= ready@.len(),
                spec_dispatch(self@, ready@.skip(i as int)) == spec_dispatch(
                    old(self)@,
                    ready@,
                ),
            decreases ready@.len() - i,
        {
            let fd = ready[i];
            let ghost pre = self@;
            let prev = self.table.remove(&fd);
            proof {
                assert(self@ =~= pre.remove(fd));
                assert(ready@.skip(i as int)[0] == fd);
                assert(ready@.skip(i as int).drop_first() =~= ready@.skip(i as int + 1));
            }
            match prev {
                Some(ws) => wake_all(ws),
                None => {},
            }
            i = i + 1;
        }
        proof {
            assert(ready@.skip(i as int) =~= Seq::<u64>::empty());
        }
    }

    /// Whether the table holds an entry for `fd`.
    pub fn is_registered(&self, fd: u64) -> (b: bool)
        ensures
            b == self@.dom().contains(fd),
    {
        let b = self.table.contains_key(&fd);
        proof {
            assert(self@.dom() =~= self.table@.dom());
        }
        b
    }

    /// How many resumption handles are pending for `fd`.
    pub fn waiter_count(&self, fd: u64) -> (n: usize)
        ensures
            n == waiters_of(self@, fd),
    {
        proof {
            assert(self@.dom() =~= self.table@.dom());
        }
        match self.table.get(&fd) {
            Some(ws) => ws.len(),
            None => 0,
        }
    }

    /// How many descriptors currently have pending interest.
    pub fn registered_count(&self) -> (n: usize)
        ensures
            n == self@.dom().len(),
    {
        proof {
            assert(self@.dom() =~= self.table@.dom());
        }
        self.table.len()
    }
}

/// Law: registering interest on a descriptor that already has a pending
/// handle replaces that handle rather than accumulating beside it. After a
/// second registration the descriptor holds exactly the later handle, and
/// exactly one handle — the earlier one — was displaced and woken by it.
pub proof fn lemma_register_replaces(m: Map<u64, Seq<Waker>>, fd: u64, w1: Waker, w2: Waker)
    ensures
        m.insert(fd, seq![w1]).insert(fd, seq![w2]) == m.insert(fd, seq![w2]),
        m.insert(fd, seq![w1]).insert(fd, seq![w2])[fd] == seq![w2],
        m.insert(fd, seq![w1]).insert(fd, seq![w2])[fd].len() == 1,
        waiters_of(m.insert(fd, seq![w1]), fd) == 1,
{
    assert(m.insert(fd, seq![w1]).insert(fd, seq![w2]) =~= m.insert(fd, seq![w2]));
}

/// Law: deregistration needs no prior successful registration. Removing a
/// descriptor always leaves a table without it; on a descriptor that was
/// never registered it changes nothing and wakes nobody, and it never
/// touches any other descriptor's pending handles.
pub proof fn lemma_deregister_total(m: Map<u64, Seq<Waker>>, fd: u64)
    ensures
        !m.remove(fd).dom().contains(fd),
        waiters_of(m.remove(fd), fd) == 0,
        !m.dom().contains(fd) ==> m.remove(fd) == m,
        forall|other: u64| other != fd ==> waiters_of(m.remove(fd), other) == waiters_of(m, other),
{
    if !m.dom().contains(fd) {
        assert(m.remove(fd) =~= m);
    }
}

/// Law: a readiness batch resolved against a table with no registrations
/// wakes nobody and leaves the table empty as it was; a blocking wait that
/// had nothing registered comes back with nothing changed.
pub proof fn lemma_dispatch_on_empty(ready: Seq<u64>)
    ensures
        spec_dispatch(Map::<u64, Seq<Waker>>::empty(), ready) == Map::<u64, Seq<Waker>>::empty(),
    decreases ready.len(),
{
    if ready.len() > 0 {
        assert(Map::<u64, Seq<Waker>>::empty().remove(ready[0]) =~= Map::<
            u64,
            Seq<Waker>,
        >::empty());
        lemma_dispatch_on_empty(ready.drop_first());
    }
}

/// Law: one batch drains exactly the descriptors the OS reported. Every
/// reported descriptor leaves the table, and every entry the OS did not
/// report survives untouched, discoverable by the next batch.
pub proof fn lemma_dispatch_exact(m: Map<u64, Seq<Waker>>, ready: Seq<u64>)
    ensures
        forall|fd: u64| ready.contains(fd) ==> !spec_dispatch(m, ready).dom().contains(fd),
        forall|fd: u64| !ready.contains(fd) ==> spec_dispatch(m, ready).dom().contains(fd)
            == m.dom().contains(fd),
        forall|fd: u64| !ready.contains(fd) ==> waiters_of(spec_dispatch(m, ready), fd)
            == waiters_of(m, fd),
    decreases ready.len(),
{
    if ready.len() > 0 {
        let head = ready[0];
        let rest = ready.drop_first();
        lemma_dispatch_exact(m.remove(head), rest);
        assert forall|fd: u64| ready.contains(fd) implies !spec_dispatch(
            m,
            ready,
        ).dom().contains(fd) by {
            if fd != head {
                let j = choose|j: int| 0 <= j < ready.len() && ready[j] == fd;
                assert(rest[j - 1] == fd);
                assert(rest.contains(fd));
            } else {
                if rest.contains(fd) {
                } else {
                    assert(!m.remove(head).dom().contains(fd));
                }
            }
        }
        assert forall|fd: u64| !ready.contains(fd) implies spec_dispatch(
            m,
            ready,
        ).dom().contains(fd) == m.dom().contains(fd) && waiters_of(spec_dispatch(m, ready), fd)
            == waiters_of(m, fd) by {
            assert(!rest.contains(fd)) by {
                if rest.contains(fd) {
                    let j = choose|j: int| 0 <= j < rest.len() && rest[j] == fd;
                    assert(ready[j + 1] == fd);
                }
            }
            assert(fd != head) by {
                assert(ready[0] == head);
            }
        }
    }
}

} // verus!
