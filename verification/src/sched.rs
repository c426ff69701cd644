use vstd::prelude::*;

verus! {

/// The cooperative scheduler's bookkeeping: the run queue of task
/// identifiers that can make progress right now, in the order they are to
/// be polled, and the source of fresh identifiers.
///
/// All tasks run on one control thread, strictly interleaved: the driver
/// repeatedly takes the next runnable identifier and polls that task. A
/// polled task either completes or suspends; a suspended task's identifier
/// re-enters the queue only when its resumption handle fires. The queue
/// being empty is the stall: nothing can progress without new external
/// input, so the thread may block on the reactor.
pub struct Scheduler {
    queue: Vec<u64>,
    next_id: u64,
}

impl Scheduler {
    /// The run queue, in polling order.
    pub closed spec fn queue(self) -> Seq<u64> {
        self.queue@
    }

    /// How many identifiers have ever been issued; identifiers `0` up to
    /// (excluding) this one belong to admitted tasks.
    pub closed spec fn issued(self) -> u64 {
        self.next_id
    }

    /// Every queued identifier was issued by `spawn`.
    pub open spec fn wf(self) -> bool {
        forall|i: int| 0 <= i < self.queue().len() ==> self.queue()[i] < self.issued()
    }

    /// A fresh scheduler: nothing admitted, nothing runnable.
    pub fn new() -> (s: Scheduler)
        ensures
            s.queue() == Seq::<u64>::empty(),
            s.issued() == 0,
            s.wf(),
    {
        Scheduler { queue: Vec::new(), next_id: 0 }
    }

    /// Admits a new unit of work: issues the next fresh identifier and
    /// puts it at the back of the run queue, so it gets its first poll in
    /// the pass that drains the queue. The identifier is new — it is not
    /// already queued under any earlier admission.
    pub fn spawn(&mut self) -> (id: u64)
        requires
            old(self).wf(),
            old(self).issued() < u64::MAX,
        ensures
            final(self).wf(),
            id == old(self).issued(),
            final(self).issued() == old(self).issued() + 1,
            final(self).queue() == old(self).queue().push(id),
            !old(self).queue().contains(id),
    {
        let id = self.next_id;
        self.queue.push(id);
        self.next_id = self.next_id + 1;
        proof {
            assert forall|i: int| 0 <= i < self.queue().len() implies self.queue()[i]
                < self.issued() by {
                if i < old(self).queue().len() {
                    assert(old(self).queue()[i] < old(self).issued());
                }
            }
        }
        id
    }

    /// Re-admits a suspended task whose resumption handle fired. Only an
    /// identifier that `spawn` issued may come back.
    pub fn enqueue(&mut self, id: u64)
        requires
            old(self).wf(),
            id < old(self).issued(),
        ensures
            final(self).wf(),
            final(self).queue() == old(self).queue().push(id),
            final(self).issued() == old(self).issued(),
    {
        self.queue.push(id);
        proof {
            assert forall|i: int| 0 <= i < self.queue().len() implies self.queue()[i]
                < self.issued() by {
                if i < old(self).queue().len() {
                    assert(old(self).queue()[i] < old(self).issued());
                }
            }
        }
    }

    /// Takes the next runnable task in polling order: the front of the
    /// queue, or nothing when the scheduler is stalled.
    pub fn take_next(&mut self) -> (r: Option<u64>)
        requires
            old(self).wf(),
        ensures
            final(self).wf(),
            final(self).issued() == old(self).issued(),
            match r {
                Some(id) => old(self).queue().len() > 0 && id == old(self).queue()[0]
                    && final(self).queue() == old(self).queue().drop_first(),
                None => old(self).queue().len() == 0 && final(self).queue() == old(self).queue(),
            },
    {
        if self.queue.len() == 0 {
            None
        } else {
            let id = self.queue.remove(0);
            proof {
                assert(self.queue@ =~= old(self).queue().drop_first());
            }
            Some(id)
        }
    }

    /// How many task identifiers have been issued so far.
    pub fn issued_count(&self) -> (n: u64)
        ensures
            n == self.issued(),
    {
        self.next_id
    }

    /// How many tasks can make progress right now.
    pub fn runnable_count(&self) -> (n: usize)
        ensures
            n == self.queue().len(),
    {
        self.queue.len()
    }

    /// The stall condition of one drain pass, and the server loop's
    /// decision: keep draining while any task is runnable, and block on
    /// the reactor's wait exactly when none is — never busy-spinning, and
    /// never blocking while a runnable task (say, one spawned or woken
    /// during the pass) still awaits its poll.
    pub fn should_block(&self) -> (b: bool)
        ensures
            b == (self.queue().len() == 0),
    {
        self.queue.len() == 0
    }
}

} // verus!
