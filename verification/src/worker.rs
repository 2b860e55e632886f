//! A worker: one execution context owning an inbound FIFO connection queue,
//! a bounded set of concurrency slots, and a served-request counter. It runs
//! until the shutdown broadcast, then drains: nothing queued before the
//! signal is lost, but nothing new is admitted into the queue.

use vstd::prelude::*;

verus! {

/// Connections a worker handles at once, unless configured otherwise.
pub const DEFAULT_SLOT_CAPACITY: usize = 10;

/// The per-worker concurrency limiter: a fixed pool of permits. A request
/// runs only while it holds one, so at most `capacity` requests are ever in
/// flight on one worker.
pub struct Slots {
    pub capacity: usize,
    pub in_flight: usize,
}

impl Slots {
    /// The bound itself: never more requests in flight than the pool allows.
    pub open spec fn wf(self) -> bool {
        self.in_flight <= self.capacity
    }

    pub fn new(capacity: usize) -> (s: Slots)
        ensures
            s.wf(),
            s.capacity == capacity,
            s.in_flight == 0,
    {
        Slots { capacity, in_flight: 0 }
    }

    /// Take a permit if one is free. A caller that gets `false` holds
    /// nothing and must wait: the request is delayed, never failed.
    pub fn try_acquire(&mut self) -> (got: bool)
        requires
            old(self).wf(),
        ensures
            final(self).wf(),
            final(self).capacity == old(self).capacity,
            got == (old(self).in_flight < old(self).capacity),
            got ==> final(self).in_flight == old(self).in_flight + 1,
            !got ==> *final(self) == *old(self),
    {
        if self.in_flight < self.capacity {
            self.in_flight = self.in_flight + 1;
            true
        } else {
            false
        }
    }

    /// Give a permit back once the request is done — on success, protocol
    /// error or I/O failure alike.
    pub fn release(&mut self)
        requires
            old(self).wf(),
            old(self).in_flight >= 1,
        ensures
            final(self).wf(),
            final(self).capacity == old(self).capacity,
            final(self).in_flight == old(self).in_flight - 1,
    {
        self.in_flight = self.in_flight - 1;
    }
}

/// One step of slot traffic, as seen by the limiter.
pub enum SlotOp {
    Acquire,
    Release,
}

/// Slot state after a whole history of acquire/release steps: an acquire
/// against a full pool waits (changes nothing), a release of nothing is a
/// no-op.
pub open spec fn apply_slot_ops(s: Slots, ops: Seq<SlotOp>) -> Slots
    decreases ops.len(),
{
    if ops.len() == 0 {
        s
    } else {
        let prev = apply_slot_ops(s, ops.drop_last());
        match ops.last() {
            SlotOp::Acquire => if prev.in_flight < prev.capacity {
                Slots { in_flight: (prev.in_flight + 1) as usize, ..prev }
            } else {
                prev
            },
            SlotOp::Release => if prev.in_flight >= 1 {
                Slots { in_flight: (prev.in_flight - 1) as usize, ..prev }
            } else {
                prev
            },
        }
    }
}

/// No history of slot traffic ever pushes a worker past its capacity: from
/// any well-formed start, after any sequence of acquires and releases, the
/// requests in flight still number at most `capacity`.
pub proof fn lemma_slots_never_exceed_capacity(s: Slots, ops: Seq<SlotOp>)
    requires
        s.wf(),
    ensures
        apply_slot_ops(s, ops).wf(),
        apply_slot_ops(s, ops).capacity == s.capacity,
        apply_slot_ops(s, ops).in_flight <= s.capacity,
    decreases ops.len(),
{
    if ops.len() > 0 {
        lemma_slots_never_exceed_capacity(s, ops.drop_last());
    }
}

/// Lifecycle of a worker: serving, draining after the shutdown signal,
/// stopped once the queue has emptied.
#[derive(Debug, PartialEq, Eq, Structural)]
pub enum WorkerState {
    Running,
    Draining,
    Stopped,
}

pub struct Worker {
    pub state: WorkerState,
    /// Inbound connections, identified by number, in arrival order.
    pub queue: Vec<u64>,
    pub slots: Slots,
    /// Requests this worker has begun handling over its lifetime.
    pub served: u64,
}

/// The worker as the proofs see it: same fields, with the queue as a plain
/// sequence.
pub ghost struct WorkerModel {
    pub state: WorkerState,
    pub queue: Seq<u64>,
    pub slots: Slots,
    pub served: u64,
}

impl WorkerModel {
    pub open spec fn wf(self) -> bool {
        self.slots.wf()
    }

    pub open spec fn spec_on_shutdown(self) -> WorkerModel {
        match self.state {
            WorkerState::Running => WorkerModel { state: WorkerState::Draining, ..self },
            _ => self,
        }
    }

    /// Queue contents and next handed-out connection after one receive
    /// attempt.
    pub open spec fn spec_next_connection(self) -> (WorkerModel, Option<u64>) {
        match self.state {
            WorkerState::Running => if self.queue.len() > 0 {
                (WorkerModel { queue: self.queue.drop_first(), ..self }, Some(self.queue[0]))
            } else {
                (self, None)
            },
            WorkerState::Draining => if self.queue.len() > 0 {
                (WorkerModel { queue: self.queue.drop_first(), ..self }, Some(self.queue[0]))
            } else {
                ((WorkerModel { state: WorkerState::Stopped, ..self }), None)
            },
            WorkerState::Stopped => (self, None),
        }
    }
}

impl View for Worker {
    type V = WorkerModel;

    open spec fn view(&self) -> WorkerModel {
        WorkerModel {
            state: self.state,
            queue: self.queue@,
            slots: self.slots,
            served: self.served,
        }
    }
}

impl Worker {
    pub open spec fn wf(self) -> bool {
        self.slots.wf()
    }

    pub fn new(slot_capacity: usize) -> (w: Worker)
        ensures
            w.wf(),
            w.state == WorkerState::Running,
            w.queue@ == Seq::<u64>::empty(),
            w.slots.capacity == slot_capacity,
            w.slots.in_flight == 0,
            w.served == 0,
    {
        let w = Worker {
            state: WorkerState::Running,
            queue: Vec::new(),
            slots: Slots::new(slot_capacity),
            served: 0,
        };
        proof {
            assert(w.queue@ =~= Seq::<u64>::empty());
        }
        w
    }

    /// The dispatcher pushes a connection into this worker's queue. Only a
    /// running worker takes it: once draining, the queue is closed.
    pub fn enqueue(&mut self, conn: u64) -> (accepted: bool)
        requires
            old(self).wf(),
        ensures
            final(self).wf(),
            accepted == (old(self).state == WorkerState::Running),
            accepted ==> final(self).queue@ == old(self).queue@.push(conn),
            final(self).state == old(self).state,
            final(self).slots == old(self).slots,
            final(self).served == old(self).served,
            !accepted ==> *final(self) == *old(self),
    {
        match self.state {
            WorkerState::Running => {
                self.queue.push(conn);
                true
            },
            _ => false,
        }
    }

    /// The shutdown broadcast reaches this worker: it moves from `Running`
    /// to `Draining`. The queue is kept whole — connections queued before
    /// the signal will still be handled.
    pub fn on_shutdown(&mut self)
        requires
            old(self).wf(),
        ensures
            final(self).wf(),
            final(self)@ == old(self)@.spec_on_shutdown(),
            final(self).queue == old(self).queue,
            old(self).state == WorkerState::Running ==> final(self).state == WorkerState::Draining,
    {
        match self.state {
            WorkerState::Running => {
                self.state = WorkerState::Draining;
            },
            _ => (),
        }
    }

    /// One receive attempt on the inbound queue, FIFO. While running, an
    /// empty queue just means nothing yet. While draining, the backlog is
    /// still handed out connection by connection, and the worker stops once
    /// it is gone.
    pub fn next_connection(&mut self) -> (conn: Option<u64>)
        requires
            old(self).wf(),
        ensures
            final(self).wf(),
            final(self)@ == old(self)@.spec_next_connection().0,
            conn == old(self)@.spec_next_connection().1,
    {
        match self.state {
            WorkerState::Running => {
                if self.queue.len() > 0 {
                    let c = self.queue.remove(0);
                    proof {
                        assert(self.queue@ =~= old(self).queue@.drop_first());
                    }
                    Some(c)
                } else {
                    None
                }
            },
            WorkerState::Draining => {
                if self.queue.len() > 0 {
                    let c = self.queue.remove(0);
                    proof {
                        assert(self.queue@ =~= old(self).queue@.drop_first());
                    }
                    Some(c)
                } else {
                    self.state = WorkerState::Stopped;
                    None
                }
            },
            WorkerState::Stopped => None,
        }
    }

    /// Admit a received connection into a slot and count it. `false` means
    /// all slots are taken and the request must wait for a release; it is
    /// never dropped.
    pub fn begin_request(&mut self) -> (got: bool)
        requires
            old(self).wf(),
            old(self).served < u64::MAX,
        ensures
            final(self).wf(),
            final(self).state == old(self).state,
            final(self).queue == old(self).queue,
            got == (old(self).slots.in_flight < old(self).slots.capacity),
            got ==> final(self).slots.in_flight == old(self).slots.in_flight + 1
                && final(self).served == old(self).served + 1,
            !got ==> *final(self) == *old(self),
            final(self).slots.capacity == old(self).slots.capacity,
    {
        let got = self.slots.try_acquire();
        if got {
            self.served = self.served + 1;
        }
        got
    }

    /// A per-connection task finished (with a response written or the
    /// connection failed): its slot is free again.
    pub fn finish_request(&mut self)
        requires
            old(self).wf(),
            old(self).slots.in_flight >= 1,
        ensures
            final(self).wf(),
            final(self).state == old(self).state,
            final(self).queue == old(self).queue,
            final(self).served == old(self).served,
            final(self).slots.in_flight == old(self).slots.in_flight - 1,
            final(self).slots.capacity == old(self).slots.capacity,
    {
        self.slots.release();
    }
}

/// Shutdown never abandons a queued connection. Once the signal fires, the
/// dispatcher admits nothing new — but a worker that held connections in its
/// queue before the signal drains them in order: the front connection is
/// still handed out for handling after the shutdown step.
pub proof fn lemma_shutdown_drains_queue(w: WorkerModel)
    requires
        w.wf(),
        w.state == WorkerState::Running,
        w.queue.len() > 0,
    ensures
        w.spec_on_shutdown().state == WorkerState::Draining,
        w.spec_on_shutdown().queue == w.queue,
        w.spec_on_shutdown().spec_next_connection().1 == Some(w.queue[0]),
{
}

} // verus!
