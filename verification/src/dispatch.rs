//! The dispatcher: owner of the accept loop's decisions. Every accepted
//! connection is assigned to one worker by pure round-robin — connection `k`
//! (0-indexed) goes to worker `k mod worker_count` — and a shutdown signal
//! stops all further admissions while leaving everything already assigned
//! untouched.

use vstd::arithmetic::div_mod::{lemma_add_mod_noop, lemma_mod_bound, lemma_small_mod};
use vstd::prelude::*;

verus! {

pub struct Dispatcher {
    /// How many workers the pool holds; fixed at startup, at least one.
    pub worker_count: usize,
    /// Index of the worker the next connection goes to.
    pub cursor: usize,
    /// Total connections accepted so far.
    pub accepted: u64,
    /// Cleared exactly once, by the shutdown signal.
    pub accepting: bool,
}

impl Dispatcher {
    /// The cursor never strays from the round-robin schedule: it always
    /// equals the number of connections accepted so far, modulo the pool
    /// size.
    pub open spec fn wf(self) -> bool {
        &&& self.worker_count >= 1
        &&& self.cursor < self.worker_count
        &&& self.cursor as int == self.accepted as int % self.worker_count as int
    }

    pub open spec fn spec_on_shutdown(self) -> Dispatcher {
        Dispatcher { accepting: false, ..self }
    }

    /// Assignment of the next connection, and the dispatcher state after it:
    /// `None` once shutdown has fired.
    pub open spec fn spec_accept(self) -> (Dispatcher, Option<int>) {
        if self.accepting {
            (
                Dispatcher {
                    cursor: ((self.cursor + 1) % self.worker_count as int) as usize,
                    accepted: (self.accepted + 1) as u64,
                    ..self
                },
                Some(self.accepted as int % self.worker_count as int),
            )
        } else {
            (self, None)
        }
    }

    pub fn new(worker_count: usize) -> (d: Dispatcher)
        requires
            worker_count >= 1,
        ensures
            d.wf(),
            d.worker_count == worker_count,
            d.cursor == 0,
            d.accepted == 0,
            d.accepting,
    {
        proof {
            lemma_small_mod(0nat, worker_count as nat);
        }
        Dispatcher { worker_count, cursor: 0, accepted: 0, accepting: true }
    }

    /// Admit one accepted connection: hand back the worker index it is
    /// assigned to and advance the schedule. After shutdown no connection is
    /// admitted and nothing changes.
    pub fn accept_connection(&mut self) -> (w: Option<usize>)
        requires
            old(self).wf(),
            old(self).accepted < u64::MAX,
        ensures
            final(self).wf(),
            *final(self) == old(self).spec_accept().0,
            w == match old(self).spec_accept().1 {
                Some(i) => Some(i as usize),
                None => None::<usize>,
            },
            old(self).accepting ==> w == Some(
                (old(self).accepted as int % old(self).worker_count as int) as usize,
            ),
            !old(self).accepting ==> w == None::<usize> && *final(self) == *old(self),
    {
        if !self.accepting {
            return None;
        }
        let w = self.cursor;
        proof {
            lemma_accept_advances_schedule(*self);
        }
        self.cursor = (self.cursor + 1) % self.worker_count;
        self.accepted = self.accepted + 1;
        Some(w)
    }

    /// The shutdown broadcast reaches the accept loop: admissions stop for
    /// good. Counters, cursor and pool size are untouched.
    pub fn on_shutdown(&mut self)
        ensures
            *final(self) == old(self).spec_on_shutdown(),
            !final(self).accepting,
            final(self).worker_count == old(self).worker_count,
            final(self).cursor == old(self).cursor,
            final(self).accepted == old(self).accepted,
    {
        self.accepting = false;
    }

    /// Admit a run of `n` connections and report each one's worker: the
    /// `k`-th connection of the run — connection `accepted + k` overall —
    /// lands on worker `(accepted + k) mod worker_count`.
    pub fn assign_batch(&mut self, n: usize) -> (ws: Vec<usize>)
        requires
            old(self).wf(),
            old(self).accepting,
            old(self).accepted + n <= u64::MAX,
        ensures
            final(self).wf(),
            final(self).accepting,
            final(self).accepted == old(self).accepted + n,
            final(self).worker_count == old(self).worker_count,
            ws@.len() == n,
            forall|k: int|
                0 <= k < n ==> #[trigger] ws@[k] as int == (old(self).accepted + k) as int
                    % old(self).worker_count as int,
    {
        let mut ws: Vec<usize> = Vec::new();
        let mut i: usize = 0;
        while i < n
            invariant
                self.wf(),
                self.accepting,
                i <= n,
                self.worker_count == old(self).worker_count,
                self.accepted == old(self).accepted + i,
                old(self).accepted + n <= u64::MAX,
                ws@.len() == i,
                forall|k: int|
                    0 <= k < i ==> #[trigger] ws@[k] as int == (old(self).accepted + k) as int
                        % old(self).worker_count as int,
            decreases n - i,
        {
            let w = self.accept_connection();
            match w {
                Some(idx) => ws.push(idx),
                None => (),
            }
            i += 1;
        }
        ws
    }

    /// How long the process lingers after shutdown so workers can drain:
    /// one second per worker.
    pub fn grace_period_secs(&self) -> (r: u64)
        requires
            self.worker_count as u64 <= u64::MAX,
        ensures
            r == self.worker_count as u64,
    {
        self.worker_count as u64
    }
}

/// The round-robin schedule survives one admission: from a well-formed
/// accepting dispatcher, the post-state of an accept is well-formed again,
/// with the cursor advanced one step around the ring.
proof fn lemma_accept_advances_schedule(d: Dispatcher)
    requires
        d.wf(),
        d.accepting,
        d.accepted < u64::MAX,
    ensures
        d.spec_accept().0.wf(),
        d.spec_accept().0.accepting,
        d.spec_accept().0.accepted == d.accepted + 1,
        d.spec_accept().0.worker_count == d.worker_count,
        d.spec_accept().1 == Some(d.accepted as int % d.worker_count as int),
{
    let m = d.worker_count as int;
    lemma_mod_bound(d.cursor as int + 1, m);
    lemma_add_mod_noop(d.accepted as int, 1int, m);
    if m == 1 {
        lemma_mod_bound(d.accepted as int + 1, m);
        lemma_mod_bound(1int, m);
    } else {
        lemma_small_mod(1nat, m as nat);
    }
}

/// Round-robin covers every accepted connection: over any run of `n`
/// admissions, connection `k` of the run is assigned to worker
/// `(accepted_before + k) mod worker_count`; from a fresh dispatcher that is
/// exactly `k mod worker_count`. No worker is skipped and none is favoured:
/// each index recurs with period `worker_count`.
pub proof fn lemma_round_robin_assignment(d: Dispatcher, k: nat)
    requires
        d.wf(),
        d.accepting,
        d.accepted == 0,
        k < u64::MAX,
    ensures
        spec_assignment_after(d, k) == k as int % d.worker_count as int,
{
    lemma_assignments_advance(d, k);
}

/// After shutdown the accept loop admits nothing: the dispatcher's very next
/// accept — and every accept after it — returns no assignment and leaves the
/// state unchanged.
pub proof fn lemma_shutdown_stops_admissions(d: Dispatcher)
    requires
        d.wf(),
    ensures
        d.spec_on_shutdown().spec_accept().1 is None,
        d.spec_on_shutdown().spec_accept().0 == d.spec_on_shutdown(),
{
}

/// Worker index the `k`-th admission receives, starting from state `d`.
pub open spec fn spec_assignment_after(d: Dispatcher, k: nat) -> int
    decreases k,
{
    if k == 0 {
        d.spec_accept().1->Some_0
    } else {
        spec_assignment_after(d.spec_accept().0, (k - 1) as nat)
    }
}

proof fn lemma_assignments_advance(d: Dispatcher, k: nat)
    requires
        d.wf(),
        d.accepting,
        d.accepted + k < u64::MAX,
    ensures
        spec_assignment_after(d, k) == (d.accepted + k) as int % d.worker_count as int,
    decreases k,
{
    lemma_accept_advances_schedule(d);
    if k > 0 {
        lemma_assignments_advance(d.spec_accept().0, (k - 1) as nat);
    }
}

} // verus!
