//! Token-bucket rate limiting. Three independent instances guard the service:
//! a global tier checked before any request runs, a "common" tier for the
//! lower-risk mutating routes, and a "hard" tier for account creation and
//! login. A bucket holds up to `capacity` tokens and refills continuously at
//! `rate` tokens per second; an admission check consumes one token without
//! blocking, or is denied. Time reaches the bucket only as an explicit
//! nanosecond timestamp, so every admission decision is a pure function of
//! the bucket's state and the clock value handed in.

use vstd::prelude::*;

verus! {

/// Token contents are tracked in nanotokens so continuous refill needs no
/// fractions: one token is `NANOS_PER_TOKEN` nanotokens, and a bucket gains
/// `rate` nanotokens per nanosecond.
pub const NANOS_PER_TOKEN: u64 = 1_000_000_000;

pub struct TokenBucket {
    /// Most tokens the bucket ever holds.
    pub capacity: u32,
    /// Tokens gained per second of elapsed time.
    pub rate: u32,
    /// Current contents, scaled by `NANOS_PER_TOKEN`.
    pub nanotokens: u64,
    /// Timestamp (nanoseconds) at which `nanotokens` was last brought up to date.
    pub last_refill: u64,
}

impl TokenBucket {
    pub open spec fn cap_nanos(self) -> int {
        self.capacity * NANOS_PER_TOKEN
    }

    pub open spec fn wf(self) -> bool {
        self.nanotokens <= self.cap_nanos()
    }

    /// Contents after refilling at time `now`: elapsed time times rate,
    /// saturated at capacity. A clock reading older than the last refill adds
    /// nothing.
    pub open spec fn spec_refilled(self, now: u64) -> int {
        let delta: int = if now > self.last_refill {
            now - self.last_refill
        } else {
            0
        };
        let gained: int = delta * self.rate;
        if self.nanotokens + gained > self.cap_nanos() {
            self.cap_nanos()
        } else {
            self.nanotokens + gained
        }
    }

    /// An admission check at time `now` succeeds exactly when a whole token
    /// is available after refill.
    pub open spec fn spec_admit(self, now: u64) -> bool {
        self.spec_refilled(now) >= NANOS_PER_TOKEN
    }

    /// The bucket state an admission check at time `now` leaves behind:
    /// refilled, stamped, and one token poorer when the check succeeded.
    pub open spec fn spec_check(self, now: u64) -> TokenBucket {
        let filled = self.spec_refilled(now);
        let stamped = TokenBucket {
            nanotokens: if filled >= NANOS_PER_TOKEN {
                (filled - NANOS_PER_TOKEN) as u64
            } else {
                filled as u64
            },
            last_refill: if now > self.last_refill {
                now
            } else {
                self.last_refill
            },
            ..self
        };
        stamped
    }

    /// A fresh bucket starts full.
    pub fn new(capacity: u32, rate: u32, now: u64) -> (b: TokenBucket)
        ensures
            b.wf(),
            b.capacity == capacity,
            b.rate == rate,
            b.last_refill == now,
            b.nanotokens == b.cap_nanos(),
    {
        let nanotokens: u64 = (capacity as u64) * NANOS_PER_TOKEN;
        TokenBucket { capacity, rate, nanotokens, last_refill: now }
    }

    /// Atomically refill and try to consume one token. Never blocks: the
    /// result says whether this caller was admitted.
    pub fn check(&mut self, now: u64) -> (admitted: bool)
        requires
            old(self).wf(),
        ensures
            final(self).wf(),
            admitted == old(self).spec_admit(now),
            *final(self) == old(self).spec_check(now),
    {
        let delta: u64 = if now > self.last_refill {
            now - self.last_refill
        } else {
            0
        };
        proof {
            assert((delta as int) * (self.rate as int) <= 0xffff_ffff_ffff_ffff * 0xffff_ffff)
                by (nonlinear_arith)
                requires
                    delta <= 0xffff_ffff_ffff_ffff,
                    self.rate <= 0xffff_ffff,
            ;
        }
        let gained: u128 = (delta as u128) * (self.rate as u128);
        let cap: u128 = (self.capacity as u128) * (NANOS_PER_TOKEN as u128);
        let sum: u128 = (self.nanotokens as u128) + gained;
        let filled: u128 = if sum > cap {
            cap
        } else {
            sum
        };
        proof {
            assert(filled == self.spec_refilled(now));
            assert(filled <= self.cap_nanos());
        }
        self.nanotokens = filled as u64;
        if now > self.last_refill {
            self.last_refill = now;
        }
        if self.nanotokens >= NANOS_PER_TOKEN {
            self.nanotokens = self.nanotokens - NANOS_PER_TOKEN;
            true
        } else {
            false
        }
    }
}

/// State and admission tally after `n` back-to-back checks against one
/// bucket, all at the same instant `now`: how a burst behaves.
pub open spec fn burst_checks(b: TokenBucket, now: u64, n: nat) -> (TokenBucket, nat)
    decreases n,
{
    if n == 0 {
        (b, 0)
    } else {
        let (b1, k) = burst_checks(b, now, (n - 1) as nat);
        if b1.spec_admit(now) {
            (b1.spec_check(now), k + 1)
        } else {
            (b1.spec_check(now), k)
        }
    }
}

proof fn lemma_burst_step(b: TokenBucket, now: u64, m: nat, n: nat)
    requires
        b.wf(),
        b.last_refill >= now,
        b.nanotokens == m * NANOS_PER_TOKEN,
        m <= b.capacity,
    ensures
        burst_checks(b, now, n).1 == if n <= m {
            n as int
        } else {
            m as int
        },
        burst_checks(b, now, n).0.wf(),
        burst_checks(b, now, n).0.last_refill >= now,
        burst_checks(b, now, n).0.nanotokens == if n <= m {
            (m - n) * NANOS_PER_TOKEN
        } else {
            0
        },
    decreases n,
{
    if n > 0 {
        lemma_burst_step(b, now, m, (n - 1) as nat);
        let (b1, k) = burst_checks(b, now, (n - 1) as nat);
        assert(b1.spec_refilled(now) == b1.nanotokens);
        if n - 1 < m {
            assert(b1.nanotokens == (m - (n - 1)) * NANOS_PER_TOKEN);
            assert((m - (n - 1)) * NANOS_PER_TOKEN >= 1 * NANOS_PER_TOKEN) by (nonlinear_arith)
                requires
                    m - (n - 1) >= 1,
            ;
            assert(b1.spec_admit(now));
            assert((m - (n - 1)) * NANOS_PER_TOKEN - NANOS_PER_TOKEN == (m - n) * NANOS_PER_TOKEN)
                by (nonlinear_arith);
        } else {
            assert(b1.nanotokens == 0);
            assert(!b1.spec_admit(now));
        }
    }
}

/// A full bucket of capacity `C`, hit by a burst of checks within one
/// instant, admits exactly `min(n, C)` of the first `n` callers: `C` straight
/// admissions, then nothing but denials until time passes.
pub proof fn lemma_burst_admits_exactly_capacity(b: TokenBucket, now: u64, n: nat)
    requires
        b.wf(),
        b.last_refill >= now,
        b.nanotokens == b.capacity * NANOS_PER_TOKEN,
    ensures
        burst_checks(b, now, n).1 == if n <= b.capacity {
            n as int
        } else {
            b.capacity as int
        },
{
    lemma_burst_step(b, now, b.capacity as nat, n);
}

/// State and admission tally after a run of checks at the given clock
/// readings, in order: how any traffic, bursty or spread out, drains the
/// bucket.
pub open spec fn timed_checks(b: TokenBucket, times: Seq<u64>) -> (TokenBucket, nat)
    decreases times.len(),
{
    if times.len() == 0 {
        (b, 0)
    } else {
        let (b1, k) = timed_checks(b, times.drop_last());
        if b1.spec_admit(times.last()) {
            (b1.spec_check(times.last()), k + 1)
        } else {
            (b1.spec_check(times.last()), k)
        }
    }
}

proof fn lemma_timed_checks_budget(b: TokenBucket, times: Seq<u64>)
    requires
        b.wf(),
    ensures
        timed_checks(b, times).0.wf(),
        timed_checks(b, times).0.capacity == b.capacity,
        timed_checks(b, times).0.rate == b.rate,
        timed_checks(b, times).0.last_refill >= b.last_refill,
        timed_checks(b, times).1 * NANOS_PER_TOKEN + timed_checks(b, times).0.nanotokens
            <= b.nanotokens + (timed_checks(b, times).0.last_refill - b.last_refill) * b.rate,
    decreases times.len(),
{
    if times.len() > 0 {
        lemma_timed_checks_budget(b, times.drop_last());
        let (b1, k) = timed_checks(b, times.drop_last());
        let t = times.last();
        let delta: int = if t > b1.last_refill {
            t - b1.last_refill
        } else {
            0
        };
        assert(b1.spec_refilled(t) <= b1.nanotokens + delta * b1.rate);
        assert((k + delta) * b.rate == k * b.rate + delta * b.rate) by (nonlinear_arith);
        assert(((b1.last_refill - b.last_refill) + delta) * b.rate == (b1.last_refill
            - b.last_refill) * b.rate + delta * b.rate) by (nonlinear_arith);
    }
}

/// The sustained half of the bucket's guarantee: over any run of admission
/// checks whose clock readings stay at or below `t_end`, the admissions
/// number at most the tokens held at the start plus what refills by `t_end`
/// — so after the initial burst of at most `capacity`, throughput is held to
/// `rate` tokens per elapsed second, whatever the traffic looks like.
pub proof fn lemma_sustained_rate(b: TokenBucket, times: Seq<u64>, t_end: u64)
    requires
        b.wf(),
        b.last_refill <= t_end,
        forall|i: int| 0 <= i < times.len() ==> #[trigger] times[i] <= t_end,
    ensures
        timed_checks(b, times).1 * NANOS_PER_TOKEN <= b.nanotokens + (t_end - b.last_refill)
            * b.rate,
{
    lemma_timed_checks_budget(b, times);
    let fin = timed_checks(b, times).0;
    assert(fin.last_refill <= t_end) by {
        lemma_timed_checks_last_refill(b, times, t_end);
    }
    assert((fin.last_refill - b.last_refill) * b.rate <= (t_end - b.last_refill) * b.rate)
        by (nonlinear_arith)
        requires
            fin.last_refill <= t_end,
            b.last_refill <= fin.last_refill,
    ;
}

proof fn lemma_timed_checks_last_refill(b: TokenBucket, times: Seq<u64>, t_end: u64)
    requires
        b.last_refill <= t_end,
        forall|i: int| 0 <= i < times.len() ==> #[trigger] times[i] <= t_end,
    ensures
        timed_checks(b, times).0.last_refill <= t_end,
    decreases times.len(),
{
    if times.len() > 0 {
        assert(forall|i: int|
            0 <= i < times.len() - 1 ==> #[trigger] times.drop_last()[i] == times[i]);
        lemma_timed_checks_last_refill(b, times.drop_last(), t_end);
        assert(times.last() <= t_end);
    }
}

/// Per-worker share of the global tier's rate, in tokens per second.
pub const GLOBAL_RATE_PER_WORKER: u32 = 200;

/// Rate, and matching burst capacity, of the common and hard tiers, in
/// tokens per second.
pub const ROUTE_TIER_RATE: u32 = 100;

/// The global tier scales with the worker pool: its rate and burst capacity
/// are one worker's share times the pool size.
pub fn global_rate(worker_count: u32) -> (r: u32)
    requires
        GLOBAL_RATE_PER_WORKER * worker_count <= u32::MAX,
    ensures
        r == GLOBAL_RATE_PER_WORKER * worker_count,
{
    GLOBAL_RATE_PER_WORKER * worker_count
}

/// What the per-connection task does about global admission: proceed with the
/// request, or sleep and ask again. Denial at the global tier is never final
/// — there is deliberately no rejected outcome.
#[derive(Debug, PartialEq, Eq, Structural)]
pub enum GlobalAdmission {
    Proceed,
    RetryAfterMillis(u64),
}

/// Delay before re-asking the global limiter, in milliseconds.
pub const GLOBAL_RETRY_MILLIS: u64 = 10;

/// One round of the global admission loop: check the global bucket at time
/// `now`; if denied, the caller is told to wait and retry, never to reject
/// the connection.
pub fn global_admission_step(bucket: &mut TokenBucket, now: u64) -> (r: GlobalAdmission)
    requires
        old(bucket).wf(),
    ensures
        final(bucket).wf(),
        *final(bucket) == old(bucket).spec_check(now),
        r == if old(bucket).spec_admit(now) {
            GlobalAdmission::Proceed
        } else {
            GlobalAdmission::RetryAfterMillis(GLOBAL_RETRY_MILLIS)
        },
{
    if bucket.check(now) {
        GlobalAdmission::Proceed
    } else {
        GlobalAdmission::RetryAfterMillis(GLOBAL_RETRY_MILLIS)
    }
}

/// A denied caller that keeps retrying is eventually admitted: as long as the
/// bucket refills at all, some later clock reading admits. Denial at the
/// global tier can therefore never be permanent.
pub proof fn lemma_retry_eventually_admitted(b: TokenBucket, now: u64)
    requires
        b.wf(),
        b.capacity >= 1,
        b.rate >= 1,
        b.last_refill <= now,
        now <= u64::MAX - NANOS_PER_TOKEN,
    ensures
        exists|later: u64| now <= later && #[trigger] b.spec_admit(later),
{
    let later: u64 = (now + NANOS_PER_TOKEN) as u64;
    let delta: int = later - b.last_refill;
    assert(delta >= NANOS_PER_TOKEN);
    assert(delta * b.rate >= delta * 1) by (nonlinear_arith)
        requires
            b.rate >= 1,
            delta >= 0,
    ;
    assert(b.cap_nanos() >= 1 * NANOS_PER_TOKEN) by (nonlinear_arith)
        requires
            b.capacity >= 1,
    ;
    assert(b.spec_refilled(later) >= NANOS_PER_TOKEN);
    assert(b.spec_admit(later));
}

} // verus!
