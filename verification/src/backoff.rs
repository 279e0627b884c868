//! Bounded exponential backoff with jitter.
//!
//! The wait before reconnect attempt `n` (counting from zero) starts from
//! `min(cap, base * 2^n)`. Jitter adds at most that much again, and the sum is
//! capped once more. Waits therefore never shrink from one attempt to the next.

use vstd::arithmetic::power2::{lemma2_to64, lemma_pow2_pos, lemma_pow2_strictly_increases, lemma_pow2_unfold, pow2};
use vstd::prelude::*;

verus! {

/// The attempt number from which every wait equals the cap. Attempt counters
/// stop here.
pub const MAX_ATTEMPT: u32 = 64;

/// The attempt number that follows `attempt`.
pub open spec fn next_attempt(attempt: u32) -> u32 {
    if attempt < MAX_ATTEMPT {
        (attempt + 1) as u32
    } else {
        MAX_ATTEMPT
    }
}

/// A backoff policy, in milliseconds.
#[derive(Clone, Copy, Debug, PartialEq, Eq, Structural)]
pub struct Backoff {
    pub base_ms: u64,
    pub cap_ms: u64,
}

impl Backoff {
    /// A policy is valid when its first wait is positive and within the cap.
    pub open spec fn wf(self) -> bool {
        1 <= self.base_ms <= self.cap_ms
    }

    /// The wait before attempt `attempt`, without jitter.
    pub open spec fn plain_delay(self, attempt: nat) -> nat {
        let raw = self.base_ms as nat * pow2(attempt);
        if raw < self.cap_ms {
            raw
        } else {
            self.cap_ms as nat
        }
    }

    /// The wait before attempt `attempt`, with `jitter` as the source of spread.
    pub open spec fn delay_of(self, attempt: nat, jitter: u64) -> nat {
        let plain = self.plain_delay(attempt);
        let spread = plain + (jitter as nat) % (plain + 1);
        if spread < self.cap_ms {
            spread
        } else {
            self.cap_ms as nat
        }
    }

    /// Builds a policy; `None` unless `1 <= base_ms <= cap_ms`.
    pub fn new(base_ms: u64, cap_ms: u64) -> (b: Option<Backoff>)
        ensures
            b is Some <==> 1 <= base_ms <= cap_ms,
            b is Some ==> b.unwrap() == (Backoff { base_ms, cap_ms }) && b.unwrap().wf(),
    {
        if base_ms >= 1 && base_ms <= cap_ms {
            Some(Backoff { base_ms, cap_ms })
        } else {
            None
        }
    }

    /// Whether the policy is valid.
    pub fn is_valid(&self) -> (b: bool)
        ensures
            b == self.wf(),
    {
        1 <= self.base_ms && self.base_ms <= self.cap_ms
    }

    /// Half a second at first, thirty seconds at most.
    pub fn standard() -> (b: Backoff)
        ensures
            b == (Backoff { base_ms: 500, cap_ms: 30_000 }),
            b.wf(),
    {
        Backoff { base_ms: 500, cap_ms: 30_000 }
    }

    /// The wait before attempt `attempt`, without jitter.
    pub fn plain(&self, attempt: u32) -> (d: u64)
        requires
            self.wf(),
        ensures
            d == self.plain_delay(attempt as nat),
            self.base_ms <= d <= self.cap_ms,
    {
        let mut cur: u64 = self.base_ms;
        let mut i: u32 = 0;
        proof {
            lemma2_to64();
            assert(self.base_ms as nat * 1 == self.base_ms as nat);
        }
        while i < attempt && cur < self.cap_ms
            invariant
                self.wf(),
                i <= attempt,
                cur == self.plain_delay(i as nat),
                self.base_ms <= cur <= self.cap_ms,
            decreases attempt - i,
        {
            proof {
                lemma_plain_step(*self, i as nat);
            }
            if cur > self.cap_ms - cur {
                cur = self.cap_ms;
            } else {
                cur = cur + cur;
            }
            i = i + 1;
        }
        proof {
            lemma_plain_monotone(*self, i as nat, attempt as nat);
            lemma_plain_bounds(*self, attempt as nat);
        }
        cur
    }

    /// The wait before attempt `attempt`: the plain wait, plus up to as much
    /// again as picked by `jitter`, capped.
    pub fn delay(&self, attempt: u32, jitter: u64) -> (d: u64)
        requires
            self.wf(),
        ensures
            d == self.delay_of(attempt as nat, jitter),
            self.base_ms <= d <= self.cap_ms,
    {
        let plain: u64 = self.plain(attempt);
        let extra: u64 = if plain == u64::MAX {
            jitter
        } else {
            jitter % (plain + 1)
        };
        proof {
            if plain == u64::MAX {
                assert(self.cap_ms == u64::MAX);
            }
        }
        if extra >= self.cap_ms - plain {
            self.cap_ms
        } else {
            plain + extra
        }
    }
}

/// The plain wait is at least the base and at most the cap.
pub proof fn lemma_plain_bounds(b: Backoff, attempt: nat)
    requires
        b.wf(),
    ensures
        b.base_ms <= b.plain_delay(attempt) <= b.cap_ms,
{
    lemma_pow2_pos(attempt);
    assert(b.base_ms as nat * pow2(attempt) >= b.base_ms as nat) by (nonlinear_arith)
        requires
            pow2(attempt) >= 1,
    ;
}

/// One more attempt doubles the plain wait, up to the cap.
pub proof fn lemma_plain_step(b: Backoff, attempt: nat)
    requires
        b.wf(),
    ensures
        b.plain_delay(attempt + 1) == if 2 * b.plain_delay(attempt) < b.cap_ms {
            2 * b.plain_delay(attempt)
        } else {
            b.cap_ms as nat
        },
{
    lemma_pow2_unfold(attempt + 1);
    let p = pow2(attempt);
    let base = b.base_ms as nat;
    assert(pow2(attempt + 1) == 2 * p);
    assert(base * (2 * p) == 2 * (base * p)) by (nonlinear_arith);
}

/// The plain wait never shrinks as attempts go on.
pub proof fn lemma_plain_monotone(b: Backoff, earlier: nat, later: nat)
    requires
        b.wf(),
        earlier <= later,
    ensures
        b.plain_delay(earlier) <= b.plain_delay(later),
{
    if earlier < later {
        lemma_pow2_strictly_increases(earlier, later);
        let p = pow2(earlier);
        let q = pow2(later);
        let base = b.base_ms as nat;
        assert(base * p <= base * q) by (nonlinear_arith)
            requires
                p < q,
        ;
    }
}

/// Every wait lies between the plain wait of its attempt and the cap.
pub proof fn lemma_delay_capped(b: Backoff, attempt: nat, jitter: u64)
    requires
        b.wf(),
    ensures
        b.base_ms <= b.plain_delay(attempt) <= b.delay_of(attempt, jitter) <= b.cap_ms,
        b.delay_of(attempt, jitter) <= 2 * b.plain_delay(attempt),
{
    lemma_plain_bounds(b, attempt);
    let plain = b.plain_delay(attempt);
    assert((jitter as nat) % (plain + 1) <= plain) by (nonlinear_arith)
        requires
            plain >= 0,
    ;
}

/// A later attempt never waits less than an earlier one, whatever the jitter
/// of either.
pub proof fn lemma_delay_non_decreasing(b: Backoff, earlier: nat, later: nat, j1: u64, j2: u64)
    requires
        b.wf(),
        earlier < later,
    ensures
        b.delay_of(earlier, j1) <= b.delay_of(later, j2),
{
    lemma_delay_capped(b, earlier, j1);
    lemma_delay_capped(b, later, j2);
    lemma_plain_step(b, earlier);
    lemma_plain_monotone(b, earlier + 1, later);
}

/// From attempt `MAX_ATTEMPT` on, every wait is exactly the cap.
pub proof fn lemma_delay_saturates(b: Backoff, attempt: nat, jitter: u64)
    requires
        b.wf(),
        attempt >= MAX_ATTEMPT,
    ensures
        b.plain_delay(attempt) == b.cap_ms,
        b.delay_of(attempt, jitter) == b.cap_ms,
{
    lemma2_to64();
    if attempt > 64 {
        lemma_pow2_strictly_increases(64, attempt);
    }
    let p = pow2(attempt);
    let base = b.base_ms as nat;
    assert(base * p >= p) by (nonlinear_arith)
        requires
            base >= 1,
    ;
    lemma_delay_capped(b, attempt, jitter);
}

/// Waits along a run of consecutive failures never shrink: the wait chosen
/// after one more failure is at least the wait chosen now, whatever the jitter.
pub proof fn lemma_backoff_never_shrinks(b: Backoff, attempt: u32, j1: u64, j2: u64)
    requires
        b.wf(),
        attempt <= MAX_ATTEMPT,
    ensures
        b.delay_of(attempt as nat, j1) <= b.delay_of(next_attempt(attempt) as nat, j2) <= b.cap_ms,
{
    if attempt < MAX_ATTEMPT {
        lemma_delay_non_decreasing(b, attempt as nat, (attempt + 1) as nat, j1, j2);
    } else {
        lemma_delay_saturates(b, attempt as nat, j1);
        lemma_delay_saturates(b, attempt as nat, j2);
    }
    lemma_delay_capped(b, next_attempt(attempt) as nat, j2);
}

} // verus!
