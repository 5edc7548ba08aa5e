//! Token-bucket rate limiter.
//!
//! Each acquisition tries to consume one token. Tokens are refilled in
//! proportion to the time elapsed since the last refill; the bucket holds
//! twice the sustained rate, which allows short bursts while still enforcing
//! the average. Rates are in thousandths of a request per second and tokens in
//! millionths of a token, so the arithmetic is exact. Time is a monotonic
//! clock reading in microseconds, supplied by the caller.

use crate::error::{Result, WeirError};
use vstd::prelude::*;
use vstd::string::*;

verus! {

/// One token, in millionths of a token.
pub const TOKEN: u128 = 1_000_000;

/// Bucket capacity for a rate: twice the requests per second, in millionths.
pub open spec fn capacity(rate_millirps: u64) -> u128 {
    (rate_millirps * 2000) as u128
}

/// Tokens (in millionths) earned over `elapsed_us` at `rate_millirps`.
pub open spec fn refill_amount(elapsed_us: u64, rate_millirps: u64) -> u128 {
    ((elapsed_us * rate_millirps) / 1000) as u128
}

/// Bucket level and last refill time after refilling at `now_us`. When
/// nothing was earned yet, the level and the last refill time stay as they are.
pub open spec fn refilled(tokens: u128, rate_millirps: u64, last_us: u64, now_us: u64) -> (u128, u64) {
    let elapsed: u64 = if now_us > last_us { (now_us - last_us) as u64 } else { 0 };
    let refill = refill_amount(elapsed, rate_millirps);
    if refill > 0 {
        let sum = tokens + refill;
        (if sum < capacity(rate_millirps) { sum as u128 } else { capacity(rate_millirps) }, now_us)
    } else {
        (tokens, last_us)
    }
}

/// Whether `l` grants a token at `now_us`.
pub open spec fn grants(l: RateLimiter, now_us: u64) -> bool {
    refilled(l.tokens(), l.rate(), l.last_refill(), now_us).0 >= TOKEN
}

/// `after` is `before` once an acquisition at `now_us` was tried.
pub open spec fn acquired(before: RateLimiter, now_us: u64, after: RateLimiter) -> bool {
    let (level, last) = refilled(before.tokens(), before.rate(), before.last_refill(), now_us);
    &&& after.wf()
    &&& after.rate() == before.rate()
    &&& after.last_refill() == last
    &&& after.tokens() == (if level >= TOKEN { (level - TOKEN) as u128 } else { level })
}

/// "rate limit exceeded — try again"
pub open spec fn throttle_text() -> Seq<char> {
    "rate limit exceeded — try again"@
}

/// A token bucket for one backend.
pub struct RateLimiter {
    tokens: u128,
    rate_millirps: u64,
    last_refill_us: u64,
}

impl RateLimiter {
    /// Tokens in the bucket, in millionths.
    pub closed spec fn tokens(&self) -> u128 {
        self.tokens
    }

    /// Sustained rate, in thousandths of a request per second.
    pub closed spec fn rate(&self) -> u64 {
        self.rate_millirps
    }

    /// Clock reading of the last refill.
    pub closed spec fn last_refill(&self) -> u64 {
        self.last_refill_us
    }

    /// The bucket never holds more than its capacity.
    pub open spec fn wf(&self) -> bool {
        self.tokens() <= capacity(self.rate())
    }

    /// A full bucket for `rate_millirps`, its clock starting at `now_us`.
    pub fn new(rate_millirps: u64, now_us: u64) -> (rl: RateLimiter)
        ensures
            rl.wf(),
            rl.rate() == rate_millirps,
            rl.tokens() == capacity(rate_millirps),
            rl.last_refill() == now_us,
    {
        RateLimiter { tokens: (rate_millirps as u128) * 2000, rate_millirps, last_refill_us: now_us }
    }

    /// Tries to take one token at `now_us`, after refilling for the time
    /// elapsed. Fails with `RateLimited` when less than a whole token is left.
    pub fn acquire(&mut self, now_us: u64) -> (r: Result<()>)
        requires
            old(self).wf(),
        ensures
            acquired(*old(self), now_us, *final(self)),
            grants(*old(self), now_us) ==> r is Ok,
            !grants(*old(self), now_us) ==> (r matches Err(WeirError::RateLimited(m)) && m@ == throttle_text()),
    {
        let elapsed: u64 = if now_us > self.last_refill_us {
            now_us - self.last_refill_us
        } else {
            0
        };
        let cap: u128 = (self.rate_millirps as u128) * 2000;
        let e: u128 = elapsed as u128;
        let rate: u128 = self.rate_millirps as u128;
        assert(e * rate <= u64::MAX * u64::MAX) by (nonlinear_arith)
            requires
                e <= u64::MAX,
                rate <= u64::MAX,
        ;
        let refill: u128 = (elapsed as u128) * (self.rate_millirps as u128) / 1000;
        assert(refill == refill_amount(elapsed, self.rate_millirps)) by (nonlinear_arith)
            requires
                refill == (elapsed as u128) * (self.rate_millirps as u128) / 1000,
        ;
        if refill > 0 {
            let sum: u128 = self.tokens + refill;
            self.tokens = if sum < cap {
                sum
            } else {
                cap
            };
            self.last_refill_us = now_us;
        }
        if self.tokens >= TOKEN {
            self.tokens = self.tokens - TOKEN;
            Ok(())
        } else {
            Err(WeirError::RateLimited(String::from_str("rate limit exceeded — try again")))
        }
    }
}

/// Bucket level after `k` acquisitions at one instant, from a level of `tokens`.
pub open spec fn level_after(tokens: u128, k: nat) -> u128
    decreases k,
{
    if k == 0 {
        tokens
    } else {
        let prev = level_after(tokens, (k - 1) as nat);
        if prev >= TOKEN {
            (prev - TOKEN) as u128
        } else {
            prev
        }
    }
}

/// With no time passing, a bucket holding `tokens` grants exactly its whole
/// tokens: the first `tokens / TOKEN` acquisitions are each granted and take
/// one token, and every later one is refused.
pub proof fn law_burst_grants_whole_tokens(tokens: u128, k: nat)
    ensures
        k <= tokens / TOKEN ==> level_after(tokens, k) == tokens - k * TOKEN,
        k >= tokens / TOKEN ==> level_after(tokens, k) == tokens % TOKEN,
    decreases k,
{
    if k > 0 {
        law_burst_grants_whole_tokens(tokens, (k - 1) as nat);
        assert((tokens / TOKEN) * TOKEN + tokens % TOKEN == tokens) by (nonlinear_arith);
        assert(tokens % TOKEN < TOKEN) by (nonlinear_arith);
        if k <= tokens / TOKEN {
            assert((k - 1) * TOKEN + TOKEN == k * TOKEN) by (nonlinear_arith);
            assert(k * TOKEN <= (tokens / TOKEN) * TOKEN) by (nonlinear_arith)
                requires
                    k <= tokens / TOKEN,
            ;
        } else if k - 1 == tokens / TOKEN {
            assert((k - 1) * TOKEN == (tokens / TOKEN) * TOKEN);
        }
    }
}

} // verus!
