//! Admission control: one token bucket for the whole process, shared by all
//! requests and not keyed by client. The `governor` crate keeps the bucket.

use vstd::prelude::*;

verus! {

/// The process-wide rate limiter: a direct, in-memory `governor` rate
/// limiter on the crate's default clock. Its state is an atomic counter, so
/// a shared reference is all that concurrent requests need.
#[verifier::external_body]
pub struct Limiter {
    inner: governor::DefaultDirectRateLimiter,
}

/// The number of requests per minute, which is also the largest burst, that
/// the limiter's quota was made with.
pub uninterp spec fn limiter_capacity(limiter: Limiter) -> nat;

/// `governor::RateLimiter::direct` on `governor::Quota::per_minute`. Trusted:
/// the quota's burst size is the number given, which must not be zero.
#[verifier::external_body]
fn direct_per_minute(per_minute: u32) -> (limiter: Limiter)
    requires
        per_minute >= 1,
    ensures
        limiter_capacity(limiter) == per_minute,
{
    let cells = std::num::NonZeroU32::new(per_minute).unwrap();
    Limiter { inner: governor::RateLimiter::direct(governor::Quota::per_minute(cells)) }
}

/// `governor::RateLimiter::check`: takes one token if the bucket holds one.
/// The answer depends on the clock and on earlier calls, so nothing is
/// claimed of it.
#[verifier::external_body]
fn check(limiter: &Limiter) -> bool {
    limiter.inner.check().is_ok()
}

/// Requests per minute that a limiter admits where the configured limit is zero.
pub const FALLBACK_RATE_LIMIT: u32 = 60;

/// The limit a limiter is made with: the configured one, or the fallback where
/// that is zero.
pub open spec fn effective_rate_limit(rate_limit: u32) -> u32 {
    if rate_limit == 0 {
        FALLBACK_RATE_LIMIT
    } else {
        rate_limit
    }
}

impl Limiter {
    /// The limiter's capacity: requests per minute, and the largest burst.
    pub open spec fn capacity(self) -> nat {
        limiter_capacity(self)
    }

    /// A full limiter for the configured limit. A limit of zero would admit
    /// nothing, ever; the limiter then takes the fallback limit.
    pub fn new(rate_limit: u32) -> (limiter: Limiter)
        ensures
            limiter.capacity() == effective_rate_limit(rate_limit),
            limiter.capacity() >= 1,
    {
        if rate_limit == 0 {
            direct_per_minute(FALLBACK_RATE_LIMIT)
        } else {
            direct_per_minute(rate_limit)
        }
    }

    /// Asks for one token and takes it if there is one: `true` admits the
    /// request. The bucket refills with time, so the answer is the limiter's to
    /// give; what follows from either answer is decided elsewhere, for both.
    pub fn try_admit(&self) -> (admitted: bool) {
        check(self)
    }
}

} // verus!
