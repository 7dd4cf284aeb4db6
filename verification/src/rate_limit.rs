//! Token-bucket rate limiting of the requests to OpenGrok, by the
//! `governor` crate's implementation of the Generic Cell Rate Algorithm.
//! Waiting for a token is the caller's part.

use vstd::prelude::*;

use governor::clock::{Clock, QuantaClock, QuantaInstant};
use governor::middleware::NoOpMiddleware;
use governor::state::{InMemoryState, NotKeyed};
use governor::{Quota, RateLimiter};
use std::num::NonZeroU32;
use std::sync::Arc;

verus! {

/// The limiter state: one bucket, in memory, on the default clock.
pub type Limiter = RateLimiter<NotKeyed, InMemoryState, QuantaClock, NoOpMiddleware<QuantaInstant>>;

/// A shared `governor` limiter. Verus cannot declare `RateLimiter`, whose
/// generics are bounded by `governor`'s own traits, so the limiter is held
/// in this opaque struct and reached only through the two functions below.
#[verifier::external_body]
#[derive(Debug)]
pub struct SharedLimiter {
    inner: Limiter,
}

/// The quota a limiter was made with: cells per second and burst size.
pub uninterp spec fn limiter_quota(l: SharedLimiter) -> (u32, u32);

/// Creates a limiter that lets `per_second` cells through per second with
/// bursts of `burst` (`Quota::per_second(..).allow_burst(..)` and
/// `RateLimiter::direct`). Claimed: the limiter's quota is the pair it was
/// given. Nothing is stated of the state it starts in.
#[verifier::external_body]
fn limiter_new(per_second: u32, burst: u32) -> (l: Arc<SharedLimiter>)
    requires
        per_second > 0,
        burst > 0,
    ensures
        limiter_quota(*l) == (per_second, burst),
{
    let quota = Quota::per_second(NonZeroU32::new(per_second).unwrap()).allow_burst(NonZeroU32::new(burst).unwrap());
    Arc::new(SharedLimiter { inner: RateLimiter::direct(quota) })
}

/// Takes a cell if one is available now (`RateLimiter::check`); when none
/// is, gives the time until the earliest one (`NotUntil::wait_time_from`
/// the limiter clock's present). Depends on the clock and on earlier
/// calls: nothing is stated of the answer.
#[verifier::external_body]
fn limiter_try(l: &SharedLimiter) -> Option<std::time::Duration> {
    match l.inner.check() {
        Ok(()) => None,
        Err(not_until) => Some(not_until.wait_time_from(l.inner.clock().now())),
    }
}

/// A concurrent token-bucket rate limiter; clones share one bucket.
#[derive(Debug, Clone)]
pub struct TokenBucket {
    limiter: Arc<SharedLimiter>,
    rate: u32,
    burst: u32,
}

impl TokenBucket {
    /// The sustained rate in requests per second.
    pub closed spec fn rate(&self) -> u32 {
        self.rate
    }

    /// The burst size.
    pub closed spec fn burst_size(&self) -> u32 {
        self.burst
    }

    /// The quota the shared limiter enforces: rate and burst.
    pub closed spec fn quota(&self) -> (u32, u32) {
        limiter_quota(*self.limiter)
    }

    /// A bucket with the given sustained rate and burst size, both at
    /// least 1, whose limiter enforces exactly that quota.
    pub fn new(requests_per_second: u32, burst: u32) -> (b: Self)
        requires
            requests_per_second > 0,
            burst > 0,
        ensures
            b.rate() == requests_per_second,
            b.burst_size() == burst,
            b.quota() == (b.rate(), b.burst_size()),
    {
        TokenBucket { limiter: limiter_new(requests_per_second, burst), rate: requests_per_second, burst }
    }

    /// Takes a token if one is available right now.
    pub fn check(&self) -> bool {
        limiter_try(&*self.limiter).is_none()
    }

    /// Takes a token if one is available right now (`None`); otherwise
    /// gives the time to wait before trying again. Waiting that long and
    /// trying again until a token is taken is what acquiring a token means.
    pub fn try_acquire(&self) -> Option<std::time::Duration> {
        limiter_try(&*self.limiter)
    }
}

} // verus!
