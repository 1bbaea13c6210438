use leaky_bucket::RateLimiter;
use std::sync::Arc;
use std::time::Duration;
use vstd::prelude::*;

verus! {

#[verifier::external_type_specification]
#[verifier::external_body]
pub struct ExRateLimiter(RateLimiter);

/// Refill pacing is expressed on a millisecond grid.
pub const MILLIS_PER_SEC: u64 = 1000;

/// The parameters of the token bucket that paces writes at a target rate.
#[derive(Debug, Clone, Copy, PartialEq, Eq)]
pub struct LimiterSettings {
    /// Tokens in the bucket when the run starts.
    pub initial: usize,
    /// Capacity of the bucket: the largest burst it admits.
    pub max: usize,
    /// Milliseconds between two refills.
    pub interval_ms: u64,
    /// Tokens added at each refill.
    pub refill: usize,
}

/// Refill ticks are made long enough that each one adds at least this many
/// tokens, so that rounding a tick down loses under one percent of the rate.
pub const MIN_TICK_TOKENS: u64 = 100;

/// Milliseconds between two refills of the bucket for `rate`: the shortest
/// interval that lets a tick carry `MIN_TICK_TOKENS` tokens, and one second
/// for rates below that.
pub open spec fn tick_ms(rate: int) -> int {
    if rate >= MIN_TICK_TOKENS {
        (MIN_TICK_TOKENS * MILLIS_PER_SEC + rate - 1) / rate
    } else {
        MILLIS_PER_SEC as int
    }
}

/// The bucket for `rate` operations per second: it starts full and holds at
/// most one second's worth of tokens; every `tick_ms(rate)` milliseconds it
/// gets the tokens that the rate allows for that interval, rounded down.
pub open spec fn settings_spec(rate: int) -> LimiterSettings {
    LimiterSettings {
        initial: rate as usize,
        max: rate as usize,
        interval_ms: tick_ms(rate) as u64,
        refill: (rate * tick_ms(rate) / MILLIS_PER_SEC as int) as usize,
    }
}

/// Most tokens a bucket with settings `s` can hand out within a window of
/// `window_ms` milliseconds: a full bucket plus every refill tick that can fall
/// in the window, which is one more than the whole intervals it spans.
pub open spec fn admission_bound(s: LimiterSettings, window_ms: int) -> int {
    s.max + s.refill * (window_ms / s.interval_ms as int + 1)
}

pub fn limiter_settings(rate: u32) -> (r: LimiterSettings)
    requires
        rate > 0,
    ensures
        r == settings_spec(rate as int),
        0 < r.interval_ms <= MILLIS_PER_SEC,
        r.refill > 0,
        // The refill pace never exceeds the rate ...
        r.refill * MILLIS_PER_SEC <= rate * r.interval_ms,
        // ... and falls short of it by under one percent.
        r.refill * MILLIS_PER_SEC * 100 >= 99 * rate * r.interval_ms,
{
    let wide: u64 = rate as u64;
    let interval: u64 = if wide >= MIN_TICK_TOKENS {
        (MIN_TICK_TOKENS * MILLIS_PER_SEC + wide - 1) / wide
    } else {
        MILLIS_PER_SEC
    };
    proof {
        if wide >= 100 {
            assert(1 <= interval <= 1000 && wide * interval >= 100000) by (nonlinear_arith)
                requires interval as int == (100000 + wide as int - 1) / (wide as int), wide >= 100;
        }
    }
    assert(wide * interval <= 1000 * 0xffff_ffff) by (nonlinear_arith)
        requires wide <= 0xffff_ffff, interval <= 1000;
    let refill: u64 = wide * interval / MILLIS_PER_SEC;
    proof {
        let w = wide as int;
        let i = interval as int;
        let f = refill as int;
        assert(f * 1000 <= w * i && f * 1000 > w * i - 1000) by (nonlinear_arith)
            requires f == (w * i) / 1000;
        if wide >= 100 {
            assert(f * 1000 * 100 >= 99 * w * i) by (nonlinear_arith)
                requires f * 1000 > w * i - 1000, w * i >= 100000;
            assert(f >= 1) by (nonlinear_arith)
                requires f * 1000 > w * i - 1000, w * i >= 100000;
        } else {
            assert(f == w);
        }
        assert(f <= w) by (nonlinear_arith)
            requires f * 1000 <= w * i, i <= 1000, w >= 0, i >= 0;
    }
    LimiterSettings {
        initial: rate as usize,
        max: rate as usize,
        interval_ms: interval,
        refill: refill as usize,
    }
}

/// Relies on leaky_bucket's `RateLimiter::builder` and the `Builder` steps
/// `initial`, `max`, `interval`, `refill` and `build`, which take the four
/// settings as given. `interval` panics on a zero duration and `refill` on a
/// zero amount, which `requires` rules out. Nothing is stated of the limiter
/// itself: it is opaque here.
#[verifier::external_body]
fn build_limiter(s: LimiterSettings) -> (r: RateLimiter)
    requires
        s.interval_ms > 0,
        s.refill > 0,
{
    RateLimiter::builder()
        .initial(s.initial)
        .max(s.max)
        .interval(Duration::from_millis(s.interval_ms))
        .refill(s.refill)
        .build()
}

/// Relies on `Arc::clone`: another pointer to the same allocation.
#[verifier::external_body]
fn clone_arc(a: &Arc<RateLimiter>) -> (r: Arc<RateLimiter>)
    ensures
        r == *a,
{
    Arc::clone(a)
}

/// A token bucket together with the settings it was built with. Clones made
/// by `share` point to the same bucket.
pub struct SharedLimiter {
    settings: LimiterSettings,
    limiter: Arc<RateLimiter>,
}

impl SharedLimiter {
    /// The settings the bucket was built with.
    pub closed spec fn configured(&self) -> LimiterSettings {
        self.settings
    }

    pub fn settings(&self) -> (r: LimiterSettings)
        ensures
            r == self.configured(),
    {
        self.settings
    }

    pub fn limiter(&self) -> (r: &Arc<RateLimiter>) {
        &self.limiter
    }

    /// Another handle on the same bucket.
    pub fn share(&self) -> (r: SharedLimiter)
        ensures
            r == *self,
    {
        SharedLimiter { settings: self.settings, limiter: clone_arc(&self.limiter) }
    }
}

/// The rate limiter shared by all writer tasks of a run, built with
/// `limiter_settings` of the rate: none when no rate is configured, which
/// leaves the tasks unthrottled.
pub fn rate_limiter_for(write_rate: Option<u32>) -> (r: Option<SharedLimiter>)
    requires
        write_rate != Some(0u32),
    ensures
        r is Some == write_rate is Some,
        r matches Some(l) ==> l.configured() == settings_spec(write_rate->0 as int),
{
    match write_rate {
        Some(rate) => {
            let settings = limiter_settings(rate);
            Some(SharedLimiter { settings, limiter: Arc::new(build_limiter(settings)) })
        },
        None => None,
    }
}

/// Within any window of `window_ms` milliseconds, the bucket built for `rate`
/// admits at most one burst (`rate` tokens), plus `rate` tokens per second of
/// the window, plus one refill tick, itself at most `rate` tokens: over a
/// one-second window, about the rate plus the burst capacity.
pub proof fn lemma_admission_within_rate(rate: int, window_ms: int)
    requires
        0 < rate <= u32::MAX,
        window_ms >= 0,
    ensures
        admission_bound(settings_spec(rate), window_ms)
            <= rate + rate * window_ms / 1000 + settings_spec(rate).refill,
        settings_spec(rate).refill <= rate,
{
    let s = settings_spec(rate);
    let i = tick_ms(rate);
    if rate >= 100 {
        assert(1 <= i <= 1000) by (nonlinear_arith)
            requires i == (100000 + rate - 1) / rate, rate >= 100;
    }
    let f = rate * i / 1000;
    assert(f * 1000 <= rate * i && f >= 0) by (nonlinear_arith)
        requires f == (rate * i) / 1000, rate > 0, i >= 1;
    assert(f <= rate) by (nonlinear_arith)
        requires f * 1000 <= rate * i, i <= 1000, rate > 0;
    assert(rate * i <= 1000 * 0xffff_ffff) by (nonlinear_arith)
        requires rate <= 0xffff_ffff, 1 <= i <= 1000;
    assert(s.max as int == rate);
    assert(s.refill as int == f);
    assert(s.interval_ms as int == i);
    let k = window_ms / i;
    assert(k * i <= window_ms && k >= 0) by (nonlinear_arith)
        requires k == window_ms / i, i > 0, window_ms >= 0;
    assert(f * k * 1000 <= rate * window_ms) by (nonlinear_arith)
        requires f * 1000 <= rate * i, k * i <= window_ms, k >= 0, f >= 0, rate > 0;
    assert(f * k <= rate * window_ms / 1000) by (nonlinear_arith)
        requires f * k * 1000 <= rate * window_ms;
    assert(f * (k + 1) == f * k + f) by (nonlinear_arith);
}

} // verus!
