use crate::error::{is_retryable, Error};
use vstd::prelude::*;

verus! {

/// A span of time, counted in whole milliseconds.
#[derive(Debug, Clone, Copy, PartialEq, Eq, Structural)]
pub struct Duration {
    pub millis: u64,
}

impl Duration {
    pub fn from_millis(millis: u64) -> (r: Duration)
        ensures
            r.millis == millis,
    {
        Duration { millis }
    }

    pub fn from_secs(secs: u64) -> (r: Duration)
        requires
            secs * 1000 <= u64::MAX,
        ensures
            r.millis == secs * 1000,
    {
        Duration { millis: secs * 1000 }
    }

    pub fn as_millis(&self) -> (r: u64)
        ensures
            r == self.millis,
    {
        self.millis
    }
}

/// Whether a failure may be retried: transport failures and the end of the
/// response body may, malformed responses and payloads may not.
pub fn default_should_retry(error: &Error) -> (r: bool)
    ensures
        r == is_retryable(*error),
{
    match error {
        Error::Utf8(_)
        | Error::Parser(_)
        | Error::InvalidStatusCode(_)
        | Error::InvalidContentType(_)
        | Error::InvalidLastEventId(_) => false,
        Error::Transport(_) | Error::StreamEnded => true,
    }
}

/// The number of failed attempts recorded in a retry history (none when the
/// history is empty).
pub open spec fn attempts(last_retry: Option<(usize, Duration)>) -> nat {
    match last_retry {
        Some((n, _)) => n as nat,
        None => 0,
    }
}

/// Whether a bound on retries still allows one after `attempts` failures.
pub open spec fn within_bound(max_retries: Option<usize>, attempts: nat) -> bool {
    match max_retries {
        Some(n) => attempts < n,
        None => true,
    }
}

/// The retry history after a failure that was retried after `delay`.
pub open spec fn next_retry(last_retry: Option<(usize, Duration)>, delay: Duration) -> Option<
    (usize, Duration),
> {
    let n = attempts(last_retry);
    Some((if n < usize::MAX { (n + 1) as usize } else { usize::MAX }, delay))
}

/// Decides whether, and after how long, a failed connection is tried again.
pub trait RetryPolicy: Sized {
    /// The delay before the next attempt, or `None` to give up, after
    /// `error` given the history of earlier retries.
    spec fn retry_spec(&self, error: Error, last_retry: Option<(usize, Duration)>) -> Option<
        Duration,
    >;

    /// The policy once the server has advertised a reconnection time.
    spec fn reconnection_time_spec(&self, time: Duration) -> Self;

    fn retry(&self, error: &Error, last_retry: Option<(usize, Duration)>) -> (r: Option<Duration>)
        ensures
            r == self.retry_spec(*error, last_retry),
    ;

    fn set_reconnection_time(&mut self, time: Duration)
        ensures
            *final(self) == old(self).reconnection_time_spec(time),
    ;
}

/// Starts at `start` and multiplies the delay by `factor_milli / 1000` after
/// each further failure, up to `max_duration`.
#[derive(Debug, Clone, Copy, PartialEq, Eq, Structural)]
pub struct ExponentialBackoff {
    pub start: Duration,
    /// The growth factor, in thousandths (2000 doubles the delay).
    pub factor_milli: u64,
    pub max_duration: Duration,
    pub max_retries: Option<usize>,
}

/// `delay` grown by `factor_milli` thousandths, rounded down.
pub open spec fn scaled(delay: Duration, factor_milli: u64) -> nat {
    (delay.millis * factor_milli) as nat / 1000
}

impl ExponentialBackoff {
    pub fn new(start: Duration, factor_milli: u64, max_duration: Duration, max_retries: Option<usize>) -> (r: Self)
        ensures
            r == (ExponentialBackoff { start, factor_milli, max_duration, max_retries }),
    {
        ExponentialBackoff { start, factor_milli, max_duration, max_retries }
    }

    /// The delay that follows `last` under this policy.
    pub open spec fn grown(&self, last: Duration) -> Duration {
        let g = scaled(last, self.factor_milli);
        if g < self.max_duration.millis {
            Duration { millis: g as u64 }
        } else {
            self.max_duration
        }
    }

    /// The default policy: starts at 300 ms, doubles, stops growing at 5 s,
    /// and never gives up.
    pub open spec fn default_spec() -> Self {
        ExponentialBackoff {
            start: Duration { millis: 300 },
            factor_milli: 2000,
            max_duration: Duration { millis: 5000 },
            max_retries: None,
        }
    }
}

impl Default for ExponentialBackoff {
    fn default() -> (r: Self)
        ensures
            r == Self::default_spec(),
    {
        ExponentialBackoff {
            start: Duration { millis: 300 },
            factor_milli: 2000,
            max_duration: Duration { millis: 5000 },
            max_retries: None,
        }
    }
}

impl RetryPolicy for ExponentialBackoff {
    open spec fn retry_spec(&self, error: Error, last_retry: Option<(usize, Duration)>) -> Option<
        Duration,
    > {
        if !is_retryable(error) || !within_bound(self.max_retries, attempts(last_retry)) {
            None
        } else {
            match last_retry {
                Some((_, last)) => Some(self.grown(last)),
                None => Some(self.start),
            }
        }
    }

    open spec fn reconnection_time_spec(&self, time: Duration) -> Self {
        ExponentialBackoff {
            start: time,
            max_duration: if time.millis > self.max_duration.millis {
                time
            } else {
                self.max_duration
            },
            ..*self
        }
    }

    fn retry(&self, error: &Error, last_retry: Option<(usize, Duration)>) -> (r: Option<Duration>) {
        if !default_should_retry(error) {
            return None;
        }
        match last_retry {
            Some((retry_num, last)) => {
                match self.max_retries {
                    Some(max) if retry_num >= max => None,
                    _ => {
                        let a = last.millis as u128;
                        let b = self.factor_milli as u128;
                        assert(a * b <= u64::MAX as u128 * u64::MAX as u128) by (nonlinear_arith)
                            requires
                                a <= u64::MAX,
                                b <= u64::MAX,
                        ;
                        let grown = a * b / 1000;
                        if grown < self.max_duration.millis as u128 {
                            Some(Duration { millis: grown as u64 })
                        } else {
                            Some(self.max_duration)
                        }
                    },
                }
            },
            None => {
                match self.max_retries {
                    Some(0) => None,
                    _ => Some(self.start),
                }
            },
        }
    }

    fn set_reconnection_time(&mut self, time: Duration) {
        self.start = time;
        if time.millis > self.max_duration.millis {
            self.max_duration = time;
        }
    }
}

/// Waits the same `delay` after every failure.
#[derive(Debug, Clone, Copy, PartialEq, Eq, Structural)]
pub struct Constant {
    pub delay: Duration,
    pub max_retries: Option<usize>,
}

impl Constant {
    pub fn new(delay: Duration, max_retries: Option<usize>) -> (r: Self)
        ensures
            r == (Constant { delay, max_retries }),
    {
        Constant { delay, max_retries }
    }
}

impl RetryPolicy for Constant {
    open spec fn retry_spec(&self, error: Error, last_retry: Option<(usize, Duration)>) -> Option<
        Duration,
    > {
        if !is_retryable(error) || !within_bound(self.max_retries, attempts(last_retry)) {
            None
        } else {
            Some(self.delay)
        }
    }

    open spec fn reconnection_time_spec(&self, time: Duration) -> Self {
        Constant { delay: time, ..*self }
    }

    fn retry(&self, error: &Error, last_retry: Option<(usize, Duration)>) -> (r: Option<Duration>) {
        if !default_should_retry(error) {
            return None;
        }
        let retry_num: usize = match last_retry {
            Some((n, _)) => n,
            None => 0,
        };
        match self.max_retries {
            Some(max) if retry_num >= max => None,
            _ => Some(self.delay),
        }
    }

    fn set_reconnection_time(&mut self, time: Duration) {
        self.delay = time;
    }
}

/// Never reconnects.
#[derive(Debug, Clone, Copy, Default, PartialEq, Eq, Structural)]
pub struct Never;

impl RetryPolicy for Never {
    open spec fn retry_spec(&self, error: Error, last_retry: Option<(usize, Duration)>) -> Option<
        Duration,
    > {
        None
    }

    open spec fn reconnection_time_spec(&self, time: Duration) -> Self {
        *self
    }

    fn retry(&self, error: &Error, last_retry: Option<(usize, Duration)>) -> (r: Option<Duration>) {
        None
    }

    fn set_reconnection_time(&mut self, time: Duration) {
    }
}

/// The retry history after `k` consecutive failures with `error`, each
/// recorded as the stream records it when the policy asks for a retry.
pub open spec fn history_after<P: RetryPolicy>(policy: P, error: Error, k: nat) -> Option<
    (usize, Duration),
>
    decreases k,
{
    if k == 0 {
        None
    } else {
        let prev = history_after(policy, error, (k - 1) as nat);
        match policy.retry_spec(error, prev) {
            Some(d) => next_retry(prev, d),
            None => prev,
        }
    }
}

/// The policy's decision on the failure that follows `k` retried failures.
pub open spec fn delay_at<P: RetryPolicy>(policy: P, error: Error, k: nat) -> Option<Duration> {
    policy.retry_spec(error, history_after(policy, error, k))
}

/// Under exponential backoff that grows (a factor of at least one) from a
/// start within the cap, the first delay is `start`, every delay is at most
/// `max_duration`, and each delay is at least the one before it.
pub proof fn lemma_backoff_delays(b: ExponentialBackoff, error: Error, k: nat)
    requires
        is_retryable(error),
        b.factor_milli >= 1000,
        b.start.millis <= b.max_duration.millis,
    ensures
        within_bound(b.max_retries, 0) ==> delay_at(b, error, 0) == Some(b.start),
        delay_at(b, error, k) is Some ==> delay_at(b, error, k)->0.millis <= b.max_duration.millis,
        delay_at(b, error, k + 1) is Some ==> delay_at(b, error, k) is Some && delay_at(b, error, k)->0.millis
            <= delay_at(b, error, k + 1)->0.millis,
{
    let h = history_after(b, error, k);
    let h1 = history_after(b, error, k + 1);
    assert(history_after(b, error, 0) == None::<(usize, Duration)>);
    assert(h1 == match b.retry_spec(error, h) {
        Some(d) => next_retry(h, d),
        None => h,
    });
    if let Some(d) = delay_at(b, error, k) {
        let f = b.factor_milli;
        let m = d.millis;
        assert(m * f >= m * 1000) by (nonlinear_arith)
            requires
                f >= 1000,
        ;
        assert(scaled(d, f) >= m);
    }
}

/// With `max_retries = Some(n)`, a constant policy retries each of the first
/// `n` consecutive failures and gives up on the one after them.
pub proof fn lemma_constant_retry_bound(c: Constant, error: Error, n: usize, k: nat)
    requires
        is_retryable(error),
        c.max_retries == Some(n),
        k <= n,
    ensures
        k < n ==> delay_at(c, error, k) == Some(c.delay),
        k == n ==> delay_at(c, error, k) is None,
{
    lemma_constant_attempts(c, error, n, k);
}

proof fn lemma_constant_attempts(c: Constant, error: Error, n: usize, k: nat)
    requires
        is_retryable(error),
        c.max_retries == Some(n),
        k <= n,
    ensures
        attempts(history_after(c, error, k)) == k,
    decreases k,
{
    if k > 0 {
        lemma_constant_attempts(c, error, n, (k - 1) as nat);
    }
}

/// With `max_retries = Some(n)`, exponential backoff retries each of the
/// first `n` consecutive failures and gives up on the one after them.
pub proof fn lemma_backoff_retry_bound(b: ExponentialBackoff, error: Error, n: usize, k: nat)
    requires
        is_retryable(error),
        b.max_retries == Some(n),
        k <= n,
    ensures
        k < n ==> delay_at(b, error, k) is Some,
        k == n ==> delay_at(b, error, k) is None,
{
    lemma_backoff_attempts(b, error, n, k);
}

proof fn lemma_backoff_attempts(b: ExponentialBackoff, error: Error, n: usize, k: nat)
    requires
        is_retryable(error),
        b.max_retries == Some(n),
        k <= n,
    ensures
        attempts(history_after(b, error, k)) == k,
    decreases k,
{
    if k > 0 {
        lemma_backoff_attempts(b, error, n, (k - 1) as nat);
    }
}

} // verus!
