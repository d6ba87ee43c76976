//! The resilience layer: circuit breaker, backend error classification
//! and exponential-backoff retry policy.

use vstd::prelude::*;

use crate::clock::now_millis_u64;

verus! {

/// Errors of a backend call, classified for the retry and breaker policy.
pub enum BackendError {
    /// The request did not reach the backend or no reply came back.
    RequestError(String),
    /// The backend rejected the credentials.
    AuthError(String),
    /// The backend answered with a non-success status.
    ApiError(String),
    /// The reply body could not be decoded.
    JsonError(String),
    /// The circuit breaker refused the call before any network traffic.
    CircuitBreakerOpen,
    /// Every allowed attempt failed; holds the last failure.
    RetryExhausted(Box<BackendError>),
}

impl BackendError {
    /// Authentication failures and breaker refusals are final; every other
    /// failure may be retried.
    pub open spec fn spec_is_retryable(&self) -> bool {
        !(self is AuthError || self is CircuitBreakerOpen)
    }

    pub fn is_retryable(&self) -> (r: bool)
        ensures
            r == self.spec_is_retryable(),
    {
        match self {
            BackendError::AuthError(_) => false,
            BackendError::CircuitBreakerOpen => false,
            _ => true,
        }
    }
}

/// Circuit breaker state: consecutive failures, time of the last failure,
/// and the policy (trip threshold and cooldown, in milliseconds).
pub struct CircuitBreaker {
    pub failures: usize,
    pub last_failure: u64,
    pub threshold: usize,
    pub reset_timeout_ms: u64,
}

impl CircuitBreaker {
    /// The breaker is open when the failure count has reached the threshold
    /// and less than the cooldown has passed since the last failure.
    pub open spec fn open_at(&self, now: int) -> bool {
        self.failures >= self.threshold && now - self.last_failure < self.reset_timeout_ms
    }

    /// The state after one more failure at time `now` (the count saturates).
    pub open spec fn after_failure(self, now: u64) -> CircuitBreaker {
        CircuitBreaker {
            failures: if self.failures < usize::MAX {
                (self.failures + 1) as usize
            } else {
                self.failures
            },
            last_failure: now,
            ..self
        }
    }

    /// The state after a success: the failure count is back to zero.
    pub open spec fn after_success(self) -> CircuitBreaker {
        CircuitBreaker { failures: 0, ..self }
    }

    /// The state after a failure at each of `times`, in order.
    pub open spec fn after_failures(self, times: Seq<u64>) -> CircuitBreaker
        decreases times.len(),
    {
        if times.len() == 0 {
            self
        } else {
            self.after_failures(times.drop_last()).after_failure(times.last())
        }
    }

    pub fn new(threshold: usize, reset_timeout_ms: u64) -> (r: CircuitBreaker)
        ensures
            r.failures == 0,
            r.last_failure == 0,
            r.threshold == threshold,
            r.reset_timeout_ms == reset_timeout_ms,
    {
        CircuitBreaker { failures: 0, last_failure: 0, threshold, reset_timeout_ms }
    }

    pub fn record_success(&mut self)
        ensures
            *final(self) == old(self).after_success(),
    {
        self.failures = 0;
    }

    /// Records a failure observed at time `now` (milliseconds).
    pub fn record_failure_at(&mut self, now: u64)
        ensures
            *final(self) == old(self).after_failure(now),
    {
        if self.failures < usize::MAX {
            self.failures = self.failures + 1;
        }
        self.last_failure = now;
    }

    /// Records a failure at the current wall-clock time.
    pub fn record_failure(&mut self)
        ensures
            exists|t: u64| *final(self) == old(self).after_failure(t),
    {
        let now = now_millis_u64();
        self.record_failure_at(now);
    }

    /// Whether a call at time `now` (milliseconds) must be refused.
    pub fn is_open_at(&self, now: u64) -> (r: bool)
        ensures
            r == self.open_at(now as int),
    {
        if self.failures >= self.threshold {
            if now < self.last_failure {
                true
            } else {
                now - self.last_failure < self.reset_timeout_ms
            }
        } else {
            false
        }
    }

    /// Whether a call now must be refused. Below the threshold it never is.
    pub fn is_open(&self) -> (r: bool)
        ensures
            self.failures < self.threshold ==> !r,
            exists|t: u64| r == self.open_at(t as int),
    {
        let now = now_millis_u64();
        self.is_open_at(now)
    }

    /// Admits a call at time `now`, or refuses it with `CircuitBreakerOpen`.
    pub fn admit_at(&self, now: u64) -> (r: Result<(), BackendError>)
        ensures
            r is Err <==> self.open_at(now as int),
            r is Err ==> r->Err_0 is CircuitBreakerOpen,
    {
        if self.is_open_at(now) {
            Err(BackendError::CircuitBreakerOpen)
        } else {
            Ok(())
        }
    }
}

proof fn lemma_failures_count(b: CircuitBreaker, times: Seq<u64>)
    ensures
        b.after_failures(times).failures >= if times.len() < usize::MAX {
            times.len()
        } else {
            usize::MAX as nat
        },
        b.after_failures(times).threshold == b.threshold,
        b.after_failures(times).reset_timeout_ms == b.reset_timeout_ms,
        times.len() > 0 ==> b.after_failures(times).last_failure == times.last(),
    decreases times.len(),
{
    if times.len() > 0 {
        lemma_failures_count(b, times.drop_last());
    }
}

/// Breaker law: after at least `threshold` consecutive failures (the last at
/// time `times.last()`), a call at time `now` is refused exactly while less
/// than the cooldown has passed since that last failure; a success at any
/// point brings the failure count back to zero, after which a breaker with a
/// positive threshold admits every call.
pub proof fn law_breaker_trips(b: CircuitBreaker, times: Seq<u64>, now: int)
    requires
        times.len() >= b.threshold,
        times.len() > 0,
    ensures
        b.after_failures(times).open_at(now) <==> now - times.last() < b.reset_timeout_ms,
        b.after_failures(times).after_success().failures == 0,
        b.threshold > 0 ==> !b.after_failures(times).after_success().open_at(now),
        b.threshold > 0 ==> !b.after_success().open_at(now),
{
    lemma_failures_count(b, times);
}

/// Whether an HTTP status is a success (2xx).
pub open spec fn is_success(status: u16) -> bool {
    200 <= status <= 299
}

/// The error that a backend reply with this status means, if any: 403 is
/// an authentication failure, any other non-success status an API error
/// that carries the body and the status text.
pub fn classify_backend_reply(status: u16, body: &str, status_text: &str) -> (r: Result<
    (),
    BackendError,
>)
    ensures
        is_success(status) <==> r is Ok,
        status == 403 ==> (r matches Err(BackendError::AuthError(m)) && m@ == "Permission denied"@),
        !is_success(status) && status != 403 ==> (r matches Err(BackendError::ApiError(m)) && m@
            == "API error: "@ + body@ + " ("@ + status_text@ + ")"@),
{
    if 200 <= status && status <= 299 {
        Ok(())
    } else if status == 403 {
        Err(BackendError::AuthError(String::from_str("Permission denied")))
    } else {
        let mut m = String::from_str("API error: ");
        m.append(body);
        m.append(" (");
        m.append(status_text);
        m.append(")");
        Err(BackendError::ApiError(m))
    }
}

impl CircuitBreaker {
    /// Accounts for a backend reply with this status at time `now`: a
    /// success resets the breaker, an authentication refusal leaves it be,
    /// any other status counts as a failure.
    pub fn record_reply_at(&mut self, status: u16, now: u64)
        ensures
            is_success(status) ==> *final(self) == old(self).after_success(),
            status == 403 ==> *final(self) == *old(self),
            !is_success(status) && status != 403 ==> *final(self) == old(self).after_failure(now),
    {
        if 200 <= status && status <= 299 {
            self.record_success();
        } else if status != 403 {
            self.record_failure_at(now);
        }
    }
}

/// `base * 2^k`, the delay before the retry that follows `k + 1` failures.
pub open spec fn backoff(base: nat, k: nat) -> nat
    decreases k,
{
    if k == 0 {
        base
    } else {
        2 * backoff(base, (k - 1) as nat)
    }
}

/// The delay before the `n`-th retry (`n >= 1`): `base * 2^(n-1)`,
/// saturated at `u64::MAX`.
pub open spec fn retry_delay(base: nat, n: nat) -> nat {
    let d = backoff(base, (n - 1) as nat);
    if d <= u64::MAX {
        d
    } else {
        u64::MAX as nat
    }
}

proof fn lemma_backoff_monotone(base: nat, k: nat)
    ensures
        backoff(base, k) <= backoff(base, k + 1),
{
}

pub proof fn lemma_backoff_mono_le(base: nat, j: nat, k: nat)
    requires
        j <= k,
    ensures
        backoff(base, j) <= backoff(base, k),
    decreases k - j,
{
    if j < k {
        lemma_backoff_mono_le(base, j, (k - 1) as nat);
        lemma_backoff_monotone(base, (k - 1) as nat);
    }
}

/// Computes the delay before the `n`-th retry, in milliseconds.
pub fn retry_delay_ms(base_delay_ms: u64, n: u32) -> (r: u64)
    requires
        n >= 1,
    ensures
        r == retry_delay(base_delay_ms as nat, n as nat),
{
    let mut d: u64 = base_delay_ms;
    let mut k: u32 = 1;
    while k < n
        invariant
            1 <= k <= n,
            d == retry_delay(base_delay_ms as nat, k as nat),
        decreases n - k,
    {
        proof {
            lemma_backoff_monotone(base_delay_ms as nat, (k - 1) as nat);
        }
        if d > u64::MAX / 2 {
            proof {
                lemma_backoff_mono_le(base_delay_ms as nat, (k - 1) as nat, k as nat);
            }
            d = u64::MAX;
        } else {
            d = d * 2;
        }
        k = k + 1;
    }
    d
}

/// What a caller does after a failed attempt.
pub enum RetryStep {
    /// Give up at once and hand the failure back.
    Stop,
    /// Sleep this many milliseconds, then try again.
    Wait(u64),
    /// All attempts are spent: report `RetryExhausted` with the last failure.
    Exhausted,
}

/// How often, and how patiently, an operation is retried.
pub struct RetryPolicy {
    pub max_attempts: usize,
    pub base_delay_ms: u64,
}

impl RetryPolicy {
    /// The step after `failures` failed attempts, the last one `retryable` or not.
    pub open spec fn step_after(&self, failures: nat, retryable: bool) -> RetryStep {
        if !retryable {
            RetryStep::Stop
        } else if failures >= self.max_attempts {
            RetryStep::Exhausted
        } else {
            RetryStep::Wait(retry_delay(self.base_delay_ms as nat, failures) as u64)
        }
    }

    /// Decides what follows the `failures`-th failed attempt.
    pub fn next_step(&self, failures: usize, retryable: bool) -> (r: RetryStep)
        requires
            failures >= 1,
            failures <= u32::MAX,
        ensures
            r == self.step_after(failures as nat, retryable),
    {
        if !retryable {
            RetryStep::Stop
        } else if failures >= self.max_attempts {
            RetryStep::Exhausted
        } else {
            RetryStep::Wait(retry_delay_ms(self.base_delay_ms, failures as u32))
        }
    }

    /// Decides what follows a failed backend call; on exhaustion the
    /// `RetryExhausted` error that wraps the failure is part of the answer.
    pub fn after_backend_failure(&self, failures: usize, err: BackendError) -> (r: Result<
        u64,
        BackendError,
    >)
        requires
            failures >= 1,
            failures <= u32::MAX,
        ensures
            match self.step_after(failures as nat, err.spec_is_retryable()) {
                RetryStep::Stop => r == Err::<u64, BackendError>(err),
                RetryStep::Exhausted => r == Err::<u64, BackendError>(
                    BackendError::RetryExhausted(Box::new(err)),
                ),
                RetryStep::Wait(d) => r == Ok::<u64, BackendError>(d),
            },
    {
        let retryable = err.is_retryable();
        match self.next_step(failures, retryable) {
            RetryStep::Stop => Err(err),
            RetryStep::Exhausted => Err(BackendError::RetryExhausted(Box::new(err))),
            RetryStep::Wait(d) => Ok(d),
        }
    }
}

/// Backoff law: a retryable failure before the last attempt waits
/// `base * 2^(n-1)` milliseconds before the `n`-th retry (when that fits in
/// a `u64`), the waits never shrink, and the `max_attempts`-th failure ends
/// in `RetryExhausted`.
pub proof fn law_retry_backoff(policy: RetryPolicy, n: nat)
    requires
        n >= 1,
    ensures
        n < policy.max_attempts ==> policy.step_after(n, true) == RetryStep::Wait(
            retry_delay(policy.base_delay_ms as nat, n) as u64,
        ),
        n < policy.max_attempts && backoff(policy.base_delay_ms as nat, (n - 1) as nat)
            <= u64::MAX ==> retry_delay(policy.base_delay_ms as nat, n) == policy.base_delay_ms
            * vstd::arithmetic::power2::pow2((n - 1) as nat),
        retry_delay(policy.base_delay_ms as nat, n) <= retry_delay(
            policy.base_delay_ms as nat,
            n + 1,
        ),
        n >= policy.max_attempts ==> policy.step_after(n, true) == RetryStep::Exhausted,
        policy.step_after(n, false) == RetryStep::Stop,
{
    lemma_backoff_is_pow2(policy.base_delay_ms as nat, (n - 1) as nat);
    lemma_backoff_monotone(policy.base_delay_ms as nat, (n - 1) as nat);
}

proof fn lemma_backoff_is_pow2(base: nat, k: nat)
    ensures
        backoff(base, k) == base * vstd::arithmetic::power2::pow2(k),
    decreases k,
{
    if k > 0 {
        let p = vstd::arithmetic::power2::pow2((k - 1) as nat);
        lemma_backoff_is_pow2(base, (k - 1) as nat);
        vstd::arithmetic::power2::lemma_pow2_unfold(k);
        assert(base * (2 * p) == 2 * (base * p)) by (nonlinear_arith);
    } else {
        vstd::arithmetic::power::lemma_pow0(2);
        assert(vstd::arithmetic::power2::pow2(0) == 1);
        assert(base * 1 == base);
    }
}

} // verus!
