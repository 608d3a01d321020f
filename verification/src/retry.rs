//! Bounded retries with exponential backoff.
//!
//! An operation is tried once and, while it fails with an error that a
//! retry may cure, up to `max_retries` times more. Before retry number `k`
//! (from 0) the executor waits `initial_backoff_ms * 2^k` milliseconds.
//! There is no jitter. An error that no retry cures is returned as it is; a
//! retryable error after the last retry is returned as
//! [`ScraperError::GrpcConnectionFailed`], which carries the number of
//! retries and the text of that last error.

use vstd::prelude::*;

use crate::error::ScraperError;

verus! {

/// Retries of the forwarding step.
pub const MAX_RETRIES: u32 = 3;

/// Milliseconds before the first retry of the forwarding step.
pub const INITIAL_BACKOFF_MS: u64 = 1000;

/// `initial * 2^times`.
pub open spec fn doubled(initial: nat, times: nat) -> nat
    decreases times,
{
    if times == 0 {
        initial
    } else {
        2 * doubled(initial, (times - 1) as nat)
    }
}

/// Doubling never shrinks a delay.
pub proof fn lemma_doubled_monotonic(initial: nat, a: nat, b: nat)
    requires
        a <= b,
    ensures
        doubled(initial, a) <= doubled(initial, b),
    decreases b,
{
    if a < b {
        lemma_doubled_monotonic(initial, a, (b - 1) as nat);
    }
}

/// Doubling nothing gives nothing.
pub proof fn lemma_doubled_zero(times: nat)
    ensures
        doubled(0, times) == 0,
    decreases times,
{
    if times > 0 {
        lemma_doubled_zero((times - 1) as nat);
    }
}

/// Backoff monotonicity: each delay is exactly twice the one before it, so
/// for a positive initial delay the delays strictly grow.
pub proof fn lemma_backoff_doubles(initial: nat, retry: nat)
    ensures
        doubled(initial, retry + 1) == 2 * doubled(initial, retry),
        initial > 0 ==> doubled(initial, retry) < doubled(initial, retry + 1),
        initial > 0 ==> doubled(initial, retry) > 0,
    decreases retry,
{
    if retry > 0 {
        lemma_backoff_doubles(initial, (retry - 1) as nat);
    }
}

/// How often to retry and how long to wait at first.
#[derive(Clone, Copy, Debug, PartialEq, Eq, Structural)]
pub struct RetryPolicy {
    pub max_retries: u32,
    pub initial_backoff_ms: u64,
}

impl RetryPolicy {
    /// The longest delay of the policy fits the machine's 64 bits.
    pub open spec fn wf(&self) -> bool {
        self.max_retries > 0 ==> doubled(
            self.initial_backoff_ms as nat,
            (self.max_retries - 1) as nat,
        ) <= u64::MAX
    }

    /// The delay before retry number `retry`, from 0.
    pub open spec fn spec_backoff(&self, retry: u32) -> nat {
        doubled(self.initial_backoff_ms as nat, retry as nat)
    }

    /// The policy with the given numbers, if its longest delay fits 64
    /// bits; `None` if it does not.
    pub fn new(max_retries: u32, initial_backoff_ms: u64) -> (r: Option<Self>)
        ensures
            match r {
                Some(p) => p == (RetryPolicy { max_retries, initial_backoff_ms }) && p.wf(),
                None => !(RetryPolicy { max_retries, initial_backoff_ms }).wf(),
            },
    {
        let policy = RetryPolicy { max_retries, initial_backoff_ms };
        if max_retries == 0 {
            return Some(policy);
        }
        if initial_backoff_ms == 0 {
            proof {
                lemma_doubled_zero((max_retries - 1) as nat);
            }
            return Some(policy);
        }
        let mut delay: u64 = initial_backoff_ms;
        let mut k: u32 = 0;
        while k < max_retries - 1
            invariant
                max_retries > 0,
                k <= max_retries - 1,
                delay == doubled(initial_backoff_ms as nat, k as nat),
            decreases max_retries - 1 - k,
        {
            match delay.checked_mul(2) {
                Some(next) => {
                    delay = next;
                },
                None => {
                    proof {
                        lemma_doubled_monotonic(
                            initial_backoff_ms as nat,
                            (k + 1) as nat,
                            (max_retries - 1) as nat,
                        );
                    }
                    return None;
                },
            }
            k = k + 1;
        }
        Some(policy)
    }

    /// The policy of the forwarding step: 3 retries, 1 s at first.
    pub fn forwarding() -> (p: Self)
        ensures
            p == (RetryPolicy { max_retries: MAX_RETRIES, initial_backoff_ms: INITIAL_BACKOFF_MS }),
            p.wf(),
    {
        proof {
            assert(doubled(1000, 2) == 4000) by {
                reveal_with_fuel(doubled, 3);
            }
        }
        RetryPolicy { max_retries: MAX_RETRIES, initial_backoff_ms: INITIAL_BACKOFF_MS }
    }

    /// The delay in milliseconds before retry number `retry`, from 0.
    pub fn backoff(&self, retry: u32) -> (ms: u64)
        requires
            self.wf(),
            retry < self.max_retries,
        ensures
            ms == self.spec_backoff(retry),
    {
        if self.initial_backoff_ms == 0 {
            proof {
                lemma_doubled_zero(retry as nat);
            }
            return 0;
        }
        let mut delay: u64 = self.initial_backoff_ms;
        let mut k: u32 = 0;
        while k < retry
            invariant
                self.wf(),
                retry < self.max_retries,
                k <= retry,
                delay == doubled(self.initial_backoff_ms as nat, k as nat),
            decreases retry - k,
        {
            proof {
                lemma_doubled_monotonic(
                    self.initial_backoff_ms as nat,
                    (k + 1) as nat,
                    (self.max_retries - 1) as nat,
                );
            }
            delay = delay * 2;
            k = k + 1;
        }
        delay
    }
}

/// How the executor goes on after a failure.
#[derive(Debug)]
pub enum RetryDecision {
    /// Wait so many milliseconds and try again.
    RetryAfter(u64),
    /// Stop, with this error.
    GiveUp(ScraperError),
}

/// The state of one retried execution.
#[derive(Debug)]
pub struct RetryState {
    /// The retries made up to now.
    pub attempt: u32,
    /// The text of the last failure that was taken in, if any was.
    pub last_error: Option<String>,
}

/// What a failure leads to, given the retries already made.
pub open spec fn decision_matches(
    policy: RetryPolicy,
    attempt: u32,
    error: ScraperError,
    decision: RetryDecision,
) -> bool {
    if !error.spec_is_retryable() {
        decision == RetryDecision::GiveUp(error)
    } else if attempt < policy.max_retries {
        decision == RetryDecision::RetryAfter(policy.spec_backoff(attempt) as u64)
    } else {
        &&& decision matches RetryDecision::GiveUp(
            ScraperError::GrpcConnectionFailed { retries, message },
        )
        &&& retries == policy.max_retries
        &&& message@ == error.spec_message()
    }
}

impl RetryState {
    /// The state before the first attempt.
    pub fn new() -> (r: Self)
        ensures
            r.attempt == 0,
            r.last_error is None,
    {
        RetryState { attempt: 0, last_error: None }
    }

    /// Takes in the failure of an attempt and decides how to go on.
    ///
    /// An error that no retry cures is given back at once. A retryable
    /// error leads to a retry after the backoff of that retry while retries
    /// are left, and to the error of exhausted retries when none is.
    pub fn on_failure(&mut self, policy: &RetryPolicy, error: ScraperError) -> (decision:
        RetryDecision)
        requires
            policy.wf(),
        ensures
            decision_matches(*policy, old(self).attempt, error, decision),
            final(self).attempt == (if decision is RetryAfter {
                old(self).attempt + 1
            } else {
                old(self).attempt as int
            }),
            final(self).last_error matches Some(text) && text@ == error.spec_message(),
    {
        self.last_error = Some(error.message().to_string());
        if !error.is_retryable() {
            RetryDecision::GiveUp(error)
        } else if self.attempt < policy.max_retries {
            let ms = policy.backoff(self.attempt);
            self.attempt = self.attempt + 1;
            RetryDecision::RetryAfter(ms)
        } else {
            RetryDecision::GiveUp(
                ScraperError::GrpcConnectionFailed {
                    retries: policy.max_retries,
                    message: error.message().to_string(),
                },
            )
        }
    }
}

/// What an execution over known results came to.
#[derive(Debug)]
pub struct RetryReport<T> {
    /// What the execution returns; `None` if the results ran out before the
    /// execution was decided.
    pub result: Option<Result<T, ScraperError>>,
    /// The delays that were waited, in order, in milliseconds.
    pub delays: Vec<u64>,
}

/// Attempt `i` fails with an error that a retry may cure.
pub open spec fn retryable_failure<T>(results: Seq<Result<T, ScraperError>>, i: int) -> bool {
    0 <= i < results.len() && results[i] is Err && results[i]->Err_0.spec_is_retryable()
}

/// The number of the attempt that decides the execution: the first that
/// succeeds, fails beyond cure, or fails after the last retry. It is
/// `results.len()` when the results run out before that.
pub open spec fn deciding_attempt<T>(
    policy: RetryPolicy,
    results: Seq<Result<T, ScraperError>>,
    from: int,
) -> int
    decreases results.len() - from,
{
    if from < 0 || from >= results.len() {
        results.len() as int
    } else if retryable_failure(results, from) && from < policy.max_retries {
        deciding_attempt(policy, results, from + 1)
    } else {
        from
    }
}

/// The delays waited before the attempts up to number `n`: one backoff for
/// each retry.
pub open spec fn delays_before(policy: RetryPolicy, n: int) -> Seq<u64> {
    Seq::new(
        if n > 0 {
            n as nat
        } else {
            0
        },
        |k: int| policy.spec_backoff(k as u32) as u64,
    )
}

/// What an execution over `results` comes to.
pub open spec fn report_matches<T>(
    policy: RetryPolicy,
    results: Seq<Result<T, ScraperError>>,
    report: RetryReport<T>,
) -> bool {
    let d = deciding_attempt(policy, results, 0);
    &&& report.delays@ == delays_before(policy, d)
    &&& if d >= results.len() {
        report.result is None
    } else {
        match results[d] {
            Ok(v) => report.result == Some(Ok::<T, ScraperError>(v)),
            Err(e) => if !e.spec_is_retryable() {
                report.result == Some(Err::<T, ScraperError>(e))
            } else {
                &&& report.result matches Some(
                    Err(ScraperError::GrpcConnectionFailed { retries, message }),
                )
                &&& retries == policy.max_retries
                &&& message@ == e.spec_message()
            },
        }
    }
}

/// Runs an operation whose attempts have the given results, in order, and
/// reports what the executor returns and which delays it waited.
///
/// The first success is returned, and so is the first error that no retry
/// cures. A retryable error is followed by the backoff and the next
/// attempt while retries are left; after `max_retries` retries it is
/// returned as the error of exhausted retries.
pub fn execute<T>(policy: &RetryPolicy, results: Vec<Result<T, ScraperError>>) -> (report:
    RetryReport<T>)
    requires
        policy.wf(),
    ensures
        report_matches(*policy, results@, report),
{
    let ghost all = results@;
    let mut state = RetryState::new();
    let mut delays: Vec<u64> = Vec::new();
    let mut rest = results;
    let mut i: usize = 0;
    let total = rest.len();
    while rest.len() > 0
        invariant
            policy.wf(),
            all == results@,
            all.len() == total,
            i + rest.len() == total,
            rest@ == all.subrange(i as int, total as int),
            state.attempt == i,
            i <= policy.max_retries,
            delays@ == delays_before(*policy, i as int),
            deciding_attempt(*policy, all, 0) == deciding_attempt(*policy, all, i as int),
        decreases rest.len(),
    {
        let item = rest.remove(0);
        proof {
            assert(item == all[i as int]);
            assert(rest@ =~= all.subrange(i + 1, total as int));
        }
        match item {
            Ok(v) => {
                return RetryReport { result: Some(Ok(v)), delays };
            },
            Err(e) => {
                match state.on_failure(policy, e) {
                    RetryDecision::GiveUp(err) => {
                        return RetryReport { result: Some(Err(err)), delays };
                    },
                    RetryDecision::RetryAfter(ms) => {
                        delays.push(ms);
                        assert(delays@ =~= delays_before(*policy, i + 1));
                    },
                }
            },
        }
        i = i + 1;
    }
    RetryReport { result: None, delays }
}

} // verus!
