//! Exponential-backoff retry: the decision core of re-invoking a fallible
//! operation, and the classifier that tells transient failures apart.
//!
//! The shell owns the operation and the sleeps; the outcome of every
//! invocation is handed in as a value, and the executor here decides,
//! verified, how many invocations happen, which failure is final, and how
//! long each pause is.

use vstd::prelude::*;

use crate::strutil::{contains_ci, contains_chars_ci, to_chars};

verus! {

/// Retry policy: how often and how long.
pub struct RetryPolicy {
    /// Retries after the first attempt.
    pub max_retries: u32,
    /// First pause, in milliseconds.
    pub initial_backoff_ms: u64,
    /// Cap on every pause, in milliseconds.
    pub max_backoff_ms: u64,
    /// Whole-number factor between consecutive pauses.
    pub backoff_multiplier: u64,
}

impl Default for RetryPolicy {
    /// The safe defaults: three retries, from 100 ms doubling to 5000 ms.
    fn default() -> (r: RetryPolicy)
        ensures
            r.max_retries == 3,
            r.initial_backoff_ms == 100,
            r.max_backoff_ms == 5000,
            r.backoff_multiplier == 2,
    {
        RetryPolicy {
            max_retries: 3,
            initial_backoff_ms: 100,
            max_backoff_ms: 5000,
            backoff_multiplier: 2,
        }
    }
}

/// The pause that follows `current`: multiplied, then capped.
pub open spec fn next_backoff_spec(current: u64, policy: RetryPolicy) -> u64 {
    if current * policy.backoff_multiplier > policy.max_backoff_ms {
        policy.max_backoff_ms
    } else {
        (current * policy.backoff_multiplier) as u64
    }
}

/// The pause before the `k`-th retry.
pub open spec fn backoff_at(policy: RetryPolicy, k: int) -> u64
    decreases k,
{
    if k <= 0 {
        policy.initial_backoff_ms
    } else {
        next_backoff_spec(backoff_at(policy, k - 1), policy)
    }
}

/// Next pause: the current one multiplied, capped at the policy maximum.
pub fn next_backoff(current: u64, policy: &RetryPolicy) -> (r: u64)
    ensures
        r == next_backoff_spec(current, *policy),
{
    match current.checked_mul(policy.backoff_multiplier) {
        Some(v) => {
            if v > policy.max_backoff_ms {
                policy.max_backoff_ms
            } else {
                v
            }
        },
        None => policy.max_backoff_ms,
    }
}

/// Index of the first successful invocation; the length when all fail.
pub open spec fn first_success(outcomes: Seq<bool>) -> int
    decreases outcomes.len(),
{
    if outcomes.len() == 0 {
        0
    } else if outcomes.first() {
        0
    } else {
        1 + first_success(outcomes.drop_first())
    }
}

proof fn lemma_first_success_bounds(s: Seq<bool>)
    ensures
        0 <= first_success(s) <= s.len(),
        first_success(s) < s.len() ==> s[first_success(s)],
        forall|j: int| 0 <= j < first_success(s) ==> !s[j],
    decreases s.len(),
{
    if s.len() > 0 && !s.first() {
        lemma_first_success_bounds(s.drop_first());
        assert forall|j: int| 0 <= j < first_success(s) implies !s[j] by {
            if j > 0 {
                assert(s.drop_first()[j - 1] == s[j]);
            }
        }
    }
}

/// What one run of the retry executor did.
pub struct RetryRun {
    /// How many times the operation was invoked.
    pub attempts: usize,
    /// Whether the last invocation succeeded.
    pub succeeded: bool,
    /// The pause that preceded each retry, in order.
    pub sleeps: Vec<u64>,
}

/// The decision core of retry with backoff. `outcomes[i]` is whether the
/// `i`-th invocation of the operation succeeds; the run stops at the first
/// success, or once the first attempt and `max_retries` retries have all
/// failed — exactly `max_retries + 1` invocations. With retries disabled
/// the operation runs exactly once.
pub fn run_retry(outcomes: &Vec<bool>, policy: &RetryPolicy, retries_enabled: bool) -> (r:
    RetryRun)
    requires
        outcomes@.len() > policy.max_retries,
    ensures
        !retries_enabled ==> r.attempts == 1 && r.succeeded == outcomes@[0] && r.sleeps@.len()
            == 0,
        retries_enabled ==> {
            &&& (if first_success(outcomes@) <= policy.max_retries {
                r.attempts == first_success(outcomes@) + 1 && r.succeeded
            } else {
                r.attempts == policy.max_retries + 1 && !r.succeeded
            })
            &&& r.sleeps@.len() == r.attempts - 1
            &&& forall|i: int| 0 <= i < r.sleeps@.len() ==> r.sleeps@[i] == backoff_at(*policy, i)
        },
{
    if !retries_enabled {
        return RetryRun { attempts: 1, succeeded: outcomes[0], sleeps: Vec::new() };
    }
    proof {
        lemma_first_success_bounds(outcomes@);
    }
    let n = outcomes.len();
    let mut attempt: usize = 0;
    let mut backoff: u64 = policy.initial_backoff_ms;
    let mut sleeps: Vec<u64> = Vec::new();
    loop
        invariant
            retries_enabled,
            n == outcomes@.len(),
            outcomes@.len() > policy.max_retries,
            attempt <= policy.max_retries,
            0 <= first_success(outcomes@) <= outcomes@.len(),
            first_success(outcomes@) < outcomes@.len() ==> outcomes@[first_success(outcomes@)],
            forall|j: int| 0 <= j < first_success(outcomes@) ==> !outcomes@[j],
            forall|j: int| 0 <= j < attempt ==> !outcomes@[j],
            backoff == backoff_at(*policy, attempt as int),
            sleeps@.len() == attempt,
            forall|i: int| 0 <= i < sleeps@.len() ==> sleeps@[i] == backoff_at(*policy, i),
        decreases policy.max_retries - attempt,
    {
        if outcomes[attempt] {
            assert(first_success(outcomes@) == attempt);
            return RetryRun { attempts: attempt + 1, succeeded: true, sleeps };
        }
        if attempt >= policy.max_retries as usize {
            assert(first_success(outcomes@) > policy.max_retries);
            return RetryRun { attempts: attempt + 1, succeeded: false, sleeps };
        }
        sleeps.push(backoff);
        backoff = next_backoff(backoff, policy);
        attempt += 1;
    }
}

/// The substrings, all lower case, whose presence marks a failure message
/// as transient.
pub open spec fn is_retryable_spec(msg: Seq<char>) -> bool {
    ||| contains_ci(msg, "network"@)
    ||| contains_ci(msg, "timeout"@)
    ||| contains_ci(msg, "temporarily"@)
    ||| contains_ci(msg, "rate limit"@)
    ||| contains_ci(msg, "503"@)
    ||| contains_ci(msg, "502"@)
    ||| contains_ci(msg, "500"@)
    ||| contains_ci(msg, "connection"@)
    ||| contains_ci(msg, "refused"@)
}

/// Whether an error message reports a transient condition, judged by a
/// case-insensitive search for the known transient substrings.
pub fn is_retryable_error(error_msg: &str) -> (r: bool)
    ensures
        r == is_retryable_spec(error_msg@),
{
    let msg = to_chars(error_msg);
    let r = contains_chars_ci(&msg, &to_chars("network")) || contains_chars_ci(
        &msg,
        &to_chars("timeout"),
    ) || contains_chars_ci(&msg, &to_chars("temporarily")) || contains_chars_ci(
        &msg,
        &to_chars("rate limit"),
    ) || contains_chars_ci(&msg, &to_chars("503")) || contains_chars_ci(&msg, &to_chars("502"))
        || contains_chars_ci(&msg, &to_chars("500")) || contains_chars_ci(
        &msg,
        &to_chars("connection"),
    ) || contains_chars_ci(&msg, &to_chars("refused"));
    r
}

/// An invocation outcome halts the classified retry loop when it is a
/// success or a failure that the classifier calls non-transient.
pub open spec fn halts_retries(o: Option<String>) -> bool {
    match o {
        None => true,
        Some(m) => !is_retryable_spec(m@),
    }
}

/// Index of the first halting outcome; the length when every outcome is a
/// retryable failure.
pub open spec fn first_halt(outcomes: Seq<Option<String>>) -> int
    decreases outcomes.len(),
{
    if outcomes.len() == 0 {
        0
    } else if halts_retries(outcomes.first()) {
        0
    } else {
        1 + first_halt(outcomes.drop_first())
    }
}

proof fn lemma_first_halt_bounds(s: Seq<Option<String>>)
    ensures
        0 <= first_halt(s) <= s.len(),
        first_halt(s) < s.len() ==> halts_retries(s[first_halt(s)]),
        forall|j: int| 0 <= j < first_halt(s) ==> !halts_retries(s[j]),
    decreases s.len(),
{
    if s.len() > 0 && !halts_retries(s.first()) {
        lemma_first_halt_bounds(s.drop_first());
        assert forall|j: int| 0 <= j < first_halt(s) implies !halts_retries(s[j]) by {
            if j > 0 {
                assert(s.drop_first()[j - 1] == s[j]);
            }
        }
    }
}

/// What one run of the classified retry executor did.
pub struct ClassifiedRetryRun {
    /// How many times the operation was invoked.
    pub attempts: usize,
    /// `None` on success, otherwise the failure that ended the run.
    pub failure: Option<String>,
    /// The pause that preceded each retry, in order.
    pub sleeps: Vec<u64>,
}

/// The decision core of retry-on-retryable. `outcomes[i]` is what the
/// `i`-th invocation returns: `None` for success, `Some(message)` for a
/// failure. A non-retryable failure is returned at once, without consuming
/// a retry or sleeping; retryable failures are retried up to `max_retries`
/// times. With retries disabled the operation runs exactly once.
pub fn run_retry_on_retryable(
    outcomes: &Vec<Option<String>>,
    policy: &RetryPolicy,
    retries_enabled: bool,
) -> (r: ClassifiedRetryRun)
    requires
        outcomes@.len() > policy.max_retries,
    ensures
        !retries_enabled ==> r.attempts == 1 && r.failure == outcomes@[0] && r.sleeps@.len() == 0,
        retries_enabled ==> {
            &&& (if first_halt(outcomes@) <= policy.max_retries {
                r.attempts == first_halt(outcomes@) + 1 && r.failure == outcomes@[first_halt(
                    outcomes@,
                )]
            } else {
                r.attempts == policy.max_retries + 1 && r.failure == outcomes@[
                    policy.max_retries as int
                ] && r.failure is Some
            })
            &&& r.sleeps@.len() == r.attempts - 1
            &&& forall|i: int| 0 <= i < r.sleeps@.len() ==> r.sleeps@[i] == backoff_at(*policy, i)
        },
{
    if !retries_enabled {
        return ClassifiedRetryRun { attempts: 1, failure: clone_outcome(&outcomes[0]), sleeps:
            Vec::new() };
    }
    proof {
        lemma_first_halt_bounds(outcomes@);
    }
    let n = outcomes.len();
    let mut attempt: usize = 0;
    let mut backoff: u64 = policy.initial_backoff_ms;
    let mut sleeps: Vec<u64> = Vec::new();
    loop
        invariant
            retries_enabled,
            n == outcomes@.len(),
            outcomes@.len() > policy.max_retries,
            attempt <= policy.max_retries,
            0 <= first_halt(outcomes@) <= outcomes@.len(),
            first_halt(outcomes@) < outcomes@.len() ==> halts_retries(outcomes@[first_halt(
                outcomes@,
            )]),
            forall|j: int| 0 <= j < first_halt(outcomes@) ==> !halts_retries(outcomes@[j]),
            forall|j: int| 0 <= j < attempt ==> !halts_retries(outcomes@[j]),
            backoff == backoff_at(*policy, attempt as int),
            sleeps@.len() == attempt,
            forall|i: int| 0 <= i < sleeps@.len() ==> sleeps@[i] == backoff_at(*policy, i),
        decreases policy.max_retries - attempt,
    {
        let halted = match &outcomes[attempt] {
            None => true,
            Some(m) => !is_retryable_error(m.as_str()),
        };
        if halted {
            assert(halts_retries(outcomes@[attempt as int]));
            assert(first_halt(outcomes@) == attempt);
            return ClassifiedRetryRun {
                attempts: attempt + 1,
                failure: clone_outcome(&outcomes[attempt]),
                sleeps,
            };
        }
        if attempt >= policy.max_retries as usize {
            assert(first_halt(outcomes@) > policy.max_retries);
            assert(!halts_retries(outcomes@[attempt as int]));
            return ClassifiedRetryRun {
                attempts: attempt + 1,
                failure: clone_outcome(&outcomes[attempt]),
                sleeps,
            };
        }
        sleeps.push(backoff);
        backoff = next_backoff(backoff, policy);
        attempt += 1;
    }
}

/// A copy of one invocation outcome.
fn clone_outcome(o: &Option<String>) -> (r: Option<String>)
    ensures
        r == *o,
{
    match o {
        Some(m) => Some(m.clone()),
        None => None,
    }
}

} // verus!
