//! The request execution pipeline's decisions: how many attempts a
//! request gets, how long to wait between them, and how each HTTP
//! outcome is classified. The transport that sends the attempts lives
//! outside the library and follows the steps decided here.
use vstd::prelude::*;
use crate::error::Error;

verus! {

/// Attempts made for one request: one initial send and two retries.
pub const MAX_ATTEMPTS: u32 = 3;

/// Backoff delay before the first retry, in milliseconds.
pub const INITIAL_DELAY_MS: u64 = 100;

/// Cap on any single backoff delay, in milliseconds.
pub const MAX_DELAY_MS: u64 = 5000;

/// What a single HTTP attempt produced: a status with the response body
/// read as text, or a transport-level failure (connection error, timeout).
#[derive(Debug, Clone, PartialEq, Eq)]
pub enum AttemptResult {
    /// The attempt reached the server and a response came back
    Response {
        /// HTTP status code
        status: u16,
        /// Response body, read as text
        body: String,
    },
    /// The attempt did not produce a response
    TransportFailure {
        /// Description of the failure
        message: String,
    },
}

/// The classified outcome of a request, after the attempt sequence ends.
#[derive(Debug, Clone, PartialEq, Eq)]
pub enum Outcome {
    /// A success status arrived; the body is handed on for decoding
    Success {
        /// Response body, read as text
        body: String,
    },
    /// Every attempt was rate-limited
    RateLimited,
    /// The credentials were rejected
    AuthFailed,
    /// Any other non-success status
    OtherFailure {
        /// HTTP status code
        status: u16,
        /// Response body, read as text
        body: String,
    },
    /// No response was obtained; not retried
    TransportFailed {
        /// Description of the failure
        message: String,
    },
}

/// What the pipeline does after an attempt: wait and send again, or stop.
#[derive(Debug, Clone, PartialEq, Eq)]
pub enum Step {
    /// Wait `delay_ms` milliseconds, then send the request again
    Retry {
        /// Backoff delay in milliseconds
        delay_ms: u64,
    },
    /// The attempt sequence is over
    Done {
        /// The classified outcome
        outcome: Outcome,
    },
}

/// A status in the 2xx range.
pub open spec fn is_success_status(status: u16) -> bool {
    200 <= status < 300
}

/// The backoff delay waited after failed attempt number `attempt`:
/// `INITIAL_DELAY_MS` after the first attempt, doubling afterwards,
/// capped at `MAX_DELAY_MS`.
pub open spec fn spec_backoff_delay_ms(attempt: int) -> u64
    decreases attempt,
{
    if attempt <= 1 {
        INITIAL_DELAY_MS
    } else {
        let doubled = 2 * (spec_backoff_delay_ms(attempt - 1) as int);
        if doubled <= MAX_DELAY_MS as int {
            doubled as u64
        } else {
            MAX_DELAY_MS
        }
    }
}

/// What the pipeline decides when attempt number `attempt` (counted from 1)
/// produced `result`: a 2xx succeeds at once, a 401 fails at once, a 429 is
/// retried while attempts remain, every other status fails with its body,
/// and a transport failure is never retried.
pub open spec fn spec_next_step(attempt: int, result: AttemptResult) -> Step {
    match result {
        AttemptResult::TransportFailure { message } => Step::Done {
            outcome: Outcome::TransportFailed { message },
        },
        AttemptResult::Response { status, body } => {
            if is_success_status(status) {
                Step::Done { outcome: Outcome::Success { body } }
            } else if status == 401 {
                Step::Done { outcome: Outcome::AuthFailed }
            } else if status == 429 {
                if attempt < MAX_ATTEMPTS {
                    Step::Retry { delay_ms: spec_backoff_delay_ms(attempt) }
                } else {
                    Step::Done { outcome: Outcome::RateLimited }
                }
            } else {
                Step::Done { outcome: Outcome::OtherFailure { status, body } }
            }
        },
    }
}

/// The backoff delay waited after failed attempt number `attempt`.
pub fn backoff_delay_ms(attempt: u32) -> (d: u64)
    requires
        attempt >= 1,
    ensures
        d == spec_backoff_delay_ms(attempt as int),
{
    let mut k: u32 = 1;
    let mut d: u64 = INITIAL_DELAY_MS;
    while k < attempt
        invariant
            1 <= k <= attempt,
            d == spec_backoff_delay_ms(k as int),
        decreases attempt - k,
    {
        if d <= MAX_DELAY_MS / 2 {
            d = d * 2;
        } else {
            d = MAX_DELAY_MS;
        }
        k = k + 1;
    }
    d
}

/// Decide what follows attempt number `attempt` (counted from 1) once it
/// produced `result`.
pub fn next_step(attempt: u32, result: AttemptResult) -> (step: Step)
    requires
        1 <= attempt <= MAX_ATTEMPTS,
    ensures
        step == spec_next_step(attempt as int, result),
{
    match result {
        AttemptResult::TransportFailure { message } => Step::Done {
            outcome: Outcome::TransportFailed { message },
        },
        AttemptResult::Response { status, body } => {
            if 200 <= status && status < 300 {
                Step::Done { outcome: Outcome::Success { body } }
            } else if status == 401 {
                Step::Done { outcome: Outcome::AuthFailed }
            } else if status == 429 {
                if attempt < MAX_ATTEMPTS {
                    Step::Retry { delay_ms: backoff_delay_ms(attempt) }
                } else {
                    Step::Done { outcome: Outcome::RateLimited }
                }
            } else {
                Step::Done { outcome: Outcome::OtherFailure { status, body } }
            }
        },
    }
}

/// Map a classified outcome onto the error taxonomy: a success hands its
/// body through, everything else becomes the matching error.
pub fn outcome_to_result(outcome: Outcome) -> (r: Result<String, Error>)
    ensures
        outcome matches Outcome::Success { body } ==> (r matches Ok(b) && b == body),
        outcome is RateLimited ==> (r matches Err(e) && e is RateLimit),
        outcome is AuthFailed ==> (r matches Err(e) && e is AuthenticationFailed),
        outcome matches Outcome::OtherFailure { status, body } ==> (r matches Err(e)
            && e matches Error::UnexpectedResponse(m) && m == body),
        outcome matches Outcome::TransportFailed { message } ==> (r matches Err(e)
            && e matches Error::HttpClient(m) && m == message),
{
    match outcome {
        Outcome::Success { body } => Ok(body),
        Outcome::RateLimited => Err(Error::RateLimit),
        Outcome::AuthFailed => Err(Error::AuthenticationFailed),
        Outcome::OtherFailure { status: _, body } => Err(Error::UnexpectedResponse(body)),
        Outcome::TransportFailed { message } => Err(Error::HttpClient(message)),
    }
}

/// The body text used for a non-success response: the text that was read,
/// or a placeholder when reading it failed.
pub fn error_body_text(read: Option<String>) -> (t: String)
    ensures
        read matches Some(b) ==> t == b,
        read is None ==> t@ == "Unknown error"@,
{
    match read {
        Some(b) => b,
        None => "Unknown error".to_owned(),
    }
}

/// The outcome of a whole attempt sequence, starting at attempt number
/// `attempt`, when the attempts produce the results in `results`
/// (`results[k - 1]` belongs to attempt number `k`). `None` when the
/// sequence runs past the results given.
pub open spec fn spec_run_from(results: Seq<AttemptResult>, attempt: int) -> Option<Outcome>
    decreases MAX_ATTEMPTS as int - attempt,
{
    if attempt < 1 || attempt > results.len() {
        None
    } else {
        match spec_next_step(attempt, results[attempt - 1]) {
            Step::Done { outcome } => Some(outcome),
            Step::Retry { .. } => spec_run_from(results, attempt + 1),
        }
    }
}

/// Every backoff delay lies between the initial delay and the cap.
pub proof fn lemma_backoff_delay_bounds(attempt: int)
    ensures
        INITIAL_DELAY_MS <= spec_backoff_delay_ms(attempt) <= MAX_DELAY_MS,
    decreases attempt,
{
    if attempt > 1 {
        lemma_backoff_delay_bounds(attempt - 1);
    }
}

/// Consecutive backoff delays strictly increase until the cap is reached,
/// and stay at the cap afterwards.
pub proof fn lemma_backoff_delay_increases(attempt: int)
    requires
        attempt >= 1,
    ensures
        spec_backoff_delay_ms(attempt) < spec_backoff_delay_ms(attempt + 1)
            || (spec_backoff_delay_ms(attempt) == MAX_DELAY_MS
                && spec_backoff_delay_ms(attempt + 1) == MAX_DELAY_MS),
{
    lemma_backoff_delay_bounds(attempt);
}

/// A 401 yields `AuthFailed` at once, at any attempt: authentication
/// failures are never retried.
pub proof fn lemma_auth_failure_never_retried(attempt: int, body: String)
    ensures
        spec_next_step(attempt, (AttemptResult::Response { status: 401, body }))
            == (Step::Done { outcome: Outcome::AuthFailed }),
{
}

/// A success status at any attempt ends the sequence at once, carrying
/// the body through untouched.
pub proof fn lemma_success_short_circuits(attempt: int, status: u16, body: String)
    requires
        is_success_status(status),
    ensures
        spec_next_step(attempt, (AttemptResult::Response { status, body }))
            == (Step::Done { outcome: Outcome::Success { body } }),
{
}

/// A 429 is retried while attempts remain, waiting the backoff delay of
/// the failed attempt; on the final attempt it yields `RateLimited`.
pub proof fn lemma_rate_limit_retry(attempt: int, body: String)
    requires
        1 <= attempt <= MAX_ATTEMPTS,
    ensures
        attempt < MAX_ATTEMPTS ==> spec_next_step(
            attempt,
            (AttemptResult::Response { status: 429, body }),
        ) == (Step::Retry { delay_ms: spec_backoff_delay_ms(attempt) }),
        attempt == MAX_ATTEMPTS ==> spec_next_step(
            attempt,
            (AttemptResult::Response { status: 429, body }),
        ) == (Step::Done { outcome: Outcome::RateLimited }),
{
}

/// A sequence in which every attempt is answered 429 retries exactly
/// twice — with strictly increasing delays — and ends `RateLimited`.
pub proof fn lemma_exhausted_rate_limit(results: Seq<AttemptResult>)
    requires
        results.len() >= MAX_ATTEMPTS,
        forall|i: int|
            0 <= i < results.len() ==> ((#[trigger] results[i]) matches AttemptResult::Response {
                status,
                ..
            } && status == 429),
    ensures
        spec_run_from(results, 1) == Some(Outcome::RateLimited),
        spec_backoff_delay_ms(1) < spec_backoff_delay_ms(2),
{
    assert(spec_run_from(results, 3) == Some(Outcome::RateLimited));
    assert(spec_run_from(results, 2) == spec_run_from(results, 3));
    assert(spec_run_from(results, 1) == spec_run_from(results, 2));
}

/// If the first success arrives at attempt `k` after rate-limited
/// attempts alone, the sequence stops there with that attempt's body:
/// remaining attempts are never looked at.
pub proof fn lemma_success_at_attempt(results: Seq<AttemptResult>, k: int, status: u16, body: String)
    requires
        1 <= k <= MAX_ATTEMPTS,
        k <= results.len(),
        forall|i: int|
            0 <= i < k - 1 ==> ((#[trigger] results[i]) matches AttemptResult::Response {
                status,
                ..
            } && status == 429),
        results[k - 1] == (AttemptResult::Response { status, body }),
        is_success_status(status),
    ensures
        spec_run_from(results, 1) == Some(Outcome::Success { body }),
{
    if k == 2 {
        assert(spec_run_from(results, 1) == spec_run_from(results, 2));
    } else if k == 3 {
        assert(spec_run_from(results, 1) == spec_run_from(results, 2));
        assert(spec_run_from(results, 2) == spec_run_from(results, 3));
    }
}

} // verus!
