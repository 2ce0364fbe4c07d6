//! The retry engine: which failures are worth another attempt, and how long
//! to wait before it.

use crate::text::{
    all_digits, chars_of, contains, contains_str, decimal_value, find_from, find_word, first_match,
    is_space, lemma_first_match, lemma_skip_spaces, lemma_word_end, lowercase, matches_at,
    parse_u64,
    parse_u64_chars, skip_spaces, to_lowercase, word_at, word_end,
};
use rand::Rng;
use vstd::prelude::*;

verus! {

/// How often a failed call is tried again before its error is surfaced.
pub const MAX_RETRIES: u32 = 3;

/// The delay before the first retry of a transient failure, in milliseconds.
pub const BASE_DELAY_MS: u64 = 1000;

/// The longest exponential delay, in milliseconds.
pub const MAX_BACKOFF_MS: u64 = 30_000;

/// The jitter added to an exponential delay lies below this, in milliseconds.
pub const JITTER_SPAN_MS: u64 = 500;

/// The wait after a rate limit that names no delay, in seconds.
pub const RATE_LIMIT_FALLBACK_SECS: u64 = 60;

/// What the transport layer reported of a failed request.
#[derive(Clone, Copy, Debug, PartialEq, Eq)]
pub struct TransportFailure {
    pub connect: bool,
    pub timeout: bool,
    pub request: bool,
}

/// A failed call: its message and, where the transport layer produced the
/// failure, what it reported.
#[derive(Clone, Debug)]
pub struct CallError {
    pub message: String,
    pub transport: Option<TransportFailure>,
}

/// The verdict on a failed call.
#[derive(Clone, Copy, Debug, PartialEq, Eq)]
pub enum RetryDecision {
    /// Try again after this many milliseconds.
    Retry { delay_ms: u128 },
    /// Give up: the failure is not retryable.
    Fail,
}

/// Two to the power `n`.
pub open spec fn pow2(n: nat) -> nat
    decreases n,
{
    if n == 0 {
        1
    } else {
        2 * pow2((n - 1) as nat)
    }
}

/// The exponential delay for retry number `attempt` with the given jitter:
/// the base delay doubled `attempt` times, plus the jitter, capped.
pub open spec fn backoff_millis(attempt: nat, jitter: nat) -> nat {
    let raw = BASE_DELAY_MS as nat * pow2(attempt) + jitter;
    if raw < MAX_BACKOFF_MS as nat {
        raw
    } else {
        MAX_BACKOFF_MS as nat
    }
}

pub proof fn lemma_pow2_values()
    ensures
        pow2(0) == 1,
        pow2(1) == 2,
        pow2(2) == 4,
        pow2(3) == 8,
        pow2(4) == 16,
        pow2(5) == 32,
{
    reveal_with_fuel(pow2, 6);
}

pub proof fn lemma_pow2_grows(a: nat, b: nat)
    requires
        a <= b,
    ensures
        pow2(a) <= pow2(b),
    decreases b - a,
{
    if a < b {
        lemma_pow2_grows(a, (b - 1) as nat);
    }
}

/// Over the first five attempts the delay grows strictly from one attempt
/// to a later one, whatever jitter each of them draws.
pub proof fn lemma_backoff_strictly_increasing(a: nat, b: nat, jitter_a: nat, jitter_b: nat)
    requires
        a < b <= 4,
        jitter_a < JITTER_SPAN_MS,
        jitter_b < JITTER_SPAN_MS,
    ensures
        backoff_millis(a, jitter_a) < backoff_millis(b, jitter_b),
{
    lemma_pow2_values();
}

/// No delay exceeds the cap, and from the sixth attempt on every delay is
/// the cap itself, whatever the jitter.
pub proof fn lemma_backoff_capped(attempt: nat, jitter: nat)
    ensures
        backoff_millis(attempt, jitter) <= MAX_BACKOFF_MS,
        attempt >= 5 ==> backoff_millis(attempt, jitter) == MAX_BACKOFF_MS,
{
    if attempt >= 5 {
        lemma_pow2_values();
        lemma_pow2_grows(5, attempt);
        assert(BASE_DELAY_MS as nat * pow2(attempt) >= 32_000) by (nonlinear_arith)
            requires
                pow2(attempt) >= 32,
                BASE_DELAY_MS == 1000,
        ;
    }
}

/// The exponential delay for retry number `attempt` with the given jitter,
/// in milliseconds.
pub fn backoff_with_jitter(attempt: u32, jitter: u64) -> (delay: u64)
    ensures
        delay == backoff_millis(attempt as nat, jitter as nat),
{
    proof {
        lemma_pow2_values();
        lemma_backoff_capped(attempt as nat, jitter as nat);
    }
    if attempt >= 5 {
        return MAX_BACKOFF_MS;
    }
    let factor: u64 = if attempt == 0 {
        1
    } else if attempt == 1 {
        2
    } else if attempt == 2 {
        4
    } else if attempt == 3 {
        8
    } else {
        16
    };
    let exponential: u64 = BASE_DELAY_MS * factor;
    if jitter >= MAX_BACKOFF_MS - exponential {
        MAX_BACKOFF_MS
    } else {
        exponential + jitter
    }
}

/// Draws a number below `bound` with `rand::Rng::gen_range` on the thread's
/// generator. The contract states the range that the call documents.
#[verifier::external_body]
fn random_below(bound: u64) -> (r: u64)
    requires
        bound > 0,
    ensures
        r < bound,
{
    rand::thread_rng().gen_range(0..bound)
}

/// The exponential delay for retry number `attempt`, in milliseconds, with
/// a freshly drawn jitter.
pub fn calculate_backoff(attempt: u32) -> (delay: u64)
    ensures
        exists|jitter: nat|
            jitter < JITTER_SPAN_MS && delay == backoff_millis(attempt as nat, jitter),
        delay <= MAX_BACKOFF_MS,
{
    let jitter = random_below(JITTER_SPAN_MS);
    proof {
        lemma_backoff_capped(attempt as nat, jitter as nat);
    }
    backoff_with_jitter(attempt, jitter)
}

/// The text that announces a delay in seconds.
pub open spec fn retry_after_prefix() -> Seq<char> {
    "retry_after:"@
}

/// The delay in seconds that `msg` announces: the number that the first
/// word after the first `retry_after:` denotes. `None` when the marker is
/// missing, nothing follows it, or the word is no number.
pub open spec fn retry_after_hint(msg: Seq<char>) -> Option<u64> {
    match first_match(msg, retry_after_prefix(), 0) {
        None => None,
        Some(pos) => match word_at(msg, pos + retry_after_prefix().len()) {
            None => None,
            Some(word) => parse_u64(word),
        },
    }
}

/// Extracts the delay in seconds that an error message announces.
pub fn parse_retry_after(msg: &str) -> (r: Option<u64>)
    ensures
        r == retry_after_hint(msg@),
{
    let chars = chars_of(msg);
    let prefix = chars_of("retry_after:");
    proof {
        lemma_first_match(chars@, prefix@, 0);
    }
    match find_from(&chars, &prefix, 0) {
        None => None,
        Some(pos) => match find_word(&chars, pos + prefix.len()) {
            None => None,
            Some(word) => parse_u64_chars(&word),
        },
    }
}

/// A message that holds the marker, then a digit string that fits in 64
/// bits, then nothing or a space, announces the number that the digits
/// denote, provided the marker does not occur earlier.
pub proof fn lemma_hint_reads_number(before: Seq<char>, digits: Seq<char>, after: Seq<char>)
    requires
        digits.len() > 0,
        all_digits(digits),
        decimal_value(digits) <= u64::MAX,
        after.len() == 0 || is_space(after[0]),
        first_match(before + retry_after_prefix() + digits + after, retry_after_prefix(), 0)
            == Some(before.len() as int),
    ensures
        retry_after_hint(before + retry_after_prefix() + digits + after) == Some(
            decimal_value(digits) as u64,
        ),
{
    let msg = before + retry_after_prefix() + digits + after;
    let start: int = (before.len() + retry_after_prefix().len()) as int;
    assert forall|j: int| 0 <= j < digits.len() implies #[trigger] msg[start + j] == digits[j]
        && !is_space(msg[start + j]) by {
        assert(crate::text::is_digit(digits[j]));
    }
    lemma_skip_spaces(msg, start);
    assert(!is_space(msg[start + 0]));
    assert(skip_spaces(msg, start) == start);
    lemma_word_end(msg, start);
    let end = word_end(msg, start);
    if end < start + digits.len() {
        assert(!is_space(msg[start + (end - start)]));
    }
    if end > start + digits.len() {
        assert(msg[start + digits.len()] == after[0]);
    }
    assert(end == start + digits.len());
    assert(msg.subrange(start, end) =~= digits);
    assert(digits[0] != '+') by {
        assert(crate::text::is_digit(digits[0]));
    }
}

/// The message carries a rate-limit marker.
pub open spec fn is_rate_limit_text(msg: Seq<char>) -> bool {
    contains(msg, "429"@) || contains(msg, "rate_limited"@)
}

/// The text `low`, which is in lower case, names a transient network
/// condition: it holds `connection`, `timeout`, `timed out`, `reset` or
/// `eof`.
pub open spec fn names_transient(low: Seq<char>) -> bool {
    ||| contains(low, "connection"@)
    ||| contains(low, "timeout"@)
    ||| contains(low, "timed out"@)
    ||| contains(low, "reset"@)
    ||| contains(low, "eof"@)
}

/// The message reads like a transient network condition, in whatever
/// case it is written.
pub open spec fn is_transient_text(msg: Seq<char>) -> bool {
    names_transient(lowercase(msg))
}

/// Whether a message that was brought to lower case names a transient
/// network condition.
pub fn is_transient_lowered(low: &str) -> (r: bool)
    ensures
        r == names_transient(low@),
{
    let chars = chars_of(low);
    contains_str(&chars, "connection") || contains_str(&chars, "timeout") || contains_str(
        &chars,
        "timed out",
    ) || contains_str(&chars, "reset") || contains_str(&chars, "eof")
}

/// The failure is a transient network condition. What the transport layer
/// reported decides where it reported anything; else the message does.
pub open spec fn is_transient(error: CallError) -> bool {
    match error.transport {
        Some(t) => t.connect || t.timeout || t.request,
        None => is_transient_text(error.message@),
    }
}

/// The verdict on `error` at retry number `attempt`, with the jitter that
/// an exponential delay would use.
pub open spec fn decision(error: CallError, attempt: nat, jitter: nat) -> RetryDecision {
    if is_rate_limit_text(error.message@) {
        match retry_after_hint(error.message@) {
            Some(secs) => RetryDecision::Retry { delay_ms: (secs as nat * 1000) as u128 },
            None => RetryDecision::Retry {
                delay_ms: (RATE_LIMIT_FALLBACK_SECS as nat * 1000) as u128,
            },
        }
    } else if is_transient(error) {
        RetryDecision::Retry { delay_ms: backoff_millis(attempt, jitter) as u128 }
    } else {
        RetryDecision::Fail
    }
}

/// Whether a failure is a transient network condition.
pub fn is_transient_network_error(error: &CallError) -> (r: bool)
    ensures
        r == is_transient(*error),
{
    match error.transport {
        Some(t) => t.connect || t.timeout || t.request,
        None => {
            let low = to_lowercase(error.message.as_str());
            is_transient_lowered(low.as_str())
        },
    }
}

/// Decides on `error` at retry number `attempt`, with `jitter` for an
/// exponential delay.
pub fn retry_decision_with_jitter(error: &CallError, attempt: u32, jitter: u64) -> (r:
    RetryDecision)
    ensures
        r == decision(*error, attempt as nat, jitter as nat),
{
    let chars = chars_of(error.message.as_str());
    if contains_str(&chars, "429") || contains_str(&chars, "rate_limited") {
        match parse_retry_after(error.message.as_str()) {
            Some(secs) => {
                let wide: u128 = secs as u128;
                RetryDecision::Retry { delay_ms: wide * 1000 }
            },
            None => {
                let wide: u128 = RATE_LIMIT_FALLBACK_SECS as u128;
                RetryDecision::Retry { delay_ms: wide * 1000 }
            },
        }
    } else if is_transient_network_error(error) {
        proof {
            lemma_backoff_capped(attempt as nat, jitter as nat);
        }
        RetryDecision::Retry { delay_ms: backoff_with_jitter(attempt, jitter) as u128 }
    } else {
        RetryDecision::Fail
    }
}

/// Decides on `error` at retry number `attempt`, drawing the jitter of an
/// exponential delay itself.
pub fn retry_decision(error: &CallError, attempt: u32) -> (r: RetryDecision)
    ensures
        exists|jitter: nat|
            jitter < JITTER_SPAN_MS && r == decision(*error, attempt as nat, jitter),
{
    let jitter = random_below(JITTER_SPAN_MS);
    retry_decision_with_jitter(error, attempt, jitter)
}

/// A rate-limited failure that names no delay waits for the fallback, and
/// one that names a delay waits for exactly that many seconds, at every
/// attempt and whatever the jitter.
pub proof fn lemma_rate_limit_delay(error: CallError, attempt: nat, jitter: nat)
    requires
        is_rate_limit_text(error.message@),
    ensures
        retry_after_hint(error.message@) is None ==> decision(error, attempt, jitter)
            == (RetryDecision::Retry { delay_ms: 60_000 }),
        forall|secs: u64|
            retry_after_hint(error.message@) == Some(secs) ==> decision(error, attempt, jitter)
                == (RetryDecision::Retry { delay_ms: (secs * 1000) as u128 }),
{
}


/// A failure whose message is the bare rate-limit marker waits for the
/// fallback and is tried again, at every attempt and whatever the jitter.
pub proof fn lemma_bare_marker_is_retried(error: CallError, attempt: nat, jitter: nat)
    requires
        error.message@ == "429"@,
    ensures
        decision(error, attempt, jitter) == (RetryDecision::Retry { delay_ms: 60_000 }),
{
    reveal_strlit("429");
    reveal_strlit("retry_after:");
    let msg = error.message@;
    assert(msg.subrange(0, 3) =~= msg);
    assert(matches_at(msg, "429"@, 0));
    lemma_first_match(msg, retry_after_prefix(), 0);
}

/// Progress of one retried call: how many retries it has used up.
#[derive(Clone, Copy, Debug, PartialEq, Eq)]
pub struct RetryState {
    pub attempts: u32,
}

/// What the caller of a retried call does next.
#[derive(Debug)]
pub enum RetryStep<T> {
    /// The call succeeded with this value.
    Done(T),
    /// The call failed for good with this error.
    GiveUp(CallError),
    /// Sleep for `delay_ms` milliseconds, call again, and report the
    /// outcome to `next`.
    Wait { delay_ms: u128, next: RetryState },
}

/// The step that follows `outcome` in state `state`, with the jitter that
/// an exponential delay would use.
pub open spec fn step<T>(state: RetryState, outcome: Result<T, CallError>, jitter: nat)
    -> RetryStep<T> {
    match outcome {
        Ok(value) => RetryStep::Done(value),
        Err(error) => if state.attempts >= MAX_RETRIES {
            RetryStep::GiveUp(error)
        } else {
            match decision(error, state.attempts as nat, jitter) {
                RetryDecision::Fail => RetryStep::GiveUp(error),
                RetryDecision::Retry { delay_ms } => RetryStep::Wait {
                    delay_ms,
                    next: RetryState { attempts: (state.attempts + 1) as u32 },
                },
            }
        },
    }
}

/// A retried call played against a script: the operation's invocations
/// yield `outcomes` in order, and the wait after retry number `k` draws the
/// jitter `jitter(k)`. The result is how the call ended (`None` where the
/// script ran out first) and how many invocations were made.
pub open spec fn run<T>(
    state: RetryState,
    outcomes: Seq<Result<T, CallError>>,
    jitter: spec_fn(nat) -> nat,
) -> (Option<Result<T, CallError>>, nat)
    decreases outcomes.len(),
{
    if outcomes.len() == 0 {
        (None, 0)
    } else {
        match step(state, outcomes[0], jitter(state.attempts as nat)) {
            RetryStep::Done(value) => (Some(Ok(value)), 1),
            RetryStep::GiveUp(error) => (Some(Err(error)), 1),
            RetryStep::Wait { delay_ms, next } => {
                let rest = run(next, outcomes.skip(1), jitter);
                (rest.0, rest.1 + 1)
            },
        }
    }
}

impl RetryState {
    /// The state before the first invocation.
    pub fn start() -> (state: RetryState)
        ensures
            state.attempts == 0,
    {
        RetryState { attempts: 0 }
    }

    /// Takes the outcome of one invocation and says what to do next. A
    /// success ends the call. A failure ends it when the retries are used
    /// up or the failure is not retryable; else the caller waits and
    /// invokes again.
    pub fn on_outcome<T>(self, outcome: Result<T, CallError>) -> (r: RetryStep<T>)
        ensures
            exists|jitter: nat| jitter < JITTER_SPAN_MS && r == step(self, outcome, jitter),
    {
        match outcome {
            Ok(value) => {
                assert(RetryStep::Done(value) == step(self, outcome, 0));
                RetryStep::Done(value)
            },
            Err(error) => {
                if self.attempts >= MAX_RETRIES {
                    assert(RetryStep::<T>::GiveUp(error) == step(self, outcome, 0));
                    RetryStep::GiveUp(error)
                } else {
                    let verdict = retry_decision(&error, self.attempts);
                    let ghost jitter = choose|jitter: nat|
                        jitter < JITTER_SPAN_MS && verdict == decision(
                            error,
                            self.attempts as nat,
                            jitter,
                        );
                    match verdict {
                        RetryDecision::Fail => {
                            assert(RetryStep::<T>::GiveUp(error) == step(self, outcome, jitter));
                            RetryStep::GiveUp(error)
                        },
                        RetryDecision::Retry { delay_ms } => {
                            let next = RetryState { attempts: self.attempts + 1 };
                            assert(RetryStep::<T>::Wait { delay_ms, next } == step(
                                self,
                                outcome,
                                jitter,
                            ));
                            RetryStep::Wait { delay_ms, next }
                        },
                    }
                }
            },
        }
    }
}

/// A call whose first two invocations fail with retryable errors and whose
/// third succeeds ends with the success value after exactly three
/// invocations.
pub proof fn lemma_succeeds_on_third_invocation<T>(
    first: CallError,
    second: CallError,
    value: T,
    rest: Seq<Result<T, CallError>>,
    jitter: spec_fn(nat) -> nat,
)
    requires
        decision(first, 0, jitter(0)) is Retry,
        decision(second, 1, jitter(1)) is Retry,
    ensures
        run(RetryState { attempts: 0 }, seq![Err(first), Err(second), Ok(value)] + rest, jitter)
            == (Some(Ok::<T, CallError>(value)), 3nat),
{
    let script = seq![Err(first), Err(second), Ok(value)] + rest;
    let s1 = RetryState { attempts: 1 };
    let s2 = RetryState { attempts: 2 };
    assert(script[0] == Err::<T, CallError>(first));
    assert(script.skip(1)[0] == Err::<T, CallError>(second));
    assert(script.skip(1).skip(1)[0] == Ok::<T, CallError>(value));
    assert(run(s2, script.skip(1).skip(1), jitter) == (Some(Ok::<T, CallError>(value)), 1nat));
    assert(run(s1, script.skip(1), jitter) == (Some(Ok::<T, CallError>(value)), 2nat));
}

/// A call whose first invocation fails with an error that is not retryable
/// ends with that error after exactly one invocation.
pub proof fn lemma_fails_without_second_invocation<T>(
    error: CallError,
    rest: Seq<Result<T, CallError>>,
    jitter: spec_fn(nat) -> nat,
)
    requires
        decision(error, 0, jitter(0)) is Fail,
    ensures
        run(RetryState { attempts: 0 }, seq![Err::<T, CallError>(error)] + rest, jitter) == (
            Some(Err::<T, CallError>(error)),
            1nat,
        ),
{
    let script = seq![Err::<T, CallError>(error)] + rest;
    assert(script[0] == Err::<T, CallError>(error));
}

/// However the invocations end, a call in state `state` makes at most one
/// invocation more than it has retries left.
pub proof fn lemma_invocations_bounded<T>(
    state: RetryState,
    outcomes: Seq<Result<T, CallError>>,
    jitter: spec_fn(nat) -> nat,
)
    requires
        state.attempts <= MAX_RETRIES,
    ensures
        run(state, outcomes, jitter).1 <= MAX_RETRIES - state.attempts + 1,
    decreases outcomes.len(),
{
    if outcomes.len() > 0 {
        match step(state, outcomes[0], jitter(state.attempts as nat)) {
            RetryStep::Wait { delay_ms, next } => {
                lemma_invocations_bounded(next, outcomes.skip(1), jitter);
            },
            _ => {},
        }
    }
}

} // verus!
