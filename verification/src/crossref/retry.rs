//! When a request is repeated, and when: the `Retry-After` hint of the
//! registry, the backoff of the client, and the later of the two.

use crate::time::{now, TimeSpan, Timestamp};
use reqwest_retry::policies::ExponentialBackoff;
use reqwest_retry::{default_on_request_failure, Jitter, RetryPolicy};
use std::time::{Duration, UNIX_EPOCH};
use vstd::prelude::*;
use vstd::string::StrSliceExecFns;

verus! {

/// How a failed attempt is classed.
#[derive(Debug, Clone, Copy, PartialEq, Eq, Structural)]
pub enum Retryable {
    /// The failure may pass: the request is worth repeating.
    Transient,
    /// The failure will not pass.
    Fatal,
}

/// What a retry policy decides after a failed attempt.
#[derive(Debug, Clone, Copy, PartialEq, Eq, Structural)]
pub enum RetryDecision {
    /// Repeat the request, not before `execute_after`.
    Retry { execute_after: Timestamp },
    /// Give up.
    DoNotRetry,
}

impl RetryDecision {
    /// The instant of a `Retry` is well formed.
    pub open spec fn wf(&self) -> bool {
        match *self {
            RetryDecision::Retry { execute_after } => execute_after.wf(),
            RetryDecision::DoNotRetry => true,
        }
    }
}

/// What of a response the retry rules read: its status code and the text of
/// its `Retry-After` header, where it has one.
#[derive(Debug, Clone, PartialEq)]
pub struct ResponseHead {
    /// The HTTP status code.
    pub status: u16,
    /// The value of the `Retry-After` header.
    pub retry_after: Option<String>,
}

/// The one slot in which the registry's latest `Retry-After` waits for the
/// next retry decision.
#[derive(Debug, Clone, Copy, PartialEq, Eq, Structural)]
pub struct RetryAfterState {
    /// The earliest instant at which the registry wants the next request.
    pub next_retry: Option<Timestamp>,
}

impl RetryAfterState {
    /// A pending instant is well formed.
    pub open spec fn wf(&self) -> bool {
        self.next_retry matches Some(t) ==> t.wf()
    }

    /// The pending instant, if there is one.
    pub open spec fn pending(&self) -> Option<Timestamp> {
        self.next_retry
    }

    /// A slot with nothing pending.
    pub fn new() -> (state: RetryAfterState)
        ensures
            state.pending() is None,
            state.wf(),
    {
        RetryAfterState { next_retry: None }
    }

    /// Stores `value`, in place of whatever was pending.
    pub fn set_retry_after(&mut self, value: Timestamp)
        ensures
            final(self).pending() == Some(value),
    {
        self.next_retry = Some(value);
    }

    /// Hands out what is pending and leaves the slot empty.
    pub fn take_retry_after(&mut self) -> (taken: Option<Timestamp>)
        ensures
            taken == old(self).pending(),
            final(self).pending() is None,
    {
        let taken = self.next_retry;
        self.next_retry = None;
        taken
    }
}

/// The later of two instants; `b` where they are the same.
pub open spec fn later_of(a: Timestamp, b: Timestamp) -> Timestamp {
    if a.as_nanos() > b.as_nanos() {
        a
    } else {
        b
    }
}

/// A backoff decision after the pending `Retry-After` had its say: a retry
/// waits for the later of the two instants, and giving up stays giving up.
pub open spec fn reconciled(decision: RetryDecision, pending: Option<Timestamp>) -> RetryDecision {
    match decision {
        RetryDecision::Retry { execute_after } => match pending {
            Some(hint) => RetryDecision::Retry { execute_after: later_of(hint, execute_after) },
            None => decision,
        },
        RetryDecision::DoNotRetry => RetryDecision::DoNotRetry,
    }
}

/// What is pending after a decision was reconciled: a retry uses the hint
/// up, giving up leaves it.
pub open spec fn pending_after_decision(
    decision: RetryDecision,
    pending: Option<Timestamp>,
) -> Option<Timestamp> {
    match decision {
        RetryDecision::Retry { .. } => None,
        RetryDecision::DoNotRetry => pending,
    }
}

/// Reconciles a backoff decision with the pending `Retry-After`: a retry is
/// put off to the later of the two instants and empties the slot.
pub fn reconcile(decision: RetryDecision, state: &mut RetryAfterState) -> (adjusted: RetryDecision)
    requires
        decision.wf(),
        old(state).wf(),
    ensures
        adjusted == reconciled(decision, old(state).pending()),
        final(state).pending() == pending_after_decision(decision, old(state).pending()),
        adjusted.wf(),
        final(state).wf(),
{
    match decision {
        RetryDecision::Retry { execute_after } => match state.take_retry_after() {
            Some(hint) => {
                if hint.is_after(&execute_after) {
                    RetryDecision::Retry { execute_after: hint }
                } else {
                    RetryDecision::Retry { execute_after }
                }
            },
            None => RetryDecision::Retry { execute_after },
        },
        RetryDecision::DoNotRetry => RetryDecision::DoNotRetry,
    }
}

/// A reconciled retry waits neither less than the backoff nor less than the
/// hint, and for no instant other than one of the two.
pub proof fn lemma_reconciled_is_the_later(execute_after: Timestamp, hint: Timestamp)
    ensures
        reconciled(RetryDecision::Retry { execute_after }, Some(hint)) matches RetryDecision::Retry {
            execute_after: at,
        } && at.as_nanos() >= execute_after.as_nanos() && at.as_nanos() >= hint.as_nanos() && (at
            == execute_after || at == hint),
{
}

/// A hint is applied once: after a retry decision nothing is pending, so
/// that the next decision is the backoff's own.
pub proof fn lemma_hint_is_read_once(
    first: RetryDecision,
    second: RetryDecision,
    pending: Option<Timestamp>,
)
    requires
        first is Retry,
    ensures
        reconciled(second, pending_after_decision(first, pending)) == second,
{
}

/// The bounds of an exponential backoff.
#[derive(Debug, Clone, Copy, PartialEq, Eq, Structural)]
pub struct RetryAfterPolicy {
    /// The wait before the first retry; it doubles from retry to retry.
    pub min_backoff: TimeSpan,
    /// The longest wait between two attempts.
    pub max_backoff: TimeSpan,
    /// Whether each wait is shortened by a random share.
    pub jitter: bool,
    /// The number of retries after which the policy gives up.
    pub max_retries: u32,
}

/// Bounds from which a backoff can be computed: two well-formed waits, the
/// shorter first, neither of more than `u32::MAX` seconds.
pub open spec fn usable_bounds(min_backoff: TimeSpan, max_backoff: TimeSpan) -> bool {
    &&& min_backoff.wf()
    &&& max_backoff.wf()
    &&& min_backoff.as_nanos() <= max_backoff.as_nanos()
    &&& max_backoff.secs <= u32::MAX
}

impl RetryAfterPolicy {
    /// The bounds are usable.
    pub open spec fn wf(&self) -> bool {
        usable_bounds(self.min_backoff, self.max_backoff)
    }

    /// A policy with the given bounds, where they are usable.
    pub fn new(min_backoff: TimeSpan, max_backoff: TimeSpan, jitter: bool, max_retries: u32) -> (policy:
        Option<RetryAfterPolicy>)
        ensures
            match policy {
                Some(p) => usable_bounds(min_backoff, max_backoff) && p == (RetryAfterPolicy {
                    min_backoff,
                    max_backoff,
                    jitter,
                    max_retries,
                }),
                None => !usable_bounds(min_backoff, max_backoff),
            },
    {
        if min_backoff.nanos < crate::time::NANOS_PER_SEC && max_backoff.nanos
            < crate::time::NANOS_PER_SEC && max_backoff.secs <= 0xffff_ffff && min_backoff.at_most(
            &max_backoff,
        ) {
            Some(RetryAfterPolicy { min_backoff, max_backoff, jitter, max_retries })
        } else {
            None
        }
    }

    /// `ExponentialBackoff::should_retry` of `retry-policies`, as
    /// `reqwest-retry` hands it on, for a backoff built from these bounds
    /// with `retry_bounds`, `jitter` (full or none) and
    /// `build_with_max_retries`. The wait depends on the clock and on chance,
    /// so all that is stated is when the policy gives up: when
    /// `n_past_retries` has reached `max_retries`. An instant before the
    /// epoch is given as the epoch.
    #[verifier::external_body]
    fn backoff_decision(&self, request_start_time: Timestamp, n_past_retries: u32) -> (decision:
        RetryDecision)
        requires
            self.wf(),
            request_start_time.wf(),
        ensures
            decision is DoNotRetry <==> n_past_retries >= self.max_retries,
            decision.wf(),
    {
        let (low, high, since) = (self.min_backoff, self.max_backoff, request_start_time);
        let backoff = ExponentialBackoff::builder()
            .retry_bounds(Duration::new(low.secs, low.nanos), Duration::new(high.secs, high.nanos))
            .jitter(if self.jitter { Jitter::Full } else { Jitter::None })
            .build_with_max_retries(self.max_retries);
        let started = UNIX_EPOCH.checked_add(Duration::new(since.secs, since.nanos));
        match backoff.should_retry(started.unwrap_or(UNIX_EPOCH), n_past_retries) {
            reqwest_retry::RetryDecision::Retry { execute_after } => {
                let at = execute_after.duration_since(UNIX_EPOCH).unwrap_or_default();
                RetryDecision::Retry { execute_after: Timestamp { secs: at.as_secs(), nanos: at.subsec_nanos() } }
            },
            reqwest_retry::RetryDecision::DoNotRetry => RetryDecision::DoNotRetry,
        }
    }

    /// Decides whether to retry, and when: the backoff decides, and a pending
    /// `Retry-After` puts a retry off to the later of the two instants.
    ///
    /// The decision is some decision of the backoff, reconciled with what
    /// was pending. So the policy gives up exactly when `n_past_retries` has
    /// reached `max_retries`, and then leaves the slot as it is; and a retry
    /// empties the slot and waits at least until the instant that was
    /// pending.
    pub fn should_retry(
        &self,
        state: &mut RetryAfterState,
        request_start_time: Timestamp,
        n_past_retries: u32,
    ) -> (decision: RetryDecision)
        requires
            self.wf(),
            old(state).wf(),
            request_start_time.wf(),
        ensures
            exists|backoff: RetryDecision|
                {
                    &&& backoff.wf()
                    &&& backoff is DoNotRetry <==> n_past_retries >= self.max_retries
                    &&& decision == #[trigger] reconciled(backoff, old(state).pending())
                    &&& final(state).pending() == pending_after_decision(
                        backoff,
                        old(state).pending(),
                    )
                },
            decision is DoNotRetry <==> n_past_retries >= self.max_retries,
            decision is DoNotRetry ==> final(state).pending() == old(state).pending(),
            decision is Retry ==> final(state).pending() is None,
            decision matches RetryDecision::Retry { execute_after } ==> (old(state).pending() matches Some(
                hint,
            ) ==> execute_after.as_nanos() >= hint.as_nanos()),
            decision.wf(),
            final(state).wf(),
    {
        let backoff = self.backoff_decision(request_start_time, n_past_retries);
        reconcile(backoff, state)
    }
}

/// The class of a response by its status: 429 and the server errors 500 to
/// 599 are worth a retry, and no other status is.
pub open spec fn retry_class(status: u16) -> Option<Retryable> {
    if status == 429 || (500 <= status < 600) {
        Some(Retryable::Transient)
    } else {
        None
    }
}

/// Computes [`retry_class`].
pub fn classify_status(status: u16) -> (class: Option<Retryable>)
    ensures
        class == retry_class(status),
{
    if status == 429 || (500 <= status && status < 600) {
        Some(Retryable::Transient)
    } else {
        None
    }
}

/// An ASCII decimal digit.
pub open spec fn is_digit(c: char) -> bool {
    '0' <= c && c <= '9'
}

/// The number that the decimal digits `digits` spell.
pub open spec fn digits_value(digits: Seq<char>) -> nat
    decreases digits.len(),
{
    if digits.len() == 0 {
        0
    } else {
        10 * digits_value(digits.drop_last()) + ((digits.last() as u8) - 0x30) as nat
    }
}

/// The digits of a number of seconds: `text` without one leading `+`.
pub open spec fn seconds_digits(text: Seq<char>) -> Seq<char> {
    if text.len() > 0 && text[0] == '+' {
        text.skip(1)
    } else {
        text
    }
}

/// The number of seconds that `text` spells: one or more decimal digits, a
/// `+` before them at most, and a value that fits into 64 bits.
pub open spec fn seconds_in(text: Seq<char>) -> Option<u64> {
    let digits = seconds_digits(text);
    if digits.len() > 0 && (forall|i: int| 0 <= i < digits.len() ==> is_digit(#[trigger] digits[i]))
        && digits_value(digits) <= u64::MAX {
        Some(digits_value(digits) as u64)
    } else {
        None
    }
}

/// Reads a number of seconds, as [`seconds_in`] defines it.
pub fn parse_seconds(text: &str) -> (seconds: Option<u64>)
    ensures
        seconds == seconds_in(text@),
{
    let total: usize = text.unicode_len();
    let ghost digits = seconds_digits(text@);
    let ghost skipped: int = text@.len() - digits.len();
    let mut value: u64 = 0;
    let mut fits = true;
    let mut plain = true;
    let mut count: usize = 0;
    let mut seen: usize = 0;
    for c in it: text.chars()
        invariant
            seen == it.index(),
            it.seq() == text@,
            total == text@.len(),
            digits == seconds_digits(text@),
            skipped == text@.len() - digits.len(),
            0 <= skipped <= 1,
            count == (if seen >= skipped { seen - skipped } else { 0 }),
            plain == (forall|i: int| 0 <= i < count ==> is_digit(#[trigger] digits[i])),
            plain && fits ==> value == digits_value(digits.take(count as int)),
            plain && !fits ==> digits_value(digits.take(count as int)) > u64::MAX,
    {
        if seen == 0 && c == '+' {
            assert(skipped == 1);
        } else {
            assert(seen >= skipped);
            assert(c == digits[count as int]);
            proof {
                assert(digits.take(count + 1).drop_last() =~= digits.take(count as int));
                assert(digits.take(count + 1).last() == c);
            }
            if '0' <= c && c <= '9' {
                if fits {
                    let digit: u64 = ((c as u8) - 0x30) as u64;
                    match value.checked_mul(10) {
                        Some(tens) => match tens.checked_add(digit) {
                            Some(sum) => {
                                value = sum;
                            },
                            None => {
                                fits = false;
                            },
                        },
                        None => {
                            fits = false;
                        },
                    }
                }
            } else {
                plain = false;
            }
            count = count + 1;
        }
        seen = seen + 1;
    }
    proof {
        assert(digits.take(count as int) =~= digits);
    }
    if count > 0 && plain && fits {
        Some(value)
    } else {
        None
    }
}

/// The instant that `httpdate::parse_http_date` reads out of `text`, in
/// whole seconds since the Unix epoch; `None` where it reads no date.
pub uninterp spec fn http_date_seconds(text: Seq<char>) -> Option<u64>;

/// `parse_http_date` of the `httpdate` crate: the instant that an HTTP date
/// names. The crate builds that instant from whole seconds after the epoch,
/// so it has no nanoseconds; which instant it is, the contract only names.
#[verifier::external_body]
pub(crate) fn http_date(text: &str) -> (instant: Option<Timestamp>)
    ensures
        match instant {
            Some(t) => http_date_seconds(text@) == Some(t.secs) && t.nanos == 0,
            None => http_date_seconds(text@) is None,
        },
{
    match httpdate::parse_http_date(text) {
        Ok(at) => {
            let since = at.duration_since(UNIX_EPOCH).unwrap_or_default();
            Some(Timestamp { secs: since.as_secs(), nanos: since.subsec_nanos() })
        },
        Err(_) => None,
    }
}

/// The instant that a `Retry-After` value names at the instant `now`: so
/// many seconds after `now` where the value is a number of seconds, unless
/// that instant no longer fits; else the HTTP date that the value spells.
pub open spec fn retry_after_at(header: Seq<char>, now: Timestamp) -> Option<Timestamp> {
    match seconds_in(header) {
        Some(secs) => if now.secs + secs <= u64::MAX {
            Some(Timestamp { secs: (now.secs + secs) as u64, nanos: now.nanos })
        } else {
            None
        },
        None => match http_date_seconds(header) {
            Some(secs) => Some(Timestamp { secs, nanos: 0 }),
            None => None,
        },
    }
}

/// Reads a `Retry-After` value at the instant `now`.
pub fn parse_retry_after_at(header: &str, now: Timestamp) -> (instant: Option<Timestamp>)
    requires
        now.wf(),
    ensures
        instant == retry_after_at(header@, now),
        instant matches Some(t) ==> t.wf(),
{
    match parse_seconds(header) {
        Some(secs) => now.checked_add_secs(secs),
        None => http_date(header),
    }
}

/// Reads a `Retry-After` value at the present instant.
pub fn parse_retry_after(header: &str) -> (instant: Option<Timestamp>)
    ensures
        exists|at: Timestamp| at.wf() && instant == retry_after_at(header@, at),
        instant matches Some(t) ==> t.wf(),
{
    let at = now();
    parse_retry_after_at(header, at)
}

/// What is pending once the response `head` came in at the instant `now`:
/// the instant that the `Retry-After` of a 429 names, and otherwise what was
/// pending before.
pub open spec fn pending_after_response(
    pending: Option<Timestamp>,
    head: ResponseHead,
    now: Timestamp,
) -> Option<Timestamp> {
    match head.retry_after {
        Some(header) => if head.status == 429 && retry_after_at(header@, now) is Some {
            retry_after_at(header@, now)
        } else {
            pending
        },
        None => pending,
    }
}

/// `default_on_request_failure` of `reqwest-retry`: how the transport
/// classes one of its own failures. Nothing is stated of the result.
#[verifier::external_body]
pub(crate) fn transport_failure_class(error: &reqwest_middleware::Error) -> (class: Option<Retryable>) {
    match default_on_request_failure(error) {
        Some(reqwest_retry::Retryable::Transient) => Some(Retryable::Transient),
        Some(reqwest_retry::Retryable::Fatal) => Some(Retryable::Fatal),
        None => None,
    }
}

/// The rule by which an attempt is classed as worth repeating.
#[derive(Debug, Clone, Copy, PartialEq, Eq, Structural)]
pub struct RetryAfterStrategy {}

impl RetryAfterStrategy {
    /// The strategy.
    pub fn new() -> (strategy: RetryAfterStrategy)
        ensures
            strategy == (RetryAfterStrategy {  }),
    {
        RetryAfterStrategy {  }
    }

    /// Classes the response `head` that came in at the instant `now`, and
    /// records the `Retry-After` of a 429 in the slot.
    pub fn on_response(&self, state: &mut RetryAfterState, head: &ResponseHead, now: Timestamp) -> (class:
        Option<Retryable>)
        requires
            old(state).wf(),
            now.wf(),
        ensures
            class == retry_class(head.status),
            final(state).pending() == pending_after_response(old(state).pending(), *head, now),
            final(state).wf(),
    {
        if head.status == 429 {
            match &head.retry_after {
                Some(header) => match parse_retry_after_at(header.as_str(), now) {
                    Some(instant) => {
                        state.set_retry_after(instant);
                    },
                    None => {},
                },
                None => {},
            }
        }
        classify_status(head.status)
    }

    /// Classes one attempt: a response by its status, with the
    /// `Retry-After` of a 429 recorded as of the present instant, and a
    /// failure of the transport as the transport itself classes it, which
    /// leaves the slot alone.
    pub fn handle(
        &self,
        state: &mut RetryAfterState,
        attempt: Result<&ResponseHead, &reqwest_middleware::Error>,
    ) -> (class: Option<Retryable>)
        requires
            old(state).wf(),
        ensures
            final(state).wf(),
            match attempt {
                Ok(head) => class == retry_class(head.status) && exists|at: Timestamp|
                    at.wf() && final(state).pending() == pending_after_response(
                        old(state).pending(),
                        *head,
                        at,
                    ),
                Err(_) => final(state).pending() == old(state).pending(),
            },
    {
        match attempt {
            Ok(head) => {
                let at = now();
                self.on_response(state, head, at)
            },
            Err(error) => transport_failure_class(error),
        }
    }
}

/// The error with which the middleware stack of `reqwest-middleware` fails.
#[verifier::external_type_specification]
#[verifier::external_body]
pub struct ExMiddlewareError(reqwest_middleware::Error);

} // verus!
