//! Instants and lengths of time as whole seconds and nanoseconds.

use std::time::{SystemTime, UNIX_EPOCH};
use vstd::prelude::*;

verus! {

/// The number of nanoseconds in a second.
pub const NANOS_PER_SEC: u32 = 1_000_000_000;

/// A length of time.
#[derive(Debug, Clone, Copy, PartialEq, Eq, Structural)]
pub struct TimeSpan {
    /// Whole seconds.
    pub secs: u64,
    /// The rest, in nanoseconds: below [`NANOS_PER_SEC`].
    pub nanos: u32,
}

impl TimeSpan {
    /// The nanoseconds are less than a second.
    pub open spec fn wf(&self) -> bool {
        self.nanos < NANOS_PER_SEC
    }

    /// The length in nanoseconds.
    pub open spec fn as_nanos(&self) -> int {
        self.secs * (NANOS_PER_SEC as int) + self.nanos
    }

    /// A length of `secs` whole seconds.
    pub fn from_secs(secs: u64) -> (span: TimeSpan)
        ensures
            span == (TimeSpan { secs, nanos: 0 }),
            span.wf(),
    {
        TimeSpan { secs, nanos: 0 }
    }

    /// Whether `self` is no longer than `other`.
    pub fn at_most(&self, other: &TimeSpan) -> (r: bool)
        requires
            self.wf(),
            other.wf(),
        ensures
            r == (self.as_nanos() <= other.as_nanos()),
    {
        proof {
            lemma_order(self.secs, self.nanos, other.secs, other.nanos);
            lemma_order(other.secs, other.nanos, self.secs, self.nanos);
        }
        self.secs < other.secs || (self.secs == other.secs && self.nanos <= other.nanos)
    }
}

/// An instant, as the time that has passed since the Unix epoch.
#[derive(Debug, Clone, Copy, PartialEq, Eq, Structural)]
pub struct Timestamp {
    /// Whole seconds since the epoch.
    pub secs: u64,
    /// The rest, in nanoseconds: below [`NANOS_PER_SEC`].
    pub nanos: u32,
}

/// Seconds and nanoseconds order as their total does.
pub proof fn lemma_order(s1: u64, n1: u32, s2: u64, n2: u32)
    requires
        n1 < NANOS_PER_SEC,
        n2 < NANOS_PER_SEC,
    ensures
        (s1 < s2 || (s1 == s2 && n1 < n2)) <==> s1 * (NANOS_PER_SEC as int) + n1 < s2 * (
        NANOS_PER_SEC as int) + n2,
{
    if s1 < s2 {
        assert(s1 * (NANOS_PER_SEC as int) + (NANOS_PER_SEC as int) <= s2 * (NANOS_PER_SEC as int))
            by (nonlinear_arith)
            requires
                s1 + 1 <= s2,
        ;
    } else if s2 < s1 {
        assert(s2 * (NANOS_PER_SEC as int) + (NANOS_PER_SEC as int) <= s1 * (NANOS_PER_SEC as int))
            by (nonlinear_arith)
            requires
                s2 + 1 <= s1,
        ;
    }
}

impl Timestamp {
    /// The nanoseconds are less than a second.
    pub open spec fn wf(&self) -> bool {
        self.nanos < NANOS_PER_SEC
    }

    /// The nanoseconds since the epoch.
    pub open spec fn as_nanos(&self) -> int {
        self.secs * (NANOS_PER_SEC as int) + self.nanos
    }

    /// Whether `self` is later than `other`.
    pub fn is_after(&self, other: &Timestamp) -> (r: bool)
        requires
            self.wf(),
            other.wf(),
        ensures
            r == (self.as_nanos() > other.as_nanos()),
    {
        proof {
            lemma_order(other.secs, other.nanos, self.secs, self.nanos);
        }
        other.secs < self.secs || (other.secs == self.secs && other.nanos < self.nanos)
    }

    /// The instant `secs` whole seconds after `self`, unless its seconds no
    /// longer fit.
    pub fn checked_add_secs(&self, secs: u64) -> (sum: Option<Timestamp>)
        ensures
            match sum {
                Some(t) => t.secs == self.secs + secs && t.nanos == self.nanos,
                None => self.secs + secs > u64::MAX,
            },
    {
        match self.secs.checked_add(secs) {
            Some(total) => Some(Timestamp { secs: total, nanos: self.nanos }),
            None => None,
        }
    }
}

/// `SystemTime::now` of std, told as the time since the Unix epoch
/// (`SystemTime::duration_since`); a clock that stands before the epoch is
/// told as the epoch. Nothing is promised but that the nanoseconds are less
/// than a second, as `Duration::subsec_nanos` documents.
#[verifier::external_body]
pub(crate) fn now() -> (t: Timestamp)
    ensures
        t.wf(),
{
    let since_epoch = SystemTime::now().duration_since(UNIX_EPOCH).unwrap_or_default();
    Timestamp { secs: since_epoch.as_secs(), nanos: since_epoch.subsec_nanos() }
}

} // verus!
