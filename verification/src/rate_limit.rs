//! Adaptive rate limiting for Graph requests.
//!
//! Each endpoint has a token bucket. Its refilling runs on fractional tokens
//! and the clock and stays with the caller; this module holds the adaptive
//! part: a throttling answer (429) halves the bucket's capacity, and every
//! hundred successes since the last throttle give back 5% of it, never above
//! the configured capacity. It also reads `Retry-After` headers.

use std::time::Duration;

use vstd::prelude::*;

use crate::graph::Timestamp;
use crate::text::{decimal, digit_char};

verus! {

/// Successes that earn one step of capacity recovery.
pub const RECOVERY_INTERVAL: u64 = 100;

/// Capacity of a bucket as throttling and successes adjust it.
#[derive(Debug, Clone, Copy, PartialEq, Eq)]
pub struct AdaptiveCapacity {
    /// Configured capacity.
    pub capacity: u32,
    /// Capacity in force.
    pub effective_capacity: u32,
    /// Successes since the last throttle.
    pub success_count: u64,
}

/// Capacity regained after enough successes: 5% of the current capacity, at least 1.
pub open spec fn recovery_step(eff: u32) -> int {
    if eff / 20 >= 1 { (eff / 20) as int } else { 1 }
}

/// Capacity after a success that completes a recovery interval.
pub open spec fn recovered(eff: u32, capacity: u32) -> int {
    if eff + recovery_step(eff) < capacity { eff + recovery_step(eff) } else { capacity as int }
}

/// Capacity in force after a throttling answer: half, never below 1.
pub open spec fn throttled(eff: u32) -> int {
    if eff / 2 >= 1 { (eff / 2) as int } else { 1 }
}

/// A bucket after one success.
pub open spec fn after_success(a: AdaptiveCapacity) -> AdaptiveCapacity {
    let count = a.success_count + 1;
    AdaptiveCapacity {
        capacity: a.capacity,
        effective_capacity: if count % 100 == 0 && a.effective_capacity < a.capacity {
            recovered(a.effective_capacity, a.capacity) as u32
        } else {
            a.effective_capacity
        },
        success_count: count as u64,
    }
}

/// A bucket after a throttling answer.
pub open spec fn after_throttle(a: AdaptiveCapacity) -> AdaptiveCapacity {
    AdaptiveCapacity { capacity: a.capacity, effective_capacity: throttled(a.effective_capacity) as u32, success_count: 0 }
}

/// A bucket after a run of answers, in order: `true` a success, `false` a throttle.
pub open spec fn after_answers(a: AdaptiveCapacity, answers: Seq<bool>) -> AdaptiveCapacity
    decreases answers.len(),
{
    if answers.len() == 0 {
        a
    } else {
        after_answers(if answers[0] { after_success(a) } else { after_throttle(a) }, answers.drop_first())
    }
}

impl AdaptiveCapacity {
    /// A bucket at its configured capacity with no success counted.
    pub fn new(capacity: u32) -> (r: AdaptiveCapacity)
        ensures
            r.capacity == capacity,
            r.effective_capacity == capacity,
            r.success_count == 0,
    {
        AdaptiveCapacity { capacity, effective_capacity: capacity, success_count: 0 }
    }

    /// The configured capacity.
    pub fn capacity(&self) -> (r: u32)
        ensures
            r == self.capacity,
    {
        self.capacity
    }

    /// The capacity in force.
    pub fn effective_capacity(&self) -> (r: u32)
        ensures
            r == self.effective_capacity,
    {
        self.effective_capacity
    }

    /// Counts a success; every hundredth success since the last throttle
    /// raises a reduced capacity by 5% (at least 1), up to the configured one.
    pub fn on_success(&mut self)
        requires
            old(self).success_count < u64::MAX,
        ensures
            final(self).capacity == old(self).capacity,
            final(self).success_count == old(self).success_count + 1,
            ((old(self).success_count + 1) % 100 == 0 && old(self).effective_capacity < old(self).capacity) ==>
                final(self).effective_capacity == recovered(old(self).effective_capacity, old(self).capacity),
            !((old(self).success_count + 1) % 100 == 0 && old(self).effective_capacity < old(self).capacity) ==>
                final(self).effective_capacity == old(self).effective_capacity,
            *final(self) == after_success(*old(self)),
    {
        self.success_count = self.success_count + 1;
        if self.success_count % RECOVERY_INTERVAL == 0 && self.effective_capacity < self.capacity {
            let eff = self.effective_capacity;
            let step: u32 = if eff / 20 >= 1 { eff / 20 } else { 1 };
            let sum = eff as u64 + step as u64;
            self.effective_capacity = if sum < self.capacity as u64 { sum as u32 } else { self.capacity };
        }
    }

    /// A throttling answer: halves the capacity in force (never below 1) and
    /// restarts the success count.
    pub fn on_throttle(&mut self)
        ensures
            final(self).capacity == old(self).capacity,
            final(self).effective_capacity == throttled(old(self).effective_capacity),
            final(self).success_count == 0,
            *final(self) == after_throttle(*old(self)),
    {
        let half = self.effective_capacity / 2;
        self.effective_capacity = if half >= 1 { half } else { 1 };
        self.success_count = 0;
    }
}

/// Proof of a token acquisition for one endpoint.
#[derive(Debug)]
pub struct RateLimitGuard {
    /// Endpoint the token was taken for.
    pub endpoint: String,
}

impl RateLimitGuard {
    /// A guard for `endpoint`.
    pub fn new(endpoint: String) -> (r: RateLimitGuard)
        ensures
            r.endpoint == endpoint,
    {
        RateLimitGuard { endpoint }
    }
}

// ---------------------------------------------------------------------------
// Retry-After
// ---------------------------------------------------------------------------

/// Whether `c` is an ASCII digit.
pub open spec fn is_digit(c: char) -> bool {
    '0' <= c <= '9'
}

/// Value of a string of ASCII digits.
pub open spec fn digits_value(s: Seq<char>) -> int
    decreases s.len(),
{
    if s.len() == 0 {
        0
    } else {
        digits_value(s.drop_last()) * 10 + (s.last() as int - '0' as int)
    }
}

/// Whether every character of `s` is an ASCII digit.
pub open spec fn all_digits(s: Seq<char>) -> bool {
    forall|i: int| 0 <= i < s.len() ==> is_digit(#[trigger] s[i])
}

/// The text after an optional leading `+`.
pub open spec fn unsigned_body(s: Seq<char>) -> Seq<char> {
    if s.len() > 0 && s[0] == '+' { s.drop_first() } else { s }
}

/// The unsigned integer a text denotes the way `u64::from_str` reads it: an
/// optional `+`, then one or more ASCII digits, with a value that fits.
pub open spec fn spec_parse_u64(s: Seq<char>) -> Option<u64> {
    let body = unsigned_body(s);
    if body.len() > 0 && all_digits(body) && digits_value(body) <= u64::MAX {
        Some(digits_value(body) as u64)
    } else {
        None
    }
}

/// Reads an unsigned decimal integer (see `spec_parse_u64`).
pub fn parse_u64(s: &str) -> (r: Option<u64>)
    ensures
        r == spec_parse_u64(s@),
{
    let n = s.unicode_len();
    let start: usize = if n > 0 && s.get_char(0) == '+' { 1 } else { 0 };
    let ghost body = unsigned_body(s@);
    assert(body =~= s@.skip(start as int));
    if start >= n {
        return None;
    }
    let mut value: u64 = 0;
    let mut i = start;
    while i < n
        invariant
            start <= i <= n,
            n == s@.len(),
            body =~= s@.skip(start as int),
            body == unsigned_body(s@),
            forall|j: int| start <= j < i ==> is_digit(#[trigger] s@[j]),
            value == digits_value(s@.subrange(start as int, i as int)),
        decreases n - i,
    {
        let c = s.get_char(i);
        proof {
            assert(s@.subrange(start as int, i + 1).drop_last() =~= s@.subrange(start as int, i as int));
        }
        if !('0' <= c && c <= '9') {
            proof {
                assert(body[i - start] == c);
                assert(!is_digit(body[i - start]));
                assert(!all_digits(body));
                assert(spec_parse_u64(s@) is None);
            }
            return None;
        }
        let d = (c as u32 - '0' as u32) as u64;
        if value > (u64::MAX - d) / 10 {
            proof {
                let x = s@.subrange(start as int, i + 1);
                assert(x.last() == c);
                assert(digits_value(x) == value * 10 + d);
                assert(digits_value(x) > u64::MAX) by (nonlinear_arith)
                    requires
                        digits_value(x) == value * 10 + d,
                        value > (u64::MAX - d) / 10,
                        d <= 9;
                let full = s@.subrange(start as int, n as int);
                assert(body =~= full);
                if all_digits(full) {
                    lemma_digits_value_monotone(full, (i + 1 - start) as int);
                    assert(full.subrange(0, (i + 1 - start) as int) =~= x);
                    assert(digits_value(body) > u64::MAX);
                }
                assert(spec_parse_u64(s@) is None);
            }
            return None;
        }
        value = value * 10 + d;
        i = i + 1;
    }
    proof {
        assert(body =~= s@.subrange(start as int, n as int));
    }
    Some(value)
}

/// A longer run of digits is worth at least as much as its prefix.
proof fn lemma_digits_value_monotone(s: Seq<char>, k: int)
    requires
        0 <= k <= s.len(),
        forall|i: int| 0 <= i < s.len() ==> is_digit(#[trigger] s[i]),
    ensures
        digits_value(s) >= digits_value(s.subrange(0, k)),
    decreases s.len(),
{
    if k == s.len() {
        assert(s.subrange(0, k) =~= s);
    } else {
        let t = s.drop_last();
        assert(t.subrange(0, k) =~= s.subrange(0, k));
        assert forall|i: int| 0 <= i < t.len() implies is_digit(#[trigger] t[i]) by {
            assert(t[i] == s[i]);
        }
        lemma_digits_value_monotone(t, k);
        lemma_digits_value_nonneg(t);
        assert(is_digit(s[s.len() - 1]));
    }
}

/// Digits are worth a non-negative amount.
proof fn lemma_digits_value_nonneg(s: Seq<char>)
    requires
        forall|i: int| 0 <= i < s.len() ==> is_digit(#[trigger] s[i]),
    ensures
        digits_value(s) >= 0,
    decreases s.len(),
{
    if s.len() > 0 {
        let t = s.drop_last();
        assert forall|i: int| 0 <= i < t.len() implies is_digit(#[trigger] t[i]) by {
            assert(t[i] == s[i]);
        }
        lemma_digits_value_nonneg(t);
        assert(is_digit(s[s.len() - 1]));
    }
}

/// Whole seconds from `now` until `target`, when `target` is later.
pub open spec fn spec_seconds_until(target: Timestamp, now: Timestamp) -> Option<int> {
    let diff: int = (target.secs - now.secs) * 1_000_000_000 + (target.nanos - now.nanos);
    if diff > 0 { Some(diff / 1_000_000_000) } else { None }
}

/// Whole seconds from `now` until `target` (`None` unless `target` is later).
pub fn seconds_until(target: Timestamp, now: Timestamp) -> (r: Option<i128>)
    ensures
        match spec_seconds_until(target, now) {
            Some(d) => r == Some(d as i128),
            None => r is None,
        },
{
    let diff: i128 = (target.secs as i128 - now.secs as i128) * 1_000_000_000 + (target.nanos as i128 - now.nanos as i128);
    if diff > 0 { Some(diff / 1_000_000_000) } else { None }
}

/// The text with leading and trailing white space removed, as `str::trim` gives it.
pub uninterp spec fn trimmed(s: Seq<char>) -> Seq<char>;

/// The instant an RFC 2822 date denotes, as `chrono::DateTime::parse_from_rfc2822`
/// reads it (`None` when it does not parse).
pub uninterp spec fn rfc2822_instant(s: Seq<char>) -> Option<Timestamp>;

/// A duration of whole seconds, as `Duration::from_secs` makes it.
pub uninterp spec fn secs_duration(secs: u64) -> Duration;

/// `str::trim`: the text without leading and trailing white space.
#[verifier::external_body]
fn trim_text(s: &str) -> (r: String)
    ensures
        r@ == trimmed(s@),
{
    s.trim().to_string()
}

/// `DateTime::parse_from_rfc2822`: the instant of an HTTP date.
#[verifier::external_body]
fn parse_http_date(s: &str) -> (r: Option<Timestamp>)
    ensures
        r == rfc2822_instant(s@),
{
    chrono::DateTime::parse_from_rfc2822(s).ok().map(|d| Timestamp { secs: d.timestamp(), nanos: d.timestamp_subsec_nanos() })
}

/// `Utc::now`: the current instant (nothing is promised of its value).
#[verifier::external_body]
fn now_instant() -> Timestamp {
    let d = chrono::Utc::now();
    Timestamp { secs: d.timestamp(), nanos: d.timestamp_subsec_nanos() }
}

/// `Duration::from_secs`.
#[verifier::external_body]
fn duration_from_secs(secs: u64) -> (r: Duration)
    ensures
        r == secs_duration(secs),
{
    Duration::from_secs(secs)
}

/// The wait a `Retry-After` value asks for, given the current instant: its
/// number of seconds, or the seconds until its HTTP date when that is in the
/// future and at most an hour away; `None` when neither applies.
pub open spec fn spec_retry_after_secs(value: Seq<char>, now: Timestamp) -> Option<u64> {
    let t = trimmed(value);
    match spec_parse_u64(t) {
        Some(n) => Some(n),
        None => match rfc2822_instant(t) {
            Some(target) => match spec_seconds_until(target, now) {
                Some(d) => if d <= 3600 { Some(d as u64) } else { None },
                None => None,
            },
            None => None,
        },
    }
}

/// The wait a `Retry-After` value asks for at instant `now` (see `spec_retry_after_secs`).
pub fn retry_after_secs(value: &str, now: Timestamp) -> (r: Option<u64>)
    ensures
        r == spec_retry_after_secs(value@, now),
{
    let t = trim_text(value);
    match parse_u64(t.as_str()) {
        Some(n) => Some(n),
        None => match parse_http_date(t.as_str()) {
            Some(target) => match seconds_until(target, now) {
                Some(d) => if d <= 3600 { Some(d as u64) } else { None },
                None => None,
            },
            None => None,
        },
    }
}

/// Reads a `Retry-After` header value (seconds or an HTTP date at most an
/// hour ahead), falling back to `default`.
pub fn parse_retry_after(value: &str, default: Duration) -> (r: Duration)
    ensures
        spec_parse_u64(trimmed(value@)) matches Some(n) ==> r == secs_duration(n),
        spec_parse_u64(trimmed(value@)) is None && rfc2822_instant(trimmed(value@)) is None ==> r == default,
        spec_parse_u64(trimmed(value@)) is None && rfc2822_instant(trimmed(value@)) is Some ==>
            r == default || exists|d: u64| d <= 3600 && r == #[trigger] secs_duration(d),
        exists|now: Timestamp| r == (match #[trigger] spec_retry_after_secs(value@, now) {
            Some(secs) => secs_duration(secs),
            None => default,
        }),
{
    let now = now_instant();
    let r = match retry_after_secs(value, now) {
        Some(s) => duration_from_secs(s),
        None => default,
    };
    assert(r == (match spec_retry_after_secs(value@, now) {
        Some(secs) => secs_duration(secs),
        None => default,
    }));
    r
}

} // verus!
