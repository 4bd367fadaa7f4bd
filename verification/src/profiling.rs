use vstd::prelude::*;

use std::time::Duration;

use crate::error::Error;

verus! {

/// Bytes of one resolved timestamp.
pub const TIMESTAMP_SIZE_BYTES: u64 = 8;

/// `Duration` is `Copy`: its `clone` returns the same span of time.
pub assume_specification[ <std::time::Duration as std::clone::Clone>::clone ](d: &Duration) -> (r: Duration)
    ensures
        r == *d,
;

/// Calls `Duration::ZERO`, the empty span of time. Nothing is claimed of the value.
#[verifier::external_body]
fn zero_duration() -> Duration {
    Duration::ZERO
}

/// One labelled GPU timestamp span.
#[derive(Clone, Debug, PartialEq, Eq)]
pub struct GpuTimestampSpan {
    pub label: String,
    pub duration: Duration,
}

/// GPU timestamps of a profiled command sequence: the time from the first to
/// the last timestamp, the summed span durations, and each labelled span.
#[derive(Clone, Debug, PartialEq, Eq)]
pub struct GpuProfile {
    pub gpu_elapsed: Duration,
    pub dispatch_time: Duration,
    pub spans: Vec<GpuTimestampSpan>,
}

impl GpuProfile {
    /// The profile of work that recorded no span.
    pub fn empty() -> (r: GpuProfile)
        ensures
            r.spans@.len() == 0,
    {
        GpuProfile { gpu_elapsed: zero_duration(), dispatch_time: zero_duration(), spans: Vec::new() }
    }
}

/// The ticks between two timestamps; zero when the end precedes the start.
pub open spec fn ticks_between(start: u64, end: u64) -> u64 {
    if end >= start {
        (end - start) as u64
    } else {
        0
    }
}

/// The ticks of each `(begin, end)` timestamp pair, for the first `spans` pairs.
pub fn span_ticks(timestamps: &[u64], spans: usize) -> (r: Vec<u64>)
    requires
        2 * spans <= timestamps@.len(),
    ensures
        r@.len() == spans,
        forall|i: int| 0 <= i < spans ==> #[trigger] r@[i] == ticks_between(timestamps@[2 * i], timestamps@[2 * i + 1]),
{
    let mut r: Vec<u64> = Vec::new();
    let mut i: usize = 0;
    let n = timestamps.len();
    while i < spans
        invariant
            n == timestamps@.len(),
            i <= spans,
            2 * spans <= timestamps@.len(),
            r@.len() == i,
            forall|j: int| 0 <= j < i ==> #[trigger] r@[j] == ticks_between(timestamps@[2 * j], timestamps@[2 * j + 1]),
        decreases spans - i,
    {
        let start = timestamps[2 * i];
        let end = timestamps[2 * i + 1];
        r.push(if end >= start { end - start } else { 0 });
        i = i + 1;
    }
    r
}

/// The ticks from the first to the last timestamp; zero with no timestamps.
pub fn elapsed_ticks(timestamps: &[u64]) -> (r: u64)
    ensures
        timestamps@.len() == 0 ==> r == 0,
        timestamps@.len() > 0 ==> r == ticks_between(timestamps@[0], timestamps@[timestamps@.len() - 1]),
{
    if timestamps.len() == 0 {
        return 0;
    }
    let first = timestamps[0];
    let last = timestamps[timestamps.len() - 1];
    if last >= first {
        last - first
    } else {
        0
    }
}

/// Timestamp-query bookkeeping: how many spans the query set holds and how
/// many are used. Span `i` writes queries `2i` and `2i + 1`.
pub struct TimestampSlots {
    pub span_capacity: u32,
    pub used: u32,
}

impl TimestampSlots {
    /// Room for `span_capacity` spans; also returns the query count and the
    /// bytes of the resolve buffer.
    pub fn new(span_capacity: u32, timestamps_supported: bool) -> (r: Result<(TimestampSlots, u32, u64), Error>)
        ensures
            !timestamps_supported ==> r == Err::<(TimestampSlots, u32, u64), Error>(Error::TimestampQueriesUnsupported),
            timestamps_supported && span_capacity * 2 > u32::MAX ==> r == Err::<(TimestampSlots, u32, u64), Error>(Error::SizeOverflow),
            timestamps_supported && span_capacity * 2 <= u32::MAX ==> (r matches Ok((s, q, b)) && s.span_capacity == span_capacity
                && s.used == 0 && q == span_capacity * 2 && b == q * TIMESTAMP_SIZE_BYTES),
    {
        if !timestamps_supported {
            return Err(Error::TimestampQueriesUnsupported);
        }
        let query_count = match span_capacity.checked_mul(2) {
            Some(q) => q,
            None => return Err(Error::SizeOverflow),
        };
        Ok((TimestampSlots { span_capacity, used: 0 }, query_count, query_count as u64 * TIMESTAMP_SIZE_BYTES))
    }

    /// Claims the next span: its beginning and end query indices.
    pub fn reserve(&mut self) -> (r: (u32, u32))
        requires
            old(self).used < old(self).span_capacity,
            old(self).span_capacity * 2 <= u32::MAX,
        ensures
            final(self).span_capacity == old(self).span_capacity,
            final(self).used == old(self).used + 1,
            r.0 == old(self).used * 2,
            r.1 == old(self).used * 2 + 1,
    {
        let beginning = self.used * 2;
        self.used = self.used + 1;
        (beginning, beginning + 1)
    }

    /// The queries to resolve and the bytes they fill.
    pub fn resolve(&self) -> (r: (u32, u64))
        requires
            self.used <= self.span_capacity,
            self.span_capacity * 2 <= u32::MAX,
        ensures
            r.0 == self.used * 2,
            r.1 == self.used * 2 * TIMESTAMP_SIZE_BYTES,
    {
        let query_count = self.used * 2;
        (query_count, query_count as u64 * TIMESTAMP_SIZE_BYTES)
    }
}

} // verus!
