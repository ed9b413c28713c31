//! The well-known protobuf messages that the event streams carry:
//! `Timestamp`, `Duration` and `Any`, and the arithmetic on time points.
use vstd::prelude::*;

verus! {

/// Number of nanoseconds in one second.
pub const NANOS_PER_SECOND: i32 = 1_000_000_000;

/// A point in time: seconds since the Unix epoch plus a fraction in nanoseconds.
#[derive(Clone, Copy, Debug, PartialEq, Eq)]
pub struct Timestamp {
    pub seconds: i64,
    pub nanos: i32,
}

/// A signed span of time: seconds plus a fraction in nanoseconds.
#[derive(Clone, Copy, Debug, PartialEq, Eq)]
pub struct Duration {
    pub seconds: i64,
    pub nanos: i32,
}

/// A message of any type, packed as its type URL and its encoded bytes.
#[derive(Clone, Debug, PartialEq, Eq)]
pub struct Any {
    pub type_url: String,
    pub value: Vec<u8>,
}

/// The seconds of `ts + dur` before the carry of the nanosecond field.
pub open spec fn raw_seconds(ts: Timestamp, dur: Duration) -> int {
    ts.seconds + dur.seconds
}

/// The nanoseconds of `ts + dur` before the carry into the seconds.
pub open spec fn raw_nanos(ts: Timestamp, dur: Duration) -> int {
    ts.nanos + dur.nanos
}

/// `ts + dur`, where a nanosecond sum of a full second or more carries one
/// second up, and a negative nanosecond sum borrows one second.
pub open spec fn add_duration_spec(ts: Timestamp, dur: Duration) -> Timestamp {
    let s: int = raw_seconds(ts, dur);
    let n: int = raw_nanos(ts, dur);
    if n >= NANOS_PER_SECOND {
        Timestamp { seconds: (s + 1) as i64, nanos: (n - NANOS_PER_SECOND) as i32 }
    } else if n < 0 {
        Timestamp { seconds: (s - 1) as i64, nanos: (n + NANOS_PER_SECOND) as i32 }
    } else {
        Timestamp { seconds: s as i64, nanos: n as i32 }
    }
}

/// The machine integers hold every intermediate value of `ts + dur`.
pub open spec fn add_duration_fits(ts: Timestamp, dur: Duration) -> bool {
    let s: int = raw_seconds(ts, dur);
    let n: int = raw_nanos(ts, dur);
    &&& i64::MIN <= s <= i64::MAX
    &&& i32::MIN <= n <= i32::MAX
    &&& n >= NANOS_PER_SECOND ==> s + 1 <= i64::MAX
    &&& n < 0 ==> s - 1 >= i64::MIN
}

/// The whole time of a timestamp, in nanoseconds.
pub open spec fn total_nanos_ts(ts: Timestamp) -> int {
    ts.seconds * 1_000_000_000 + ts.nanos
}

/// The whole time of a duration, in nanoseconds.
pub open spec fn total_nanos_dur(dur: Duration) -> int {
    dur.seconds * 1_000_000_000 + dur.nanos
}

/// Add a duration to a timestamp.
pub fn add_duration(ts: &Timestamp, dur: &Duration) -> (r: Timestamp)
    requires
        add_duration_fits(*ts, *dur),
    ensures
        r == add_duration_spec(*ts, *dur),
{
    let mut seconds: i64 = ts.seconds + dur.seconds;
    let mut nanos: i32 = ts.nanos + dur.nanos;
    if nanos >= NANOS_PER_SECOND {
        seconds += 1;
        nanos -= NANOS_PER_SECOND;
    } else if nanos < 0 {
        seconds -= 1;
        nanos += NANOS_PER_SECOND;
    }
    Timestamp { seconds, nanos }
}

/// Adding a duration keeps the whole time: the nanoseconds of the result are
/// those of the timestamp plus those of the duration.
pub proof fn lemma_add_duration_keeps_total(ts: Timestamp, dur: Duration)
    requires
        add_duration_fits(ts, dur),
    ensures
        total_nanos_ts(add_duration_spec(ts, dur)) == total_nanos_ts(ts) + total_nanos_dur(dur),
{
}

/// A timestamp whose nanoseconds lie in `[0, 1e9)`, plus a duration whose
/// nanoseconds lie in `(-1e9, 1e9)`, gives a timestamp whose nanoseconds
/// lie in `[0, 1e9)` again.
pub proof fn lemma_add_duration_normalizes(ts: Timestamp, dur: Duration)
    requires
        add_duration_fits(ts, dur),
        0 <= ts.nanos < NANOS_PER_SECOND,
        -NANOS_PER_SECOND < dur.nanos < NANOS_PER_SECOND,
    ensures
        0 <= add_duration_spec(ts, dur).nanos < NANOS_PER_SECOND,
{
}

} // verus!
