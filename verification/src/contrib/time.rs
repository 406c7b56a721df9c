use std::time::Duration;
use vstd::prelude::*;

verus! {

/// Whole seconds of a duration (what `Duration::as_secs` reports of it).
pub uninterp spec fn duration_secs(d: Duration) -> u64;

/// Fractional part of a duration in nanoseconds (what
/// `Duration::subsec_nanos` reports of it).
pub uninterp spec fn duration_subsec_nanos(d: Duration) -> u32;

/// `Duration::new` builds the duration of `secs` seconds and `nanos`
/// nanoseconds, carrying whole seconds of `nanos` over into the seconds; it
/// panics when that carry overflows the seconds. The two parts of the
/// duration it returns are stated through `duration_secs` and
/// `duration_subsec_nanos`.
pub assume_specification[ Duration::new ](secs: u64, nanos: u32) -> (d: Duration)
    requires
        secs + nanos / 1_000_000_000 <= u64::MAX,
    ensures
        duration_secs(d) == secs + nanos / 1_000_000_000,
        duration_subsec_nanos(d) == nanos % 1_000_000_000,
;

/// The seconds of the duration of a `timeval`, read the way the conversion
/// does: the seconds as unsigned, the microseconds scaled to nanoseconds
/// and truncated to 32 bits.
pub open spec fn timeval_secs(tv_sec: i64) -> u64 {
    tv_sec as u64
}

/// The nanoseconds of the duration of a `timeval`, before the carry.
pub open spec fn timeval_nanos(tv_usec: i64) -> u32 {
    (tv_usec * 1000) as u32
}

/// Whether a `timeval` converts without overflow: its microseconds scale
/// to nanoseconds within `i64`, and the carry of whole seconds fits.
pub open spec fn timeval_fits(tv_sec: i64, tv_usec: i64) -> bool {
    &&& i64::MIN <= tv_usec * 1000 <= i64::MAX
    &&& timeval_secs(tv_sec) + timeval_nanos(tv_usec) / 1_000_000_000 <= u64::MAX
}

/// Converts a `timeval` (seconds and microseconds) into a duration.
pub fn from_timeval_into_duration(tv_sec: i64, tv_usec: i64) -> (d: Duration)
    requires
        timeval_fits(tv_sec, tv_usec),
    ensures
        duration_secs(d) == timeval_secs(tv_sec) + timeval_nanos(tv_usec) / 1_000_000_000,
        duration_subsec_nanos(d) == timeval_nanos(tv_usec) % 1_000_000_000,
{
    let secs: i64 = tv_sec;
    let nanos: i64 = tv_usec * 1_000;
    Duration::new(secs as u64, nanos as u32)
}

} // verus!
