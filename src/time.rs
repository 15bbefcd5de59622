//! Instants on the UTC time line and whole-day distances between them.

use vstd::prelude::*;
use vstd::arithmetic::div_mod::{lemma_div_is_ordered, lemma_multiply_divide_lt};

verus! {

/// Nanoseconds in one second.
pub const NANOS_PER_SECOND: i128 = 1_000_000_000;

/// Nanoseconds in one day of 86 400 seconds.
pub const NANOS_PER_DAY: i128 = 86_400_000_000_000;

/// An instant in UTC: whole seconds since the Unix epoch and the nanoseconds
/// past that second. The nanoseconds may reach past one second, which is how a
/// leap second is written.
#[derive(Clone, Copy, Debug, PartialEq, Eq, Structural)]
pub struct UtcTime {
    pub secs: i64,
    pub nanos: u32,
}

/// The instant as a count of nanoseconds since the epoch.
pub open spec fn instant_nanos(t: UtcTime) -> int {
    t.secs * NANOS_PER_SECOND + t.nanos
}

/// `n / d` rounded toward zero.
pub open spec fn div_toward_zero(n: int, d: int) -> int {
    if n >= 0 {
        n / d
    } else {
        -((-n) / d)
    }
}

/// The number of whole days from `earlier` to `later`, rounded toward zero:
/// negative when `later` comes first.
pub open spec fn whole_days_between(later: UtcTime, earlier: UtcTime) -> int {
    div_toward_zero(instant_nanos(later) - instant_nanos(earlier), NANOS_PER_DAY as int)
}

/// Builds the instant `secs` seconds and `nanos` nanoseconds after the epoch.
pub fn utc_time(secs: i64, nanos: u32) -> (r: UtcTime)
    ensures
        r.secs == secs,
        r.nanos == nanos,
{
    UtcTime { secs, nanos }
}

/// The whole days from `earlier` to `later`, rounded toward zero.
pub fn days_between(later: &UtcTime, earlier: &UtcTime) -> (r: i64)
    ensures
        r as int == whole_days_between(*later, *earlier),
        -0x4_0000_0000_0000 < r < 0x4_0000_0000_0000,
{
    let a: i128 = later.secs as i128 * NANOS_PER_SECOND + later.nanos as i128;
    let b: i128 = earlier.secs as i128 * NANOS_PER_SECOND + earlier.nanos as i128;
    let diff: i128 = a - b;
    let ghost bound: int = 0x1_0000_0000_0000_0000_0000_0000int;
    assert(-bound < diff < bound) by (nonlinear_arith)
        requires
            a == later.secs * NANOS_PER_SECOND + later.nanos,
            b == earlier.secs * NANOS_PER_SECOND + earlier.nanos,
            diff == a - b,
            i64::MIN <= later.secs <= i64::MAX,
            i64::MIN <= earlier.secs <= i64::MAX,
            0 <= later.nanos < 0x1_0000_0000,
            0 <= earlier.nanos < 0x1_0000_0000,
            NANOS_PER_SECOND == 1_000_000_000,
            bound == 0x1_0000_0000_0000_0000_0000_0000,
    ;
    let mag: i128 = if diff >= 0 { diff } else { -diff };
    let q: i128 = mag / NANOS_PER_DAY;
    proof {
        lemma_div_is_ordered(mag as int, bound, NANOS_PER_DAY as int);
        lemma_multiply_divide_lt(bound, NANOS_PER_DAY as int, 0x4_0000_0000_0000);
        assert(q < 0x4_0000_0000_0000);
    }
    if diff >= 0 {
        q as i64
    } else {
        -(q as i64)
    }
}

/// A name for the instant that chrono reads from `text`, as seconds since
/// the epoch and nanoseconds past that second; `None` where it reads none.
pub uninterp spec fn parsed_timestamp(text: Seq<char>) -> Option<(int, int)>;

/// What `parsed_timestamp` gives, as an instant.
pub open spec fn parsed_instant(text: Seq<char>) -> Option<UtcTime> {
    match parsed_timestamp(text) {
        Some((secs, nanos)) => Some(UtcTime { secs: secs as i64, nanos: nanos as u32 }),
        None => None,
    }
}

/// Relies on chrono's `FromStr for DateTime<Utc>` (a relaxed RFC 3339
/// reader), read back through `DateTime::timestamp` and
/// `DateTime::timestamp_subsec_nanos`. The outcome depends on the text alone.
#[verifier::external_body]
pub(crate) fn parse_timestamp(text: &str) -> (r: Option<UtcTime>)
    ensures
        match r {
            Some(t) => parsed_timestamp(text@) == Some((t.secs as int, t.nanos as int)),
            None => parsed_timestamp(text@) is None,
        },
{
    match text.parse::<chrono::DateTime<chrono::Utc>>() {
        Ok(t) => Some(UtcTime { secs: t.timestamp(), nanos: t.timestamp_subsec_nanos() }),
        Err(_) => None,
    }
}

/// Relies on chrono's `Utc::now`, read back through `DateTime::timestamp`
/// and `DateTime::timestamp_subsec_nanos`. Nothing is known of the instant.
#[verifier::external_body]
pub(crate) fn now_utc() -> (r: UtcTime) {
    let t = chrono::Utc::now();
    UtcTime { secs: t.timestamp(), nanos: t.timestamp_subsec_nanos() }
}

} // verus!
