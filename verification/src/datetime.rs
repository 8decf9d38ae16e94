//! Instants and intervals as plain integers.
//!
//! Stored rows hold naive UTC timestamps with microsecond precision; here an
//! instant is the number of microseconds since the Unix epoch. The range of
//! representable instants is the range of calendar dates (years -9999 to
//! 9999) that the storage layer's date type accepts.

use vstd::prelude::*;

verus! {

/// Microseconds in one second.
pub const MICROS_PER_SEC: i64 = 1_000_000;

/// First representable second (-9999-01-01T00:00:00Z) as unix seconds.
pub const MIN_UNIX_SECS: i64 = -377_705_116_800;

/// Last representable second (9999-12-31T23:59:59Z) as unix seconds.
pub const MAX_UNIX_SECS: i64 = 253_402_300_799;

/// A naive UTC instant: microseconds since the Unix epoch.
#[derive(Debug, Clone, Copy, PartialEq, Eq, Structural)]
pub struct Timestamp(pub i64);

/// An interval as the storage layer keeps it.
#[derive(Debug, Clone, Copy, PartialEq, Eq, Structural)]
pub struct PgInterval {
    pub months: i32,
    pub days: i32,
    pub microseconds: i64,
}

/// The representable instants.
pub open spec fn timestamp_in_range(t: int) -> bool {
    MIN_UNIX_SECS * MICROS_PER_SEC <= t <= MAX_UNIX_SECS * MICROS_PER_SEC + (MICROS_PER_SEC - 1)
}

/// Unix seconds of an instant, clamped at zero (whole seconds, rounded down).
pub open spec fn unix_secs_of(t: int) -> nat {
    if t < 0 {
        0
    } else {
        (t / MICROS_PER_SEC as int) as nat
    }
}

/// What `secs as i64` gives for a `u64`.
pub open spec fn wrap_to_i64(secs: u64) -> int {
    if secs <= i64::MAX {
        secs as int
    } else {
        secs - 0x1_0000_0000_0000_0000int
    }
}

/// The instant `from_unix` gives for unix seconds.
pub open spec fn from_unix_spec(secs: u64) -> int {
    let t = wrap_to_i64(secs);
    if MIN_UNIX_SECS <= t <= MAX_UNIX_SECS {
        t * MICROS_PER_SEC
    } else {
        0
    }
}

/// Whether `t + secs` seconds (with `secs` read as `secs as i64`) is representable.
pub open spec fn add_secs_in_range(t: Timestamp, secs: u64) -> bool {
    timestamp_in_range(t.0 + wrap_to_i64(secs) * MICROS_PER_SEC)
}

/// Whether unix seconds name a representable instant
/// (`time::OffsetDateTime::from_unix_timestamp` succeeds exactly on these).
#[verifier::external_body]
fn unix_timestamp_representable(secs: i64) -> (r: bool)
    ensures
        r == (MIN_UNIX_SECS <= secs <= MAX_UNIX_SECS),
{
    time::OffsetDateTime::from_unix_timestamp(secs).is_ok()
}

/// Nanoseconds in one second.
pub const NANOS_PER_SEC: i128 = 1_000_000_000;

/// Whether a nanosecond count since the epoch names a representable instant.
pub open spec fn nanos_in_range(n: int) -> bool {
    MIN_UNIX_SECS * NANOS_PER_SEC <= n <= MAX_UNIX_SECS * NANOS_PER_SEC + (NANOS_PER_SEC - 1)
}

/// The current UTC time in nanoseconds since the epoch, by
/// `time::OffsetDateTime::now_utc` and `unix_timestamp_nanos`; an
/// `OffsetDateTime` lies within the years -9999 to 9999.
#[verifier::external_body]
fn now_utc_nanos() -> (r: i128)
    ensures
        nanos_in_range(r as int),
{
    time::OffsetDateTime::now_utc().unix_timestamp_nanos()
}

/// The current time as a naive UTC instant, truncated to microseconds.
pub fn now_primitive() -> (r: Timestamp)
    ensures
        timestamp_in_range(r.0 as int),
{
    let nanos = now_utc_nanos();
    let micros: i128 = if nanos >= 0 {
        nanos / 1000
    } else {
        0 - (0 - nanos) / 1000
    };
    Timestamp(micros as i64)
}

/// Convert an instant to unix seconds, clamping negative instants at zero.
pub fn to_unix(dt: Timestamp) -> (r: u64)
    ensures
        r as int == unix_secs_of(dt.0 as int),
{
    if dt.0 < 0 {
        0
    } else {
        (dt.0 / MICROS_PER_SEC) as u64
    }
}

/// Convert unix seconds to an instant; seconds that name no representable
/// date give the Unix epoch.
pub fn from_unix(secs: u64) -> (r: Timestamp)
    ensures
        r.0 as int == from_unix_spec(secs),
        timestamp_in_range(r.0 as int),
{
    let t: i64 = if secs <= i64::MAX as u64 {
        secs as i64
    } else {
        -((u64::MAX - secs) as i64) - 1
    };
    assert(t as int == wrap_to_i64(secs));
    if unix_timestamp_representable(t) {
        Timestamp(t * MICROS_PER_SEC)
    } else {
        Timestamp(0)
    }
}

/// The interval of `secs` seconds (read as `secs as i64`), its microsecond
/// count saturated at the bounds of `i64`.
pub open spec fn interval_of_secs(secs: u64) -> PgInterval {
    let micros = wrap_to_i64(secs) * MICROS_PER_SEC;
    PgInterval {
        months: 0,
        days: 0,
        microseconds: (if micros > i64::MAX {
            i64::MAX as int
        } else if micros < i64::MIN {
            i64::MIN as int
        } else {
            micros
        }) as i64,
    }
}

/// Build an interval spanning the given number of seconds, saturating at the
/// bounds of the microsecond count.
pub fn pg_interval_from_secs(secs: u64) -> (r: PgInterval)
    ensures
        r == interval_of_secs(secs),
{
    let micros: i64 = if secs <= i64::MAX as u64 {
        let s = secs as i64;
        if s > i64::MAX / MICROS_PER_SEC {
            i64::MAX
        } else {
            s * MICROS_PER_SEC
        }
    } else {
        let s: i64 = -((u64::MAX - secs) as i64) - 1;
        if s < i64::MIN / MICROS_PER_SEC {
            i64::MIN
        } else {
            s * MICROS_PER_SEC
        }
    };
    PgInterval { months: 0, days: 0, microseconds: micros }
}

/// `t` moved forward by `secs` seconds (`secs` read as `secs as i64`).
pub fn add_secs(t: Timestamp, secs: u64) -> (r: Timestamp)
    requires
        timestamp_in_range(t.0 as int),
        add_secs_in_range(t, secs),
    ensures
        r.0 == t.0 + wrap_to_i64(secs) * MICROS_PER_SEC,
        timestamp_in_range(r.0 as int),
{
    let s: i64 = if secs <= i64::MAX as u64 {
        secs as i64
    } else {
        -((u64::MAX - secs) as i64) - 1
    };
    assert(s as int == wrap_to_i64(secs));
    Timestamp(t.0 + s * MICROS_PER_SEC)
}

/// Unix seconds survive a round trip through an instant.
pub proof fn lemma_unix_round_trip(secs: u64)
    requires
        secs <= MAX_UNIX_SECS,
    ensures
        unix_secs_of(from_unix_spec(secs)) == secs,
{
    assert(wrap_to_i64(secs) == secs);
    assert((secs * MICROS_PER_SEC) / (MICROS_PER_SEC as int) == secs) by (nonlinear_arith);
}

} // verus!
