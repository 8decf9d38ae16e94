//! Periodic cleanup signals published by the cron worker.
//!
//! Instants here are offset date-times given as nanoseconds since the Unix
//! epoch, within the calendar range years -9999 to 9999.

use crate::datetime::{nanos_in_range, MAX_UNIX_SECS, MIN_UNIX_SECS, NANOS_PER_SEC};
use vstd::prelude::*;

verus! {

/// Seconds between two cron ticks.
pub const CRON_CADENCE_SECS: i64 = 3_600;

/// Unix seconds of an instant (rounded down, as `unix_timestamp` gives them).
pub open spec fn unix_secs_floor(n: int) -> int {
    n / (NANOS_PER_SEC as int)
}

/// Whether a full cadence has passed between `last` and `now`: the whole
/// seconds of `now - last` (truncated towards zero) reach the cadence.
pub open spec fn cadence_elapsed(now: int, last: int) -> bool {
    now - last >= CRON_CADENCE_SECS * NANOS_PER_SEC
}

/// The trigger time a tick records: unix seconds, negative instants read as zero.
pub open spec fn trigger_time_of(now_unix_secs: int) -> int {
    if now_unix_secs < 0 {
        0
    } else {
        now_unix_secs
    }
}

/// Outcome of polling a periodic job.
pub enum CronPoll<T> {
    Ready(T),
    Pending,
}

/// Signal that triggers expired-session cleanup (exchange `auth_cron`,
/// routing key `session_cleanup`).
#[derive(Debug, Clone, Copy)]
pub struct SessionCleanupSignal {
    /// Tick time, unix seconds.
    pub trigger_time: u64,
}

/// Signal that triggers invitation and pending-invitation expiry (exchange
/// `auth_cron`, routing key `invitation_expiry`).
#[derive(Debug, Clone, Copy)]
pub struct InvitationExpiryCleanupSignal {
    /// Tick time, unix seconds.
    pub trigger_time: u64,
}

fn trigger_time(now_unix_secs: i64) -> (r: u64)
    ensures
        r as int == trigger_time_of(now_unix_secs as int),
{
    if now_unix_secs < 0 {
        0
    } else {
        now_unix_secs as u64
    }
}

fn floor_secs(nanos: i128) -> (r: i64)
    requires
        nanos_in_range(nanos as int),
    ensures
        r as int == unix_secs_floor(nanos as int),
{
    if nanos >= 0 {
        let q = nanos / NANOS_PER_SEC;
        assert(q <= MAX_UNIX_SECS) by (nonlinear_arith)
            requires
                0 <= nanos <= MAX_UNIX_SECS * NANOS_PER_SEC + (NANOS_PER_SEC - 1),
                q == nanos / NANOS_PER_SEC,
        ;
        q as i64
    } else {
        let m: i128 = -nanos - 1;
        let q = m / NANOS_PER_SEC;
        assert(-q - 1 == (nanos as int) / (NANOS_PER_SEC as int) && q <= -MIN_UNIX_SECS) by (nonlinear_arith)
            requires
                m == -nanos - 1,
                nanos < 0,
                nanos >= MIN_UNIX_SECS * NANOS_PER_SEC,
                q == m / NANOS_PER_SEC,
        ;
        (-q - 1) as i64
    }
}

fn elapsed(now_nanos: i128, last_nanos: i128) -> (r: bool)
    requires
        nanos_in_range(now_nanos as int),
        nanos_in_range(last_nanos as int),
    ensures
        r == cadence_elapsed(now_nanos as int, last_nanos as int),
{
    now_nanos - last_nanos >= (CRON_CADENCE_SECS as i128) * NANOS_PER_SEC
}

impl SessionCleanupSignal {
    /// The signal for a tick at `now` (unix seconds).
    pub fn tick(now_unix_secs: i64) -> (r: Self)
        ensures
            r.trigger_time as int == trigger_time_of(now_unix_secs as int),
    {
        SessionCleanupSignal { trigger_time: trigger_time(now_unix_secs) }
    }

    /// Ready with the tick at `now` once a full cadence has passed since `last`.
    pub fn time_pool(now_nanos: i128, last_nanos: i128) -> (r: CronPoll<Self>)
        requires
            nanos_in_range(now_nanos as int),
            nanos_in_range(last_nanos as int),
        ensures
            (r is Ready) == cadence_elapsed(now_nanos as int, last_nanos as int),
            r matches CronPoll::Ready(s) ==> s.trigger_time as int == trigger_time_of(
                unix_secs_floor(now_nanos as int),
            ),
    {
        if elapsed(now_nanos, last_nanos) {
            CronPoll::Ready(Self::tick(floor_secs(now_nanos)))
        } else {
            CronPoll::Pending
        }
    }
}

impl InvitationExpiryCleanupSignal {
    /// The signal for a tick at `now` (unix seconds).
    pub fn tick(now_unix_secs: i64) -> (r: Self)
        ensures
            r.trigger_time as int == trigger_time_of(now_unix_secs as int),
    {
        InvitationExpiryCleanupSignal { trigger_time: trigger_time(now_unix_secs) }
    }

    /// Ready with the tick at `now` once a full cadence has passed since `last`.
    pub fn time_pool(now_nanos: i128, last_nanos: i128) -> (r: CronPoll<Self>)
        requires
            nanos_in_range(now_nanos as int),
            nanos_in_range(last_nanos as int),
        ensures
            (r is Ready) == cadence_elapsed(now_nanos as int, last_nanos as int),
            r matches CronPoll::Ready(s) ==> s.trigger_time as int == trigger_time_of(
                unix_secs_floor(now_nanos as int),
            ),
    {
        if elapsed(now_nanos, last_nanos) {
            CronPoll::Ready(Self::tick(floor_secs(now_nanos)))
        } else {
            CronPoll::Pending
        }
    }
}

} // verus!
