use auth::datetime::{add_secs, from_unix, pg_interval_from_secs, to_unix, Timestamp};

#[test]
fn unix_round_trip() {
    for secs in [0u64, 1, 59, 1_700_000_000, 253_402_300_799] {
        assert_eq!(to_unix(from_unix(secs)), secs);
    }
}

#[test]
fn to_unix_clamps_and_truncates() {
    assert_eq!(to_unix(Timestamp(-1)), 0);
    assert_eq!(to_unix(Timestamp(-5_000_000)), 0);
    assert_eq!(to_unix(Timestamp(1_999_999)), 1);
}

#[test]
fn from_unix_out_of_range_is_epoch() {
    assert_eq!(from_unix(253_402_300_800), Timestamp(0));
    assert_eq!(from_unix(u64::MAX), Timestamp(-1_000_000));
    assert_eq!(from_unix(10), Timestamp(10_000_000));
}

#[test]
fn interval_from_secs_saturates() {
    let iv = pg_interval_from_secs(604_800);
    assert_eq!((iv.months, iv.days, iv.microseconds), (0, 0, 604_800_000_000));
    assert_eq!(pg_interval_from_secs(u64::MAX).microseconds, -1_000_000);
    assert_eq!(pg_interval_from_secs(1u64 << 62).microseconds, i64::MAX);
    assert_eq!(pg_interval_from_secs(1u64 << 63).microseconds, i64::MIN);
}

#[test]
fn add_secs_moves_forward() {
    assert_eq!(add_secs(Timestamp(1_000_000), 60), Timestamp(61_000_000));
    assert_eq!(add_secs(Timestamp(0), u64::MAX), Timestamp(-1_000_000));
}
