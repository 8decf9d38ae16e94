use auth::events::{CronPoll, InvitationExpiryCleanupSignal, SessionCleanupSignal};

const NS: i128 = 1_000_000_000;

#[test]
fn tick_records_unix_seconds() {
    assert_eq!(SessionCleanupSignal::tick(1_700_000_000).trigger_time, 1_700_000_000);
    assert_eq!(SessionCleanupSignal::tick(-5).trigger_time, 0);
    assert_eq!(InvitationExpiryCleanupSignal::tick(42).trigger_time, 42);
}

#[test]
fn time_pool_waits_for_a_full_hour() {
    let last = 1_000 * NS;
    assert!(matches!(
        SessionCleanupSignal::time_pool(last + 3_600 * NS - 1, last),
        CronPoll::Pending
    ));
    match SessionCleanupSignal::time_pool(last + 3_600 * NS, last) {
        CronPoll::Ready(s) => assert_eq!(s.trigger_time, 4_600),
        CronPoll::Pending => panic!("an hour has passed"),
    }
    match InvitationExpiryCleanupSignal::time_pool(last + 7_200 * NS + 5, last) {
        CronPoll::Ready(s) => assert_eq!(s.trigger_time, 8_200),
        CronPoll::Pending => panic!("two hours have passed"),
    }
    assert!(matches!(
        InvitationExpiryCleanupSignal::time_pool(last, last + 3_600 * NS),
        CronPoll::Pending
    ));
}

#[test]
fn time_pool_before_epoch_rounds_down() {
    match SessionCleanupSignal::time_pool(-NS / 2, -NS / 2 - 3_600 * NS) {
        CronPoll::Ready(s) => assert_eq!(s.trigger_time, 0),
        CronPoll::Pending => panic!("an hour has passed"),
    }
}
