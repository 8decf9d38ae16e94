use auth::datetime::Timestamp;
use auth::decimal::Amount;
use auth::admin::{check_config_value, SetServerConfig};
use auth::model::CreditEntity;
use auth::wire::{credit_view, try_credit_view};
use auth::hooks::{ban_plan, credit_change, invite_expires, slot_grant};
use auth::identity::ServiceError;
use auth::json::{i64_decimal, json_object, u64_decimal};
use auth::messages::{AddInvitationSlotEvent, CreditChangeEvent, SystemBanEvent};
use auth::model::{AccountId, InviteEntity, InviteId, InviteStatus, SuspenseStatus};
use auth::store::{invitation_cleanup, session_cleanup};

#[test]
fn ban_events_record_state_and_end_sessions() {
    let plan = ban_plan(SystemBanEvent { user_id: 4, banned: true, reason: "r".to_string(), operated_by: Some(9) });
    assert_eq!(plan.suspense.account_id, AccountId(4));
    assert_eq!(plan.suspense.status, SuspenseStatus::Suspended);
    assert_eq!(plan.suspense.operated_by, Some(AccountId(9)));
    assert!(plan.terminate_sessions);
    let plan = ban_plan(SystemBanEvent { user_id: 4, banned: false, reason: String::new(), operated_by: None });
    assert_eq!(plan.suspense.status, SuspenseStatus::Active);
    assert!(!plan.terminate_sessions);
}

#[test]
fn credit_events_need_decimal_deltas() {
    let ok = credit_change(CreditChangeEvent {
        user_id: 4,
        available_delta: "10.5".to_string(),
        frozen_delta: "0".to_string(),
        reason: "top-up".to_string(),
    })
    .expect("valid");
    assert_eq!(ok.available_delta, Amount { mantissa: 105, scale: 1 });
    assert_eq!(ok.frozen_delta, Amount { mantissa: 0, scale: 0 });
    let view = credit_view(&CreditEntity { account: AccountId(4), total_amount: ok.available_delta, frozen_amount: ok.frozen_delta });
    assert_eq!(view.total, "10.5");
    assert_eq!(view.available, "10.5");
    assert!(matches!(
        credit_change(CreditChangeEvent {
            user_id: 4,
            available_delta: "ten".to_string(),
            frozen_delta: "0".to_string(),
            reason: String::new(),
        }),
        Err(ServiceError::InvalidInput)
    ));
    assert!(matches!(
        credit_change(CreditChangeEvent {
            user_id: 4,
            available_delta: "1".to_string(),
            frozen_delta: "".to_string(),
            reason: String::new(),
        }),
        Err(ServiceError::InvalidInput)
    ));
}

#[test]
fn decimals_subtract_and_print() {
    let change = |a: &str, f: &str| {
        credit_change(CreditChangeEvent {
            user_id: 1,
            available_delta: a.to_string(),
            frozen_delta: f.to_string(),
            reason: String::new(),
        })
        .expect("decimal deltas")
    };
    let c = change("10.5", "0.5");
    let view = credit_view(&CreditEntity { account: AccountId(1), total_amount: c.available_delta, frozen_amount: c.frozen_delta });
    assert_eq!(view.available, "10.0");
    let max = Amount { mantissa: 0xFFFF_FFFF_FFFF_FFFF_FFFF_FFFF, scale: 0 };
    let neg = Amount { mantissa: -1, scale: 0 };
    assert!(try_credit_view(&CreditEntity { account: AccountId(1), total_amount: max, frozen_amount: neg }).is_none());
    let sci = change("1e3", "-2");
    let view = credit_view(&CreditEntity { account: AccountId(1), total_amount: sci.available_delta, frozen_amount: sci.frozen_delta });
    assert_eq!((view.total.as_str(), view.frozen.as_str(), view.available.as_str()), ("1000", "-2", "1002"));
}

#[test]
fn slot_events_need_a_positive_count() {
    let ev = |count| AddInvitationSlotEvent { user_id: 4, count, expire_in_secs: None, source: "promo".to_string() };
    assert!(matches!(slot_grant(&ev(0), Timestamp(0)), Err(ServiceError::InvalidInput)));
    let g = slot_grant(&ev(2), Timestamp(0)).expect("grant");
    assert_eq!((g.owner, g.count, g.will_expire_at), (AccountId(4), 2, None));
}

#[test]
fn cleanup_expires_only_lapsed_pending_invites() {
    let inv = |status, exp| InviteEntity {
        id: InviteId(1),
        owner: AccountId(1),
        invite_token: "t".to_string(),
        created_at: Timestamp(0),
        will_expire_at: exp,
        last_status_change: Timestamp(0),
        status,
        source: "s".to_string(),
    };
    assert!(invite_expires(&inv(InviteStatus::Pending, Some(Timestamp(5))), Timestamp(6)));
    assert!(!invite_expires(&inv(InviteStatus::Pending, Some(Timestamp(5))), Timestamp(5)));
    assert!(!invite_expires(&inv(InviteStatus::Free, Some(Timestamp(5))), Timestamp(6)));
    assert!(!invite_expires(&inv(InviteStatus::Pending, None), Timestamp(6)));
    let (a, b) = invitation_cleanup(Timestamp(6));
    assert_eq!((a.now, b.now), (Timestamp(6), Timestamp(6)));
    assert_eq!(session_cleanup(Timestamp(7)).now, Timestamp(7));
}

#[test]
fn decimal_text() {
    assert_eq!(u64_decimal(0), "0");
    assert_eq!(u64_decimal(1_209_600), "1209600");
    assert_eq!(u64_decimal(u64::MAX), "18446744073709551615");
    assert_eq!(i64_decimal(-42), "-42");
    assert_eq!(i64_decimal(i64::MIN), "-9223372036854775808");
}

#[test]
fn json_objects() {
    assert_eq!(json_object(&vec![]), "{}");
    let entries = vec![
        ("a".to_string(), "1".to_string()),
        ("b\"".to_string(), "\"x\\ny\"".to_string()),
    ];
    assert_eq!(json_object(&entries), "{\"a\":1,\"b\\\"\":\"x\\ny\"}");
    let set = |v: String| SetServerConfig { actor: AccountId(1), key: "k".to_string(), value: v };
    assert!(check_config_value(&set(json_object(&entries))).is_ok());
    assert!(check_config_value(&set(String::new())).is_err());
}
