use auth::datetime::Timestamp;
use auth::decimal::Amount;
use auth::identity::ServiceError;
use auth::model::{AccountEntity, AccountId, CreditEntity, InviteEntity, InviteId, InviteStatus, MembershipEntity};
use auth::profile::{credit_or_zero, invitation_grouping, invitation_summary, load_profile};

fn invite(status: InviteStatus) -> InviteEntity {
    InviteEntity {
        id: InviteId(1),
        owner: AccountId(1),
        invite_token: "t".to_string(),
        created_at: Timestamp(0),
        will_expire_at: None,
        last_status_change: Timestamp(0),
        status,
        source: "s".to_string(),
    }
}

fn membership(available: i32) -> MembershipEntity {
    MembershipEntity {
        account: AccountId(1),
        level: 2,
        admin_privilege: None,
        invited_by: None,
        available_invitation_count: available,
    }
}

#[test]
fn grouping_counts_each_status() {
    let invites = vec![
        invite(InviteStatus::Accepted),
        invite(InviteStatus::Pending),
        invite(InviteStatus::Free),
        invite(InviteStatus::Free),
        invite(InviteStatus::Expired),
        invite(InviteStatus::Invalid),
        invite(InviteStatus::Accepted),
    ];
    let g = invitation_grouping(Some(membership(4)), &invites);
    assert_eq!(g.available_count, 4);
    assert_eq!((g.accepted, g.expired, g.invalid, g.pending, g.free), (2, 1, 1, 1, 2));
    assert_eq!(g.accepted + g.expired + g.invalid + g.pending + g.free, invites.len() as u32);
    let s = invitation_summary(Some(membership(4)), &invites);
    assert_eq!(s.available_count, 4);
    assert_eq!(s.sent_count, 5);
    assert_eq!(s.sent_count, g.accepted + g.expired + g.invalid + g.pending);
}

#[test]
fn no_membership_means_no_available_invitations() {
    let g = invitation_grouping(None, &vec![]);
    assert_eq!(g.available_count, 0);
    assert_eq!((g.accepted, g.free), (0, 0));
    let s = invitation_summary(None, &vec![invite(InviteStatus::Free)]);
    assert_eq!((s.available_count, s.sent_count), (0, 0));
}

#[test]
fn missing_credit_reads_as_zero() {
    let zero = credit_or_zero(AccountId(3), None);
    assert_eq!(zero.account, AccountId(3));
    assert_eq!(zero.total_amount, Amount { mantissa: 0, scale: 0 });
    assert_eq!(zero.frozen_amount, Amount { mantissa: 0, scale: 0 });
    let row = CreditEntity {
        account: AccountId(3),
        total_amount: Amount { mantissa: 105, scale: 1 },
        frozen_amount: Amount { mantissa: 0, scale: 0 },
    };
    assert_eq!(credit_or_zero(AccountId(3), Some(row)).total_amount, Amount { mantissa: 105, scale: 1 });
}

#[test]
fn profile_needs_an_account() {
    assert!(matches!(load_profile(None, Some(membership(1))), Err(ServiceError::NotFound)));
    let account = AccountEntity {
        id: AccountId(3),
        username: "u".to_string(),
        email: "u@example.com".to_string(),
        avatar_url: None,
        password_hash: String::new(),
        registered_at: Timestamp(0),
    };
    let p = load_profile(Some(account), None).expect("profile");
    assert_eq!(p.account.username, "u");
    assert!(p.membership.is_none());
}
