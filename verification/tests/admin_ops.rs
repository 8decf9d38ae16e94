use auth::admin::{
    audit_record, authorize, authorize_config, authorize_read, authorize_set_user_role, ban_record,
    check_config_value, config_value_text, free_slot, invalidate_step, plan_slot_grant, unban_record,
    AdminOperation, BanUser, GrantInvitations, InvalidateInvite, InvalidateStep, SetServerConfig,
    SetUserRole, UnbanUser, ADMIN_GRANT_SOURCE,
};
use auth::datetime::Timestamp;
use auth::identity::ServiceError;
use auth::model::{AccountId, InviteStatus, MembershipEntity, SuspenseStatus};
use auth::roles::AdminRole;

fn member(role: Option<AdminRole>) -> Option<MembershipEntity> {
    Some(MembershipEntity {
        account: AccountId(1),
        level: 0,
        admin_privilege: role,
        invited_by: None,
        available_invitation_count: 0,
    })
}

#[test]
fn members_without_role_are_denied() {
    assert!(matches!(authorize_read(None), Err(ServiceError::PermissionsDenied)));
    assert!(matches!(authorize_read(member(None)), Err(ServiceError::PermissionsDenied)));
    assert!(matches!(authorize_read(member(Some(AdminRole::Assistant))), Ok(AdminRole::Assistant)));
}

#[test]
fn config_access_is_owner_or_maintainer() {
    assert!(authorize_config(member(Some(AdminRole::SiteOwner))).is_ok());
    assert!(authorize_config(member(Some(AdminRole::Maintainer))).is_ok());
    assert!(authorize_config(member(Some(AdminRole::Moderator))).is_err());
    assert!(authorize_config(member(Some(AdminRole::Assistant))).is_err());
}

#[test]
fn operation_role_tables() {
    assert!(BanUser::is_allowed(AdminRole::Moderator));
    assert!(!BanUser::is_allowed(AdminRole::Assistant));
    assert!(UnbanUser::is_allowed(AdminRole::Maintainer));
    assert!(GrantInvitations::is_allowed(AdminRole::Moderator));
    assert!(!GrantInvitations::is_allowed(AdminRole::Maintainer));
    assert!(!InvalidateInvite::is_allowed(AdminRole::Maintainer));
    assert!(SetServerConfig::is_allowed(AdminRole::Maintainer));
    assert!(!SetServerConfig::is_allowed(AdminRole::Moderator));
    assert!(authorize::<BanUser>(member(Some(AdminRole::Assistant))).is_err());
    assert!(authorize::<GrantInvitations>(member(Some(AdminRole::SiteOwner))).is_ok());
}

#[test]
fn only_the_owner_grants_elevated_roles() {
    let set = |role| SetUserRole { actor: AccountId(1), target: AccountId(2), role };
    assert!(authorize_set_user_role(member(Some(AdminRole::Maintainer)), &set(Some(AdminRole::Moderator))).is_err());
    assert!(authorize_set_user_role(member(Some(AdminRole::Moderator)), &set(Some(AdminRole::SiteOwner))).is_err());
    assert!(authorize_set_user_role(member(Some(AdminRole::Moderator)), &set(Some(AdminRole::Assistant))).is_ok());
    assert!(authorize_set_user_role(member(Some(AdminRole::Maintainer)), &set(None)).is_ok());
    assert!(authorize_set_user_role(member(Some(AdminRole::SiteOwner)), &set(Some(AdminRole::Maintainer))).is_ok());
    assert!(authorize_set_user_role(member(Some(AdminRole::Assistant)), &set(Some(AdminRole::Assistant))).is_err());
}

#[test]
fn audit_contents_are_compact_sorted_json() {
    let ban = BanUser { actor: AccountId(1), target: AccountId(2), reason: "spam \"x\"".to_string() };
    assert_eq!(
        ban.audit_content(),
        r#"{"reason":"spam \"x\"","target":"00000000-0000-0000-0000-000000000002"}"#
    );
    assert_eq!(BanUser::operation_name(), "ban_user");
    let unban = UnbanUser { actor: AccountId(1), target: AccountId(2) };
    assert_eq!(unban.audit_content(), r#"{"target":"00000000-0000-0000-0000-000000000002"}"#);
    let role = SetUserRole { actor: AccountId(1), target: AccountId(2), role: Some(AdminRole::Assistant) };
    assert_eq!(
        role.audit_content(),
        r#"{"role":"assistant","target":"00000000-0000-0000-0000-000000000002"}"#
    );
    let clear = SetUserRole { actor: AccountId(1), target: AccountId(2), role: None };
    assert_eq!(clear.audit_content(), r#"{"role":null,"target":"00000000-0000-0000-0000-000000000002"}"#);
    let grant = GrantInvitations { actor: AccountId(1), target: AccountId(2), count: 3, expire_in_secs: None };
    assert_eq!(
        grant.audit_content(),
        r#"{"count":3,"expire_in_secs":null,"target":"00000000-0000-0000-0000-000000000002"}"#
    );
    let grant2 = GrantInvitations { actor: AccountId(1), target: AccountId(2), count: -1, expire_in_secs: Some(60) };
    assert_eq!(
        grant2.audit_content(),
        r#"{"count":-1,"expire_in_secs":60,"target":"00000000-0000-0000-0000-000000000002"}"#
    );
    let inv = InvalidateInvite { actor: AccountId(1), invite_id: 42 };
    assert_eq!(inv.audit_content(), r#"{"invite_id":42}"#);
    let cfg = SetServerConfig { actor: AccountId(1), key: "auth".to_string(), value: "{}".to_string() };
    assert_eq!(cfg.audit_content(), r#"{"key":"auth"}"#);
    let rec = audit_record(&inv, AccountId(1));
    assert_eq!(rec.operation_name, "invalidate_invite");
    assert_eq!(rec.operation_content, r#"{"invite_id":42}"#);
    assert_eq!(rec.admin, AccountId(1));
}

#[test]
fn ban_and_unban_records() {
    let ban = BanUser { actor: AccountId(1), target: AccountId(2), reason: "spam".to_string() };
    let r = ban_record(&ban);
    assert_eq!(r.account_id, AccountId(2));
    assert_eq!(r.status, SuspenseStatus::Suspended);
    assert_eq!(r.reason, "spam");
    assert_eq!(r.operated_by, Some(AccountId(1)));
    let u = unban_record(&UnbanUser { actor: AccountId(1), target: AccountId(2) });
    assert_eq!(u.status, SuspenseStatus::Active);
    assert_eq!(u.reason, "");
}

#[test]
fn slot_grants() {
    let now = Timestamp(1_000_000);
    assert!(matches!(plan_slot_grant(AccountId(2), 0, None, now), Err(ServiceError::InvalidInput)));
    assert!(matches!(plan_slot_grant(AccountId(2), -4, None, now), Err(ServiceError::InvalidInput)));
    let g = plan_slot_grant(AccountId(2), 3, Some(60), now).expect("grant");
    assert_eq!(g.count, 3);
    assert_eq!(g.will_expire_at, Some(Timestamp(61_000_000)));
    let slot = free_slot(&g, ADMIN_GRANT_SOURCE);
    assert_eq!(slot.owner, AccountId(2));
    assert_eq!(slot.status, InviteStatus::Free);
    assert_eq!(slot.source, "admin_grant");
    assert_eq!(slot.invite_token.len(), 52);
    assert_eq!(plan_slot_grant(AccountId(2), 1, None, now).expect("grant").will_expire_at, None);
}

#[test]
fn invalidation_outcomes() {
    assert_eq!(invalidate_step(None), InvalidateStep::Nothing);
    assert_eq!(invalidate_step(Some(InviteStatus::Pending)), InvalidateStep::Invalidated { expire_pending: true });
    assert_eq!(invalidate_step(Some(InviteStatus::Free)), InvalidateStep::Invalidated { expire_pending: false });
}

#[test]
fn server_config_values() {
    let set = |v: &str| SetServerConfig { actor: AccountId(1), key: "k".to_string(), value: v.to_string() };
    assert!(check_config_value(&set("{\"a\":1}")).is_ok());
    assert!(check_config_value(&set("3")).is_ok());
    assert!(matches!(check_config_value(&set("{oops")), Err(ServiceError::InvalidInput)));
    assert_eq!(config_value_text(None), "null");
    assert_eq!(config_value_text(Some("{\"a\":1}".to_string())), "{\"a\":1}");
}
