use auth::admin::{BanUser, GrantInvitations, InvalidateInvite, SetServerConfig, SetUserRole, ADMIN_GRANT_SOURCE};
use auth::admin_flow::{AdminAction, AdminEvent, AdminFlow, AdminReply, AdminRequest, AdminWrite};
use auth::datetime::Timestamp;
use auth::identity::ServiceError;
use auth::model::{AccountId, InviteId, InviteStatus, MembershipEntity, SuspenseStatus};
use auth::roles::AdminRole;

fn member(role: Option<AdminRole>) -> Option<MembershipEntity> {
    Some(MembershipEntity {
        account: AccountId(1),
        level: 0,
        admin_privilege: role,
        invited_by: None,
        available_invitation_count: 0,
    })
}

fn authorized(request: AdminRequest, role: AdminRole) -> (AdminFlow, AdminAction) {
    let (flow, action) = AdminFlow::start(request, Timestamp(1_000_000));
    assert!(matches!(action, AdminAction::FindMembership(AccountId(1))));
    flow.step(AdminEvent::MembershipFound(member(Some(role))))
}

#[test]
fn ban_suspends_terminates_audits_and_answers() {
    let ban = BanUser { actor: AccountId(1), target: AccountId(2), reason: "spam".to_string() };
    let (flow, action) = authorized(AdminRequest::Ban(ban), AdminRole::Moderator);
    match action {
        AdminAction::Write(AdminWrite::InsertSuspense(s)) => {
            assert_eq!(s.account_id, AccountId(2));
            assert_eq!(s.status, SuspenseStatus::Suspended);
            assert_eq!(s.reason, "spam");
            assert_eq!(s.operated_by, Some(AccountId(1)));
        }
        _ => panic!("expected the suspension row"),
    }
    let (flow, action) = flow.step(AdminEvent::Written);
    assert!(matches!(action, AdminAction::Write(AdminWrite::TerminateAllSessions(t)) if t.user_id == AccountId(2)));
    let (flow, action) = flow.step(AdminEvent::Written);
    match action {
        AdminAction::Write(AdminWrite::AddAuditLog(rec)) => {
            assert_eq!(rec.admin, AccountId(1));
            assert_eq!(rec.operation_name, "ban_user");
            assert_eq!(rec.operation_content, r#"{"reason":"spam","target":"00000000-0000-0000-0000-000000000002"}"#);
        }
        _ => panic!("expected the audit entry"),
    }
    let (_, action) = flow.step(AdminEvent::Written);
    assert!(matches!(action, AdminAction::Reply(Ok(AdminReply::Done))));
}

#[test]
fn unauthorized_mutation_writes_nothing() {
    let ban = BanUser { actor: AccountId(1), target: AccountId(2), reason: "spam".to_string() };
    let (_, action) = authorized(AdminRequest::Ban(ban), AdminRole::Assistant);
    assert!(matches!(action, AdminAction::Reply(Err(ServiceError::PermissionsDenied))));
    let (flow, _) = AdminFlow::start(
        AdminRequest::SetConfig(SetServerConfig { actor: AccountId(1), key: "k".to_string(), value: "1".to_string() }),
        Timestamp(0),
    );
    let (_, action) = flow.step(AdminEvent::MembershipFound(None));
    assert!(matches!(action, AdminAction::Reply(Err(ServiceError::PermissionsDenied))));
}

#[test]
fn role_change_above_own_rank_is_denied() {
    let set = SetUserRole { actor: AccountId(1), target: AccountId(2), role: Some(AdminRole::Maintainer) };
    let (_, action) = authorized(AdminRequest::SetRole(set), AdminRole::Moderator);
    assert!(matches!(action, AdminAction::Reply(Err(ServiceError::PermissionsDenied))));
    let set = SetUserRole { actor: AccountId(1), target: AccountId(2), role: Some(AdminRole::Maintainer) };
    let (_, action) = authorized(AdminRequest::SetRole(set), AdminRole::SiteOwner);
    assert!(matches!(
        action,
        AdminAction::Write(AdminWrite::SetAdminRole { account: AccountId(2), role: Some(AdminRole::Maintainer) })
    ));
}

#[test]
fn grant_mints_each_slot_then_counts() {
    let grant = GrantInvitations { actor: AccountId(1), target: AccountId(2), count: 2, expire_in_secs: Some(60) };
    let (mut flow, mut action) = authorized(AdminRequest::Grant(grant), AdminRole::Moderator);
    let mut minted = 0;
    while let AdminAction::Write(AdminWrite::CreateInvite(inv)) = &action {
        assert_eq!(inv.owner, AccountId(2));
        assert_eq!(inv.status, InviteStatus::Free);
        assert_eq!(inv.source, ADMIN_GRANT_SOURCE);
        assert_eq!(inv.will_expire_at, Some(Timestamp(61_000_000)));
        minted += 1;
        let next = flow.step(AdminEvent::Written);
        flow = next.0;
        action = next.1;
    }
    assert_eq!(minted, 2);
    assert!(matches!(action, AdminAction::Write(AdminWrite::AddAuditLog(_))));
    let (flow, action) = flow.step(AdminEvent::Written);
    assert!(matches!(action, AdminAction::CountFreeInvites { owner: AccountId(2), now: Timestamp(1_000_000) }));
    let (_, action) = flow.step(AdminEvent::Counted(5));
    assert!(matches!(action, AdminAction::Reply(Ok(AdminReply::FreeSlots(5)))));
}

#[test]
fn grant_of_no_slots_is_invalid() {
    let grant = GrantInvitations { actor: AccountId(1), target: AccountId(2), count: 0, expire_in_secs: None };
    let (_, action) = authorized(AdminRequest::Grant(grant), AdminRole::SiteOwner);
    assert!(matches!(action, AdminAction::Reply(Err(ServiceError::InvalidInput))));
}

#[test]
fn invalidating_a_pending_invite_expires_its_invitations() {
    let inv = InvalidateInvite { actor: AccountId(1), invite_id: 7 };
    let (flow, action) = authorized(AdminRequest::Invalidate(inv), AdminRole::Moderator);
    assert!(matches!(action, AdminAction::Write(AdminWrite::InvalidateInvite(InviteId(7)))));
    let (flow, action) = flow.step(AdminEvent::Invalidated(Some(InviteStatus::Pending)));
    assert!(matches!(action, AdminAction::Write(AdminWrite::ExpirePendingInvitationsByInvite(InviteId(7)))));
    let (flow, action) = flow.step(AdminEvent::Written);
    assert!(matches!(action, AdminAction::Write(AdminWrite::AddAuditLog(_))));
    let (_, action) = flow.step(AdminEvent::Written);
    assert!(matches!(action, AdminAction::Reply(Ok(AdminReply::Invalidated(true)))));
}

#[test]
fn invalidating_a_free_invite_skips_expiry() {
    let inv = InvalidateInvite { actor: AccountId(1), invite_id: 7 };
    let (flow, _) = authorized(AdminRequest::Invalidate(inv), AdminRole::SiteOwner);
    let (flow, action) = flow.step(AdminEvent::Invalidated(Some(InviteStatus::Free)));
    assert!(matches!(action, AdminAction::Write(AdminWrite::AddAuditLog(_))));
    let (_, action) = flow.step(AdminEvent::Written);
    assert!(matches!(action, AdminAction::Reply(Ok(AdminReply::Invalidated(true)))));
}

#[test]
fn invalidating_nothing_answers_false_without_audit() {
    let inv = InvalidateInvite { actor: AccountId(1), invite_id: 7 };
    let (flow, _) = authorized(AdminRequest::Invalidate(inv), AdminRole::Moderator);
    let (_, action) = flow.step(AdminEvent::Invalidated(None));
    assert!(matches!(action, AdminAction::Reply(Ok(AdminReply::Invalidated(false)))));
}

#[test]
fn config_value_must_be_json() {
    let set = SetServerConfig { actor: AccountId(1), key: "motd".to_string(), value: "not json".to_string() };
    let (_, action) = authorized(AdminRequest::SetConfig(set), AdminRole::Maintainer);
    assert!(matches!(action, AdminAction::Reply(Err(ServiceError::InvalidInput))));
    let set = SetServerConfig { actor: AccountId(1), key: "motd".to_string(), value: "\"hi\"".to_string() };
    let (flow, action) = authorized(AdminRequest::SetConfig(set), AdminRole::Maintainer);
    assert!(matches!(&action, AdminAction::Write(AdminWrite::SetConfigValue { key, value }) if key == "motd" && value == "\"hi\""));
    let (_, action) = flow.step(AdminEvent::Written);
    assert!(matches!(action, AdminAction::Write(AdminWrite::AddAuditLog(rec)) if rec.operation_name == "set_server_config"));
}

#[test]
fn unexpected_event_ends_with_a_panic_reply() {
    let inv = InvalidateInvite { actor: AccountId(1), invite_id: 7 };
    let (flow, _) = AdminFlow::start(AdminRequest::Invalidate(inv), Timestamp(0));
    let (_, action) = flow.step(AdminEvent::Written);
    assert!(matches!(action, AdminAction::Reply(Err(ServiceError::BusinessPanic(_)))));
}
