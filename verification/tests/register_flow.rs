use auth::account::{
    change_password_step, plan_admin_account, ChangePassword, ChangePasswordResult,
    ChangePasswordStep, Register, RegisterAction, RegisterEvent, RegisterFlow, RegisterResult,
};
use auth::datetime::{to_unix, Timestamp};
use auth::identity::ServiceError;
use auth::model::{
    AccountEntity, AccountId, CreateAccountResult, InviteEntity, InviteId, InviteStatus,
    PendingInvitationEntity, PendingInvitationStatus,
};
use auth::password::{Argon2PasswordAlgorithm, PasswordAlgorithm};
use auth::roles::AdminRole;

fn register(email: &str, token: Option<&str>) -> Register {
    Register {
        username: "newbie".to_string(),
        email: email.to_string(),
        password: "secret-pw".to_string(),
        invite_token: token.map(|t| t.to_string()),
    }
}

fn invite(status: InviteStatus, will_expire_at: Option<Timestamp>) -> InviteEntity {
    InviteEntity {
        id: InviteId(77),
        owner: AccountId(1),
        invite_token: "tok".to_string(),
        created_at: Timestamp(0),
        will_expire_at,
        last_status_change: Timestamp(0),
        status,
        source: "admin_grant".to_string(),
    }
}

fn pin(email: &str, status: PendingInvitationStatus) -> PendingInvitationEntity {
    PendingInvitationEntity {
        id: 3,
        invite: InviteId(77),
        email: email.to_string(),
        sent_at: Timestamp(0),
        will_release_at: Timestamp(0),
        last_status_change: Timestamp(0),
        status,
    }
}

#[test]
fn register_rejects_invalid_email_and_missing_token() {
    let (_, action) = RegisterFlow::start(register("not-an-email", Some("tok")));
    assert!(matches!(action, RegisterAction::Reply(Err(ServiceError::InvalidInput))));
    let (_, action) = RegisterFlow::start(register("a@example.com", None));
    assert!(matches!(action, RegisterAction::Reply(Ok(RegisterResult::InvalidInvite))));
    let (_, action) = RegisterFlow::start(register("a@example.com", Some("tok")));
    assert!(matches!(action, RegisterAction::FindInviteByToken(ref q) if q.invite_token == "tok"));
}

#[test]
fn register_rejects_unusable_invites() {
    for found in [
        None,
        Some(invite(InviteStatus::Free, None)),
        Some(invite(InviteStatus::Accepted, None)),
        Some(invite(InviteStatus::Pending, Some(Timestamp(0)))),
    ] {
        let (flow, _) = RegisterFlow::start(register("a@example.com", Some("tok")));
        let (_, action) = flow.step(RegisterEvent::InviteFound(found));
        assert!(matches!(action, RegisterAction::Reply(Ok(RegisterResult::InvalidInvite))));
    }
}

#[test]
fn register_requires_the_invite_pinned_to_the_email() {
    for found in [
        None,
        Some(pin("other@example.com", PendingInvitationStatus::Pending)),
        Some(pin("a@example.com", PendingInvitationStatus::Expired)),
    ] {
        let (flow, _) = RegisterFlow::start(register("a@example.com", Some("tok")));
        let (flow, action) = flow.step(RegisterEvent::InviteFound(Some(invite(InviteStatus::Pending, None))));
        assert!(matches!(action, RegisterAction::FindPendingInvitationByInvite(InviteId(77))));
        let (_, action) = flow.step(RegisterEvent::PinFound(found));
        assert!(matches!(action, RegisterAction::Reply(Ok(RegisterResult::InvalidInvite))));
    }
}

#[test]
fn register_success_writes_the_records() {
    let (flow, _) = RegisterFlow::start(register("a@example.com", Some("tok")));
    let now = flow.now;
    let far = Timestamp(now.0 + 1_000_000_000);
    let (flow, _) = flow.step(RegisterEvent::InviteFound(Some(invite(InviteStatus::Pending, Some(far)))));
    let (flow, action) = flow.step(RegisterEvent::PinFound(Some(pin("a@example.com", PendingInvitationStatus::Pending))));
    let user_id = match action {
        RegisterAction::CreateAccount(acc) => {
            assert_eq!(acc.username, "newbie");
            assert_eq!(acc.email, "a@example.com");
            assert!(acc.avatar_url.is_none());
            assert!(Argon2PasswordAlgorithm.verify_password("secret-pw", &acc.password_hash));
            acc.id
        }
        _ => panic!("expected the account to be created"),
    };
    let (flow, action) = flow.step(RegisterEvent::AccountInserted(CreateAccountResult::Success));
    match action {
        RegisterAction::Persist(rec) => {
            assert_eq!(rec.membership.account, user_id);
            assert_eq!(rec.membership.level, 0);
            assert_eq!(rec.membership.admin_privilege, None);
            assert_eq!(rec.membership.invited_by, Some(InviteId(77)));
            assert_eq!(rec.credit_account, user_id);
            assert_eq!(rec.invite_status.id, InviteId(77));
            assert_eq!(rec.invite_status.status, InviteStatus::Accepted);
            assert_eq!(rec.accept_pending.invite, InviteId(77));
            assert_eq!(rec.accepted.inviter_id, 1);
            assert_eq!(rec.accepted.new_member_id, user_id.0);
            assert_eq!(rec.accepted.new_member_username, "newbie");
            assert_eq!(rec.accepted.accepted_at, to_unix(now));
            assert_eq!(rec.registered.email, "a@example.com");
            assert_eq!(rec.registered.invited_by, Some(77));
        }
        _ => panic!("expected the registration records"),
    }
    let (_, action) = flow.step(RegisterEvent::Finalized);
    assert!(matches!(action, RegisterAction::Reply(Ok(RegisterResult::Success { user_id: u })) if u == user_id));
}

#[test]
fn register_reports_taken_email_and_username() {
    for (inserted, expected) in [
        (CreateAccountResult::EmailTaken, RegisterResult::EmailTaken),
        (CreateAccountResult::UsernameTaken, RegisterResult::UsernameTaken),
    ] {
        let (flow, _) = RegisterFlow::start(register("a@example.com", Some("tok")));
        let (flow, _) = flow.step(RegisterEvent::InviteFound(Some(invite(InviteStatus::Pending, None))));
        let (flow, _) = flow.step(RegisterEvent::PinFound(Some(pin("a@example.com", PendingInvitationStatus::Pending))));
        let (_, action) = flow.step(RegisterEvent::AccountInserted(inserted));
        assert!(matches!(action, RegisterAction::Reply(Ok(r)) if r == expected));
    }
}

#[test]
fn change_password_outcomes() {
    let hash = Argon2PasswordAlgorithm.hash_password("old").expect("hash");
    let account = |h: &str| AccountEntity {
        id: AccountId(2),
        username: "u".to_string(),
        email: "u@example.com".to_string(),
        avatar_url: None,
        password_hash: h.to_string(),
        registered_at: Timestamp(0),
    };
    let wrong = ChangePassword { user_id: AccountId(2), old_password: "nope".to_string(), new_password: "n".to_string() };
    assert!(matches!(change_password_step(&wrong, None), ChangePasswordStep::Reply(Err(ServiceError::NotFound))));
    let right = ChangePassword { user_id: AccountId(2), old_password: "old".to_string(), new_password: "new".to_string() };
    assert!(matches!(
        change_password_step(&wrong, Some(account(&hash))),
        ChangePasswordStep::Reply(Ok(ChangePasswordResult::WrongPassword))
    ));
    match change_password_step(&right, Some(account(&hash))) {
        ChangePasswordStep::Update { id, password_hash } => {
            assert_eq!(id, AccountId(2));
            assert!(Argon2PasswordAlgorithm.verify_password("new", &password_hash));
        }
        _ => panic!("expected the hash to be updated"),
    }
}

#[test]
fn admin_bootstrap_plan() {
    let plan = plan_admin_account("root@example.com".to_string(), "root".to_string(), "pw", AdminRole::SiteOwner)
        .expect("hash");
    assert_eq!(plan.account.email, "root@example.com");
    assert_eq!(plan.membership.account, plan.account.id);
    assert_eq!(plan.membership.admin_privilege, Some(AdminRole::SiteOwner));
    assert_eq!(plan.membership.invited_by, None);
    assert_eq!((plan.account.id.0 >> 76) & 0xf, 4);
}
