use auth::config::AuthConfig;
use auth::datetime::{to_unix, Timestamp};
use auth::invitation::{
    generate_invite_token, ClaimedInvite, ResendAction, ResendEvent, ResendFlow, ResendInvitationEmail,
    ResendResult, SendAction, SendEvent, SendFlow, SendInvitation, SendInvitationResult,
};
use auth::model::{
    AccountEntity, AccountId, InviteEntity, InviteId, InviteStatus, PendingInvitationEntity,
    PendingInvitationStatus,
};

const NOW: Timestamp = Timestamp(1_700_000_000_000_000);

fn send(email: &str) -> SendInvitation {
    SendInvitation { actor: AccountId(1), email: email.to_string() }
}

fn cfg() -> AuthConfig {
    AuthConfig::default()
}

#[test]
fn invite_tokens_are_base32() {
    let t = generate_invite_token();
    assert_eq!(t.len(), 52);
    assert!(t.chars().all(|c| c.is_ascii_uppercase() || ('2'..='7').contains(&c)));
}

#[test]
fn send_rejects_invalid_and_registered_emails() {
    let (_, action) = SendFlow::start(send("nope"));
    assert!(matches!(action, SendAction::Reply(Ok(SendInvitationResult::EmailInvalid))));
    let (flow, action) = SendFlow::start(send("x@example.com"));
    assert!(matches!(action, SendAction::FindAccountByEmail(ref e) if e == "x@example.com"));
    let existing = AccountEntity {
        id: AccountId(2),
        username: "x".to_string(),
        email: "x@example.com".to_string(),
        avatar_url: None,
        password_hash: String::new(),
        registered_at: Timestamp(0),
    };
    let (_, action) = flow.step(SendEvent::AccountFound(Some(existing)));
    assert!(matches!(action, SendAction::Reply(Ok(SendInvitationResult::AlreadyRegistered))));
}

#[test]
fn send_without_free_slot() {
    let (flow, _) = SendFlow::start(send("x@example.com"));
    let (flow, action) = flow.step(SendEvent::AccountFound(None));
    assert!(matches!(action, SendAction::LoadSettings));
    let (flow, _) = flow.step(SendEvent::SettingsLoaded { cfg: cfg(), now: NOW });
    let (_, action) = flow.step(SendEvent::Claimed(None));
    assert!(matches!(action, SendAction::Reply(Ok(SendInvitationResult::NoInvitationLeft))));
}

#[test]
fn send_claims_a_slot_and_announces_it() {
    let (flow, _) = SendFlow::start(send("x@example.com"));
    let (flow, _) = flow.step(SendEvent::AccountFound(None));
    let (flow, action) = flow.step(SendEvent::SettingsLoaded { cfg: cfg(), now: NOW });
    let token = match action {
        SendAction::ClaimFreeInviteAndPin(c) => {
            assert_eq!(c.owner, AccountId(1));
            assert_eq!(c.email, "x@example.com");
            assert_eq!(c.now, NOW);
            assert_eq!(c.expiry, Timestamp(NOW.0 + 1_209_600 * 1_000_000));
            c.new_token
        }
        _ => panic!("expected a claim"),
    };
    let (flow, action) = flow.step(SendEvent::Claimed(Some(ClaimedInvite { invite: InviteId(5), pending_id: 8 })));
    match action {
        SendAction::SendInvitationEvent(e) => {
            assert_eq!(e.invite_id, 8);
            assert_eq!(e.email, "x@example.com");
            assert_eq!(e.invite_token, token);
            assert_eq!(e.sent_at, to_unix(NOW));
        }
        _ => panic!("expected the invitation event"),
    }
    let (_, action) = flow.step(SendEvent::EventSent);
    assert!(matches!(action, SendAction::Reply(Ok(SendInvitationResult::Sent))));
}

fn pending() -> PendingInvitationEntity {
    PendingInvitationEntity {
        id: 8,
        invite: InviteId(5),
        email: "x@example.com".to_string(),
        sent_at: Timestamp(0),
        will_release_at: Timestamp(0),
        last_status_change: Timestamp(0),
        status: PendingInvitationStatus::Pending,
    }
}

fn invite(owner: u128, status: InviteStatus) -> InviteEntity {
    InviteEntity {
        id: InviteId(5),
        owner: AccountId(owner),
        invite_token: "old".to_string(),
        created_at: Timestamp(0),
        will_expire_at: None,
        last_status_change: Timestamp(0),
        status,
        source: "s".to_string(),
    }
}

#[test]
fn resend_only_for_the_owner_while_pending() {
    let input = || ResendInvitationEmail { actor: AccountId(1), pending_invitation_id: 8 };
    let (flow, action) = ResendFlow::start(input());
    assert!(matches!(action, ResendAction::FindPendingInvitation(q) if q.id == 8));
    let (_, action) = flow.step(ResendEvent::PendingFound(None));
    assert!(matches!(action, ResendAction::Reply(Ok(ResendResult::NotFound))));
    for found in [None, Some(invite(2, InviteStatus::Pending)), Some(invite(1, InviteStatus::Accepted))] {
        let (flow, _) = ResendFlow::start(input());
        let (flow, action) = flow.step(ResendEvent::PendingFound(Some(pending())));
        assert!(matches!(action, ResendAction::FindInviteById(q) if q.id == InviteId(5)));
        let (_, action) = flow.step(ResendEvent::InviteFound(found));
        assert!(matches!(action, ResendAction::Reply(Ok(ResendResult::NotFound))));
    }
}

#[test]
fn resend_refreshes_token_and_expiry() {
    let (flow, _) = ResendFlow::start(ResendInvitationEmail { actor: AccountId(1), pending_invitation_id: 8 });
    let (flow, _) = flow.step(ResendEvent::PendingFound(Some(pending())));
    let (flow, action) = flow.step(ResendEvent::InviteFound(Some(invite(1, InviteStatus::Pending))));
    assert!(matches!(action, ResendAction::LoadSettings));
    let (flow, action) = flow.step(ResendEvent::SettingsLoaded { cfg: cfg(), now: NOW });
    let token = match action {
        ResendAction::Refresh(r) => {
            assert_eq!(r.invite, InviteId(5));
            assert_eq!(r.pending_id, 8);
            assert_eq!(r.expiry, Timestamp(NOW.0 + 1_209_600 * 1_000_000));
            assert_ne!(r.new_token, "old");
            r.new_token
        }
        _ => panic!("expected a refresh"),
    };
    let (flow, action) = flow.step(ResendEvent::Refreshed);
    assert!(matches!(action, ResendAction::SendInvitationEvent(ref e) if e.invite_token == token && e.invite_id == 8));
    let (_, action) = flow.step(ResendEvent::EventSent);
    assert!(matches!(action, ResendAction::Reply(Ok(ResendResult::Sent))));
}
