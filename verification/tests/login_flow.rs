use auth::cache::security_to_u8;
use auth::datetime::Timestamp;
use auth::identity::ServiceError;
use auth::login::{login_reply, Login, LoginAction, LoginEvent, LoginFlow, LoginReplyCode, LoginResult};
use auth::model::{AccountEntity, AccountId, SessionId, SessionSecurityOption};
use auth::password::{Argon2PasswordAlgorithm, PasswordAlgorithm};

fn input(password: &str) -> Login {
    Login {
        identifier: "ann".to_string(),
        password: password.to_string(),
        ip: "127.0.0.1".to_string(),
        user_agent: "test".to_string(),
    }
}

fn account(hash: &str) -> AccountEntity {
    AccountEntity {
        id: AccountId(5),
        username: "ann".to_string(),
        email: "ann@example.com".to_string(),
        avatar_url: None,
        password_hash: hash.to_string(),
        registered_at: Timestamp(0),
    }
}

#[test]
fn login_tries_email_then_username_then_not_found() {
    let (flow, action) = LoginFlow::start(input("pw"));
    assert!(matches!(action, LoginAction::FindAccountByEmail(ref e) if e == "ann"));
    let (flow, action) = flow.step(LoginEvent::AccountFound(None));
    assert!(matches!(action, LoginAction::FindAccountByUsername(ref u) if u == "ann"));
    let (_, action) = flow.step(LoginEvent::AccountFound(None));
    assert!(matches!(action, LoginAction::Reply(Ok(LoginResult::NotFound))));
}

#[test]
fn login_paths_after_the_password() {
    let hash = Argon2PasswordAlgorithm.hash_password("pw").expect("hash");

    let (flow, _) = LoginFlow::start(input("wrong"));
    let (_, action) = flow.step(LoginEvent::AccountFound(Some(account(&hash))));
    assert!(matches!(action, LoginAction::Reply(Ok(LoginResult::WrongCredential))));

    let (flow, _) = LoginFlow::start(input("pw"));
    let (flow, action) = flow.step(LoginEvent::AccountFound(Some(account(&hash))));
    assert!(matches!(action, LoginAction::CheckSuspended(AccountId(5))));
    let (flow, action) = flow.step(LoginEvent::SuspensionChecked(false));
    assert!(matches!(action, LoginAction::FindTotp(AccountId(5))));
    let (flow, action) = flow.step(LoginEvent::TotpChecked(false));
    match action {
        LoginAction::CreateSession(c) => {
            assert_eq!(c.user_id, AccountId(5));
            assert_eq!(c.ip, "127.0.0.1");
            assert_eq!(c.user_agent, "test");
            assert_eq!(c.security_option, SessionSecurityOption::Unrestricted);
        }
        _ => panic!("expected a session to be created"),
    }
    let (flow, action) = flow.step(LoginEvent::SessionCreated(SessionId("s1".to_string())));
    match action {
        LoginAction::SendLoginEvent(e) => {
            assert_eq!(e.user_id, 5);
            assert_eq!(e.ip, "127.0.0.1");
        }
        _ => panic!("expected a login event"),
    }
    let (_, action) = flow.step(LoginEvent::EventSent);
    assert!(matches!(action, LoginAction::Reply(Ok(LoginResult::Success(ref s))) if s.0 == "s1"));
}

#[test]
fn login_suspended_and_second_factor() {
    let hash = Argon2PasswordAlgorithm.hash_password("pw").expect("hash");
    let (flow, _) = LoginFlow::start(input("pw"));
    let (flow, _) = flow.step(LoginEvent::AccountFound(Some(account(&hash))));
    let (_, action) = flow.step(LoginEvent::SuspensionChecked(true));
    assert!(matches!(action, LoginAction::Reply(Ok(LoginResult::Suspended))));

    let (flow, _) = LoginFlow::start(input("pw"));
    let (flow, _) = flow.step(LoginEvent::AccountFound(Some(account(&hash))));
    let (flow, _) = flow.step(LoginEvent::SuspensionChecked(false));
    let (flow, action) = flow.step(LoginEvent::TotpChecked(true));
    let token = match action {
        LoginAction::StoreMfaToken(t) => {
            assert_eq!(t.user_id, 5);
            assert_eq!(t.ip, "127.0.0.1");
            assert_eq!(t.user_agent, "test");
            assert_eq!(t.security_option, security_to_u8(SessionSecurityOption::Unrestricted));
            t.token
        }
        _ => panic!("expected an MFA token to be stored"),
    };
    let (_, action) = flow.step(LoginEvent::TokenStored);
    assert!(matches!(action, LoginAction::Reply(Ok(LoginResult::RequireMfa(t))) if t == token));
}

#[test]
fn login_rejects_out_of_order_events() {
    let (flow, _) = LoginFlow::start(input("pw"));
    let (flow, action) = flow.step(LoginEvent::EventSent);
    assert!(matches!(action, LoginAction::Reply(Err(ServiceError::BusinessPanic(_)))));
    let (_, action) = flow.step(LoginEvent::TokenStored);
    assert!(matches!(action, LoginAction::Reply(Err(ServiceError::BusinessPanic(_)))));
}

#[test]
fn login_reply_hides_suspension() {
    let (code, sid, token) = login_reply(LoginResult::Suspended);
    assert_eq!(code, LoginReplyCode::WrongCredential);
    assert!(sid.is_none() && token.is_none());
    assert_eq!(login_reply(LoginResult::WrongCredential).0, LoginReplyCode::WrongCredential);
    assert_eq!(login_reply(LoginResult::NotFound).0, LoginReplyCode::NotFound);
    let (code, sid, _) = login_reply(LoginResult::Success(SessionId("x".to_string())));
    assert_eq!(code, LoginReplyCode::Success);
    assert_eq!(sid, Some("x".to_string()));
    let (code, _, token) = login_reply(LoginResult::RequireMfa([3u8; 32]));
    assert_eq!(code, LoginReplyCode::RequireMfa);
    assert_eq!(token, Some([3u8; 32]));
}
