use auth::cache::{mfa_login_token_key, MfaLoginToken, PendingTotpSetup};
use auth::datetime::Timestamp;
use auth::mfa::{
    after_secret_check, disable_after_code_check, disable_after_recovery, disable_check,
    disable_reply, enroll_after_check, finish_reply, finish_enrollment, mfa_status, parse_mfa_token, start_enrollment,
    MfaLoginStage, DisableMfaResult, DisableStep, FinishStep, FinishTotpEnrollmentResult,
    MfaLoginAction, MfaLoginEvent, MfaLoginFlow, VerifyMfaLogin, VerifyMfaLoginResult,
};
use auth::identity::ServiceError;
use auth::model::{AccountEntity, AccountId, SessionId, SessionSecurityOption, UserTotp};
use auth::totp::{hash_recovery_code, normalize_recovery_code};

const NOW_SECS: u64 = 1_700_000_000;
const NOW: Timestamp = Timestamp(1_700_000_000 * 1_000_000);

fn code_at(secret: &[u8], secs: u64) -> String {
    totp_rs::Builder::new()
        .with_secret(secret.to_vec())
        .build()
        .expect("totp")
        .generate(secs)
        .to_string()
}

fn code_for(secret: &[u8]) -> String {
    code_at(secret, NOW_SECS)
}

fn token_record() -> MfaLoginToken {
    MfaLoginToken {
        token: [9u8; 32],
        user_id: 21,
        ip: "10.1.1.1".to_string(),
        user_agent: "ua".to_string(),
        security_option: 1,
    }
}

fn request(code: &str) -> VerifyMfaLogin {
    VerifyMfaLogin { mfa_token: [9u8; 32], code: code.to_string() }
}

#[test]
fn mfa_login_unknown_token_and_missing_secret() {
    let (flow, action) = MfaLoginFlow::start(request("123456"), NOW);
    assert!(matches!(action, MfaLoginAction::ReadToken(ref k) if *k == mfa_login_token_key(&[9u8; 32])));
    let (_, action) = flow.step(MfaLoginEvent::TokenRead(None));
    assert!(matches!(action, MfaLoginAction::Reply(Ok(VerifyMfaLoginResult::InvalidToken))));

    let (flow, _) = MfaLoginFlow::start(request("123456"), NOW);
    let (flow, action) = flow.step(MfaLoginEvent::TokenRead(Some(token_record())));
    assert!(matches!(action, MfaLoginAction::FindSecret(21)));
    let (_, action) = flow.step(MfaLoginEvent::SecretFound(None));
    assert!(matches!(action, MfaLoginAction::Reply(Ok(VerifyMfaLoginResult::InvalidCode))));
}

#[test]
fn mfa_login_wrong_code_keeps_the_token() {
    let (flow, _) = MfaLoginFlow::start(request("abcd-efgh"), NOW);
    let (flow, _) = flow.step(MfaLoginEvent::TokenRead(Some(token_record())));
    let (flow, action) = flow.step(MfaLoginEvent::SecretFound(Some(UserTotp { user_id: 21, secret: vec![1u8; 20] })));
    match action {
        MfaLoginAction::ConsumeRecoveryCode { user_id, code_hash } => {
            assert_eq!(user_id, 21);
            assert_eq!(code_hash, hash_recovery_code("ABCDEFGH"));
        }
        _ => panic!("expected a recovery-code attempt"),
    }
    let (_, action) = flow.step(MfaLoginEvent::RecoveryConsumed(false));
    assert!(matches!(action, MfaLoginAction::Reply(Ok(VerifyMfaLoginResult::InvalidCode))));
}

#[test]
fn mfa_login_recovery_code_opens_a_session() {
    let (flow, _) = MfaLoginFlow::start(request("abcd-efgh"), NOW);
    let (flow, _) = flow.step(MfaLoginEvent::TokenRead(Some(token_record())));
    let (flow, _) = flow.step(MfaLoginEvent::SecretFound(Some(UserTotp { user_id: 21, secret: vec![1u8; 20] })));
    let (flow, action) = flow.step(MfaLoginEvent::RecoveryConsumed(true));
    assert!(matches!(action, MfaLoginAction::DeleteToken(ref k) if *k == mfa_login_token_key(&[9u8; 32])));
    let (flow, action) = flow.step(MfaLoginEvent::TokenDeleted);
    match action {
        MfaLoginAction::CreateSession(c) => {
            assert_eq!(c.user_id, AccountId(21));
            assert_eq!(c.ip, "10.1.1.1");
            assert_eq!(c.security_option, SessionSecurityOption::RejectDifferentIpOrUserAgent);
        }
        _ => panic!("expected a session"),
    }
    let (flow, _) = flow.step(MfaLoginEvent::SessionCreated(SessionId("s9".to_string())));
    let (_, action) = flow.step(MfaLoginEvent::EventSent);
    assert!(matches!(action, MfaLoginAction::Reply(Ok(VerifyMfaLoginResult::Success(ref s))) if s.0 == "s9"));
}

#[test]
fn mfa_login_totp_code_deletes_the_token() {
    let secret = vec![4u8; 20];
    let (flow, _) = MfaLoginFlow::start(request(&code_for(&secret)), NOW);
    let (flow, _) = flow.step(MfaLoginEvent::TokenRead(Some(token_record())));
    let (_, action) = flow.step(MfaLoginEvent::SecretFound(Some(UserTotp { user_id: 21, secret })));
    assert!(matches!(action, MfaLoginAction::DeleteToken(_)));
}

#[test]
fn mfa_login_out_of_order_event_panics() {
    let (flow, _) = MfaLoginFlow::start(request("1"), NOW);
    let (_, action) = flow.step(MfaLoginEvent::TokenDeleted);
    assert!(matches!(action, MfaLoginAction::Reply(Err(ServiceError::BusinessPanic(_)))));
}

#[test]
fn enrollment_start() {
    assert!(matches!(start_enrollment(AccountId(1), None), Err(ServiceError::NotFound)));
    let account = AccountEntity {
        id: AccountId(1),
        username: "u".to_string(),
        email: "u@example.com".to_string(),
        avatar_url: None,
        password_hash: String::new(),
        registered_at: Timestamp(0),
    };
    let (start, pending) = start_enrollment(AccountId(1), Some(account)).expect("start");
    assert_eq!(pending.user_id, 1);
    assert_eq!(pending.secret.len(), 20);
    assert_eq!(start.secret_base32.len(), 32);
    assert!(start.otpauth_uri.starts_with("otpauth://totp/Airi:u%40example.com?"));
    assert!(start.otpauth_uri.contains(&format!("secret={}", start.secret_base32)));
    assert!(!start.qr_png_base64.is_empty());
}

#[test]
fn enrollment_finish_outcomes() {
    assert!(matches!(
        finish_enrollment(true, None, "1", NOW),
        FinishStep::Reply(FinishTotpEnrollmentResult::AlreadyEnabled)
    ));
    assert!(matches!(
        finish_enrollment(false, None, "1", NOW),
        FinishStep::Reply(FinishTotpEnrollmentResult::NoPending)
    ));
    let short = PendingTotpSetup { user_id: 1, secret: vec![1u8; 8] };
    assert!(matches!(
        finish_enrollment(false, Some(short), "1", NOW),
        FinishStep::Reply(FinishTotpEnrollmentResult::InvalidCode)
    ));
    let secret = vec![6u8; 20];
    let pending = PendingTotpSetup { user_id: 1, secret: secret.clone() };
    match finish_enrollment(false, Some(pending), &code_for(&secret), NOW) {
        FinishStep::Enroll { secret: s, codes, code_hashes } => {
            assert_eq!(s, secret);
            assert_eq!(codes.len(), 10);
            assert_eq!(code_hashes.len(), 10);
            for (c, h) in codes.iter().zip(code_hashes.iter()) {
                assert_eq!(&hash_recovery_code(c), h);
                assert_eq!(&normalize_recovery_code(c), c);
            }
        }
        _ => panic!("expected enrollment"),
    }
}

#[test]
fn disable_outcomes() {
    assert!(matches!(disable_check(None, "1", NOW), DisableStep::Reply(DisableMfaResult::NotEnabled)));
    let secret = vec![5u8; 20];
    let totp = UserTotp { user_id: 3, secret: secret.clone() };
    assert!(matches!(disable_check(Some(totp.clone()), &code_for(&secret), NOW), DisableStep::Remove));
    match disable_check(Some(totp), "zz-yy", NOW) {
        DisableStep::TryRecoveryCode(h) => assert_eq!(h, hash_recovery_code("ZZYY")),
        _ => panic!("expected a recovery attempt"),
    }
    assert!(matches!(disable_after_recovery(true), DisableStep::Remove));
    assert!(matches!(disable_after_recovery(false), DisableStep::Reply(DisableMfaResult::InvalidCode)));
}

#[test]
fn mfa_status_counts() {
    assert_eq!(mfa_status(true, 9).remaining_recovery_codes, 9);
    assert_eq!(mfa_status(false, -3).remaining_recovery_codes, 0);
    assert_eq!(mfa_status(true, (1i64 << 32) + 5).remaining_recovery_codes, 5);
    assert!(mfa_status(true, 0).totp_enabled);
}

#[test]
fn mfa_tokens_must_be_32_bytes() {
    assert!(parse_mfa_token(&vec![1u8; 31]).is_none());
    assert!(parse_mfa_token(&vec![1u8; 33]).is_none());
    assert_eq!(parse_mfa_token(&vec![2u8; 32]), Some([2u8; 32]));
}

#[test]
fn token_key_ignores_other_fields() {
    let _ = Timestamp(0);
    assert_eq!(token_record().key(), mfa_login_token_key(&[9u8; 32]));
}

#[test]
fn mfa_login_stale_code_is_tried_as_recovery_code() {
    let secret = vec![4u8; 20];
    let stale = code_at(&secret, NOW_SECS - 600);
    let (flow, _) = MfaLoginFlow::start(request(&stale), NOW);
    let (flow, _) = flow.step(MfaLoginEvent::TokenRead(Some(token_record())));
    let (_, action) = flow.step(MfaLoginEvent::SecretFound(Some(UserTotp { user_id: 21, secret })));
    assert!(matches!(action, MfaLoginAction::ConsumeRecoveryCode { user_id: 21, .. }));
}

#[test]
fn mfa_login_code_of_the_previous_step_is_accepted() {
    let secret = vec![4u8; 20];
    let (flow, _) = MfaLoginFlow::start(request(&code_at(&secret, NOW_SECS - 30)), NOW);
    let (flow, _) = flow.step(MfaLoginEvent::TokenRead(Some(token_record())));
    let (_, action) = flow.step(MfaLoginEvent::SecretFound(Some(UserTotp { user_id: 21, secret })));
    assert!(matches!(action, MfaLoginAction::DeleteToken(_)));
}

#[test]
fn verdicts_decide_the_next_step() {
    let (stage, action) = after_secret_check(token_record(), &request("123456"), true);
    assert!(matches!(stage, MfaLoginStage::Consume { .. }));
    assert!(matches!(action, MfaLoginAction::DeleteToken(ref k) if *k == mfa_login_token_key(&[9u8; 32])));
    let (stage, action) = after_secret_check(token_record(), &request("ab cd"), false);
    assert!(matches!(stage, MfaLoginStage::Recovery { .. }));
    assert!(matches!(action, MfaLoginAction::ConsumeRecoveryCode { code_hash, .. } if code_hash == hash_recovery_code("ABCD")));
    assert!(matches!(disable_after_code_check(true, "x"), DisableStep::Remove));
    assert!(matches!(disable_after_code_check(false, "x"), DisableStep::TryRecoveryCode(h) if h == hash_recovery_code("X")));
    assert!(matches!(enroll_after_check(false, vec![1u8; 20]), FinishStep::Reply(FinishTotpEnrollmentResult::InvalidCode)));
    assert!(matches!(enroll_after_check(true, vec![1u8; 20]), FinishStep::Enroll { ref secret, ref codes, .. } if *secret == vec![1u8; 20] && codes.len() == 10));
}

#[test]
fn finishing_with_a_stale_code_is_invalid() {
    let secret = vec![6u8; 20];
    let pending = PendingTotpSetup { user_id: 1, secret: secret.clone() };
    assert!(matches!(
        finish_enrollment(false, Some(pending), &code_at(&secret, NOW_SECS + 3600), NOW),
        FinishStep::Reply(FinishTotpEnrollmentResult::InvalidCode)
    ));
}

#[test]
fn finished_steps_answer() {
    assert!(matches!(
        finish_reply(enroll_after_check(true, vec![1u8; 20])),
        FinishTotpEnrollmentResult::Success(ref codes) if codes.len() == 10
    ));
    assert!(matches!(
        finish_reply(finish_enrollment(false, None, "1", NOW)),
        FinishTotpEnrollmentResult::NoPending
    ));
    assert_eq!(disable_reply(DisableStep::Remove), Some(DisableMfaResult::Success));
    assert_eq!(disable_reply(disable_check(None, "1", NOW)), Some(DisableMfaResult::NotEnabled));
    assert_eq!(disable_reply(disable_after_code_check(false, "x")), None);
    assert_eq!(disable_reply(disable_after_recovery(false)), Some(DisableMfaResult::InvalidCode));
}
