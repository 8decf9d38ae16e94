use auth::config::AuthConfig;
use auth::datetime::Timestamp;
use auth::model::{AccountId, SessionSecurityOption};
use auth::password::{dummy_hash, Argon2PasswordAlgorithm, PasswordAlgorithm, PasswordHashError};
use auth::session::{generate_session_id, plan_session, refreshed_cache, CreateSession};

#[test]
fn new_sessions_follow_the_settings() {
    let now = Timestamp(1_700_000_000_000_000);
    let cfg = AuthConfig::default();
    let plan = plan_session(
        CreateSession {
            user_id: AccountId(3),
            ip: "1.1.1.1".to_string(),
            user_agent: "ua".to_string(),
            security_option: SessionSecurityOption::RejectDifferentIp,
        },
        &cfg,
        now,
    );
    let s = &plan.entity;
    assert_eq!(s.session_id.0.len(), 52);
    assert_eq!(s.user, AccountId(3));
    assert_eq!((s.created_at, s.last_refreshed_at), (now, now));
    assert_eq!(s.lifespan.microseconds, 604_800 * 1_000_000);
    assert_eq!((s.lifespan.months, s.lifespan.days), (0, 0));
    assert_eq!(s.expired_at, Some(Timestamp(now.0 + 2_592_000 * 1_000_000)));
    assert_eq!(plan.cache.session_id, s.session_id.0);
    assert_eq!(plan.cache.security_option, 0);
    assert_eq!(plan.cache.last_refreshed, 1_700_000_000);
    assert_eq!(plan.cache_ttl_secs, 604_800);
    assert_ne!(generate_session_id(), generate_session_id());
    let refreshed = refreshed_cache(Some(plan.entity), Timestamp(now.0 + 5_000_000)).expect("cache");
    assert_eq!(refreshed.last_refreshed, 1_700_000_005);
    assert!(refreshed_cache(None, now).is_none());
}

#[test]
fn password_algorithm_round_trip() {
    let alg = Argon2PasswordAlgorithm;
    let h = alg.hash_password("hunter2").expect("hash");
    assert!(h.starts_with("$argon2id$"));
    assert!(alg.verify_password("hunter2", &h));
    assert!(!alg.verify_password("hunter3", &h));
    assert!(!alg.verify_password("hunter2", "not a phc string"));
    assert!(alg.verify_password_or_dummy("hunter2", Some(&h)));
    assert!(!alg.verify_password_or_dummy("hunter2", None));
}

#[test]
fn dummy_hash_is_a_valid_hash() {
    let d = dummy_hash();
    assert!(Argon2PasswordAlgorithm.verify_password("dummy-password-for-constant-time", &d));
    let e = PasswordHashError::Hash("bad".to_string());
    assert_eq!(e.message(), "failed to hash password: bad");
}

#[test]
fn non_phc_hashes_verify_nothing() {
    let alg = Argon2PasswordAlgorithm;
    let h = alg.hash_password("p").expect("hash");
    assert!(alg.verify_password("p", &h));
    assert!(!alg.verify_password("q", &h));
    assert!(!alg.verify_password("p", "not-a-phc-string"));
    assert!(!alg.verify_password("p", ""));
}
