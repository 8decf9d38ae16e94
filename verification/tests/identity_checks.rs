use auth::datetime::{PgInterval, Timestamp};
use auth::identity::{
    forwarded_ip, is_session_expired, request_identity, verify_session, ServiceError,
    SessionIdVerify,
};
use auth::model::{AccountId, SessionEntity, SessionId, SessionSecurityOption};

const SEC: i64 = 1_000_000;

fn session(option: SessionSecurityOption, expired_at: Option<Timestamp>) -> SessionEntity {
    SessionEntity {
        session_id: SessionId("sid".to_string()),
        user: AccountId(11),
        user_agent: "agent".to_string(),
        ip_address: "10.0.0.1".to_string(),
        created_at: Timestamp(0),
        last_refreshed_at: Timestamp(100 * SEC),
        lifespan: PgInterval { months: 0, days: 0, microseconds: 60 * SEC },
        security_option: option,
        expired_at,
    }
}

fn probe(ip: &str, ua: &str) -> SessionIdVerify {
    SessionIdVerify {
        session_id: SessionId("sid".to_string()),
        ip: ip.to_string(),
        user_agent: ua.to_string(),
    }
}

#[test]
fn unknown_session_is_not_found() {
    assert!(matches!(
        verify_session(None, &probe("10.0.0.1", "agent"), Timestamp(0)),
        Err(ServiceError::NotFound)
    ));
}

#[test]
fn expired_sessions_are_not_found() {
    let s = session(SessionSecurityOption::Unrestricted, Some(Timestamp(120 * SEC)));
    assert!(!is_session_expired(&s, Timestamp(120 * SEC)));
    assert!(is_session_expired(&s, Timestamp(120 * SEC + 1)));
    assert!(matches!(
        verify_session(Some(s), &probe("x", "y"), Timestamp(121 * SEC)),
        Err(ServiceError::NotFound)
    ));
    let sliding = session(SessionSecurityOption::Unrestricted, None);
    assert!(!is_session_expired(&sliding, Timestamp(160 * SEC)));
    assert!(is_session_expired(&sliding, Timestamp(160 * SEC + 1)));
    let mut by_days = session(SessionSecurityOption::Unrestricted, None);
    by_days.lifespan = PgInterval { months: 0, days: 1, microseconds: 0 };
    assert!(!is_session_expired(&by_days, Timestamp(100 * SEC + 86_400 * SEC)));
}

#[test]
fn security_options_bind_the_client() {
    let now = Timestamp(110 * SEC);
    let ip_bound = session(SessionSecurityOption::RejectDifferentIp, None);
    assert!(matches!(
        verify_session(Some(ip_bound.clone()), &probe("10.0.0.2", "agent"), now),
        Err(ServiceError::PermissionsDenied)
    ));
    assert!(verify_session(Some(ip_bound), &probe("10.0.0.1", "other"), now).is_ok());
    let both = session(SessionSecurityOption::RejectDifferentIpOrUserAgent, None);
    assert!(matches!(
        verify_session(Some(both.clone()), &probe("10.0.0.1", "other"), now),
        Err(ServiceError::PermissionsDenied)
    ));
    let ok = verify_session(Some(both), &probe("10.0.0.1", "agent"), now).expect("verified");
    assert_eq!(ok.user, AccountId(11));
    let free = session(SessionSecurityOption::Unrestricted, None);
    assert!(verify_session(Some(free), &probe("9.9.9.9", "z"), now).is_ok());
}

#[test]
fn forwarded_ip_takes_first_entry_trimmed() {
    assert_eq!(forwarded_ip(Some(" 1.2.3.4 , 5.6.7.8")), "1.2.3.4");
    assert_eq!(forwarded_ip(Some("1.2.3.4")), "1.2.3.4");
    assert_eq!(forwarded_ip(Some("   ")), "");
    assert_eq!(forwarded_ip(Some(",5.6.7.8")), "");
    assert_eq!(forwarded_ip(Some("\t::1\n,x")), "::1");
    assert_eq!(forwarded_ip(None), "");
}

#[test]
fn request_identity_only_for_verified_sessions() {
    let s = session(SessionSecurityOption::Unrestricted, None);
    let (user, current) = request_identity("sid".to_string(), Ok(s)).expect("identity");
    assert_eq!(user.0, 11);
    assert_eq!(current.0, "sid");
    assert!(request_identity("sid".to_string(), Err(ServiceError::NotFound)).is_none());
}
