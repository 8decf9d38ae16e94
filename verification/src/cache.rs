//! Records kept in the key-value cache, and their keys.
//!
//! Three kinds of record live there: the verification cache of a session
//! (`session:{session_id}`), the short-lived token of a login awaiting its
//! second factor (`mfa_login:{base32(token)}`), and the candidate secret of a
//! TOTP enrollment in progress (`totp_setup:{user_id}`).

use crate::crypto::{base32_encode, spec_base32, spec_uuid_text, uuid_to_string};
use crate::datetime::{to_unix, unix_secs_of};
use crate::model::{SessionEntity, SessionSecurityOption};
use vstd::prelude::*;
use vstd::string::StringExecFns;

verus! {

/// Time to live of an MFA-login token, in seconds.
pub const MFA_LOGIN_TOKEN_TTL_SECS: u64 = 300;

/// Time to live of a pending TOTP enrollment, in seconds.
pub const PENDING_TOTP_TTL_SECS: u64 = 300;

/// The cached verification record of a session.
#[derive(Debug, Clone)]
pub struct SessionCache {
    pub session_id: String,
    pub user_id: u128,
    pub ip_address: String,
    pub user_agent: String,
    /// Encoded [`SessionSecurityOption`] (see [`security_from_u8`]).
    pub security_option: u8,
    /// Last sliding-refresh time, unix seconds.
    pub last_refreshed: u64,
}

/// A login that passed the password check and awaits its second factor.
#[derive(Clone)]
pub struct MfaLoginToken {
    pub token: [u8; 32],
    pub user_id: u128,
    pub ip: String,
    pub user_agent: String,
    /// Encoded [`SessionSecurityOption`] requested for the session.
    pub security_option: u8,
}

/// The candidate TOTP secret of an enrollment in progress.
#[derive(Clone)]
pub struct PendingTotpSetup {
    pub user_id: u128,
    pub secret: Vec<u8>,
}

/// Code of a security option in the cache.
pub open spec fn security_code(option: SessionSecurityOption) -> u8 {
    match option {
        SessionSecurityOption::RejectDifferentIp => 0,
        SessionSecurityOption::RejectDifferentIpOrUserAgent => 1,
        SessionSecurityOption::Unrestricted => 2,
    }
}

/// The option a cached code stands for; unknown codes mean no restriction.
pub open spec fn security_of_code(value: u8) -> SessionSecurityOption {
    if value == 0 {
        SessionSecurityOption::RejectDifferentIp
    } else if value == 1 {
        SessionSecurityOption::RejectDifferentIpOrUserAgent
    } else {
        SessionSecurityOption::Unrestricted
    }
}

/// Snake-case wire name of a security option.
pub open spec fn security_option_name(option: SessionSecurityOption) -> Seq<char> {
    match option {
        SessionSecurityOption::RejectDifferentIp => "reject_different_ip"@,
        SessionSecurityOption::RejectDifferentIpOrUserAgent => "reject_different_ip_or_user_agent"@,
        SessionSecurityOption::Unrestricted => "none"@,
    }
}

/// Encode a [`SessionSecurityOption`] to its cached code.
pub fn security_to_u8(option: SessionSecurityOption) -> (r: u8)
    ensures
        r == security_code(option),
{
    match option {
        SessionSecurityOption::RejectDifferentIp => 0,
        SessionSecurityOption::RejectDifferentIpOrUserAgent => 1,
        SessionSecurityOption::Unrestricted => 2,
    }
}

/// Decode a cached code back into a [`SessionSecurityOption`].
pub fn security_from_u8(value: u8) -> (r: SessionSecurityOption)
    ensures
        r == security_of_code(value),
{
    match value {
        0 => SessionSecurityOption::RejectDifferentIp,
        1 => SessionSecurityOption::RejectDifferentIpOrUserAgent,
        _ => SessionSecurityOption::Unrestricted,
    }
}

/// Snake-case wire name of a security option.
pub fn security_option_str(option: SessionSecurityOption) -> (r: &'static str)
    ensures
        r@ == security_option_name(option),
{
    match option {
        SessionSecurityOption::RejectDifferentIp => "reject_different_ip",
        SessionSecurityOption::RejectDifferentIpOrUserAgent => "reject_different_ip_or_user_agent",
        SessionSecurityOption::Unrestricted => "none",
    }
}

/// Decoding an encoded option gives the option back.
pub proof fn lemma_security_code_round_trip(option: SessionSecurityOption)
    ensures
        security_of_code(security_code(option)) == option,
{
}

/// Encoding a decoded code gives the code back when it is a known code (0 to
/// 2); every other code reads as "no restriction".
pub proof fn lemma_security_code_canonical(value: u8)
    ensures
        security_code(security_of_code(value)) == (if value <= 2 { value } else { 2u8 }),
{
}

/// Key of a session's cache record: `session:{session_id}`.
pub fn session_cache_key(session_id: &str) -> (r: String)
    ensures
        r@ == "session:"@ + session_id@,
{
    String::from_str("session:").concat(session_id)
}

/// Key of an MFA-login token: `mfa_login:{base32(token)}`.
pub fn mfa_login_token_key(token: &[u8; 32]) -> (r: String)
    ensures
        r@ == "mfa_login:"@ + spec_base32(token@),
{
    let text = base32_encode(token);
    String::from_str("mfa_login:").concat(text.as_str())
}

/// Key of a user's pending enrollment: `totp_setup:{user_id}`.
pub fn pending_totp_key(user_id: u128) -> (r: String)
    ensures
        r@ == "totp_setup:"@ + spec_uuid_text(user_id),
{
    let text = uuid_to_string(user_id);
    String::from_str("totp_setup:").concat(text.as_str())
}

impl SessionCache {
    /// The cache record of a session.
    pub fn of_session(session: &SessionEntity) -> (r: SessionCache)
        ensures
            r.session_id@ == session.session_id.0@,
            r.user_id == session.user.0,
            r.ip_address@ == session.ip_address@,
            r.user_agent@ == session.user_agent@,
            r.security_option == security_code(session.security_option),
            r.last_refreshed == unix_secs_of(session.last_refreshed_at.0 as int),
    {
        SessionCache {
            session_id: session.session_id.0.clone(),
            user_id: session.user.0,
            ip_address: session.ip_address.clone(),
            user_agent: session.user_agent.clone(),
            security_option: security_to_u8(session.security_option),
            last_refreshed: to_unix(session.last_refreshed_at),
        }
    }

    /// Key of this record.
    pub fn key(&self) -> (r: String)
        ensures
            r@ == "session:"@ + self.session_id@,
    {
        session_cache_key(self.session_id.as_str())
    }
}

impl MfaLoginToken {
    /// Key of this record.
    pub fn key(&self) -> (r: String)
        ensures
            r@ == "mfa_login:"@ + spec_base32(self.token@),
    {
        mfa_login_token_key(&self.token)
    }
}

impl PendingTotpSetup {
    /// Key of this record.
    pub fn key(&self) -> (r: String)
        ensures
            r@ == "totp_setup:"@ + spec_uuid_text(self.user_id),
    {
        pending_totp_key(self.user_id)
    }
}


/// The cache codes of the security options: 0 binds to the address, 1 to the
/// address and user agent, 2 is unrestricted; any other code reads as
/// unrestricted.
pub proof fn lemma_security_code_table(value: u8)
    ensures
        security_code(SessionSecurityOption::RejectDifferentIp) == 0,
        security_code(SessionSecurityOption::RejectDifferentIpOrUserAgent) == 1,
        security_code(SessionSecurityOption::Unrestricted) == 2,
        value > 1 ==> security_of_code(value) == SessionSecurityOption::Unrestricted,
{
}

} // verus!
