//! Session lifecycle: what a new session holds, how a refresh is decided,
//! and which cache records a termination removes.

use crate::cache::{security_code, session_cache_key, SessionCache};
use crate::config::AuthConfig;
use crate::crypto::{base32_encode, is_base32_char, random_bytes, spec_base32};
use crate::datetime::{
    add_secs, add_secs_in_range, interval_of_secs, pg_interval_from_secs, timestamp_in_range,
    unix_secs_of, wrap_to_i64, Timestamp, MICROS_PER_SEC,
};
use crate::identity::{security_allows, session_expired, ServiceError};
use crate::model::{AccountId, SessionEntity, SessionId, SessionSecurityOption};
use crate::store::{DeleteSession, FindSessionById, TouchSession};
use vstd::prelude::*;

verus! {

/// Create a new session for an authenticated user.
pub struct CreateSession {
    pub user_id: AccountId,
    pub ip: String,
    pub user_agent: String,
    pub security_option: SessionSecurityOption,
}

/// Outcome of a session refresh.
#[derive(Debug, Clone, Copy, PartialEq, Eq, Structural)]
pub enum RefreshResult {
    Refreshed,
    NotFound,
}

/// Refresh (slide) a session, validating the presented address and user agent.
pub struct RefreshSession {
    pub session_id: SessionId,
    pub ip: String,
    pub user_agent: String,
}

/// Terminate a single session.
pub struct TerminateSession {
    pub session_id: SessionId,
}

/// Terminate every session of a user.
pub struct TerminateAllSessions {
    pub user_id: AccountId,
}

/// List a user's sessions.
pub struct ListUserSessions {
    pub user_id: AccountId,
}

/// What creating a session writes: the row, then its cache record with the
/// sliding-window time to live.
pub struct SessionPlan {
    pub entity: SessionEntity,
    pub cache: SessionCache,
    pub cache_ttl_secs: u64,
}

/// Whether a cache record is the one of a session.
pub open spec fn cache_of(cache: SessionCache, s: SessionEntity) -> bool {
    &&& cache.session_id@ == s.session_id.0@
    &&& cache.user_id == s.user.0
    &&& cache.ip_address@ == s.ip_address@
    &&& cache.user_agent@ == s.user_agent@
    &&& cache.security_option == security_code(s.security_option)
    &&& cache.last_refreshed == unix_secs_of(s.last_refreshed_at.0 as int)
}

/// Whether the row of a new session is the one opened for `input` with id
/// `id` at `now` under `cfg`.
pub open spec fn opened_session(
    s: SessionEntity,
    input: CreateSession,
    id: Seq<char>,
    now: Timestamp,
    cfg: AuthConfig,
) -> bool {
    &&& s.session_id.0@ == id
    &&& s.user == input.user_id
    &&& s.user_agent@ == input.user_agent@
    &&& s.ip_address@ == input.ip@
    &&& s.created_at == now
    &&& s.last_refreshed_at == now
    &&& s.lifespan == interval_of_secs(cfg.session_refresh_ttl_secs)
    &&& s.security_option == input.security_option
    &&& s.expired_at == Some(
        Timestamp(
            (now.0 + wrap_to_i64(cfg.session_absolute_lifespan_secs) * MICROS_PER_SEC) as i64,
        ),
    )
}

/// A fresh session id: the base32 of 32 random bytes (52 characters).
pub fn generate_session_id() -> (r: String)
    ensures
        exists|bytes: Seq<u8>| bytes.len() == 32 && r@ == spec_base32(bytes),
        r@.len() == 52,
        forall|i: int| 0 <= i < r@.len() ==> is_base32_char(#[trigger] r@[i]),
{
    let bytes: [u8; 32] = random_bytes();
    let r = base32_encode(&bytes);
    assert((8 * 32nat + 4) / 5 == 52nat);
    assert(bytes@.len() == 32 && r@ == spec_base32(bytes@));
    r
}

/// Open a session at `now`: a fresh id, both timestamps at `now`, the sliding
/// window as lifespan, and the absolute lifespan as hard expiry; the cache
/// record mirrors the row and lives for the sliding window.
pub fn plan_session(input: CreateSession, cfg: &AuthConfig, now: Timestamp) -> (r: SessionPlan)
    requires
        timestamp_in_range(now.0 as int),
        add_secs_in_range(now, cfg.session_absolute_lifespan_secs),
    ensures
        exists|bytes: Seq<u8>|
            bytes.len() == 32 && opened_session(r.entity, input, spec_base32(bytes), now, *cfg),
        r.entity.session_id.0@.len() == 52,
        forall|i: int|
            0 <= i < r.entity.session_id.0@.len() ==> is_base32_char(#[trigger] r.entity.session_id.0@[i]),
        cache_of(r.cache, r.entity),
        r.cache_ttl_secs == cfg.session_refresh_ttl_secs,
{
    let id = generate_session_id();
    let expiry = add_secs(now, cfg.session_absolute_lifespan_secs);
    let entity = SessionEntity {
        session_id: SessionId(id),
        user: input.user_id,
        user_agent: input.user_agent,
        ip_address: input.ip,
        created_at: now,
        last_refreshed_at: now,
        lifespan: pg_interval_from_secs(cfg.session_refresh_ttl_secs),
        security_option: input.security_option,
        expired_at: Some(expiry),
    };
    let cache = SessionCache::of_session(&entity);
    SessionPlan { entity, cache, cache_ttl_secs: cfg.session_refresh_ttl_secs }
}

/// A session just opened is live at its creation time and admits the client
/// that opened it, whatever its security option, whenever the sliding
/// window and the absolute lifespan are non-negative durations.
pub proof fn lemma_new_session_verifies(s: SessionEntity, input: CreateSession, id: Seq<char>, now: Timestamp, cfg: AuthConfig)
    requires
        opened_session(s, input, id, now, cfg),
        timestamp_in_range(now.0 as int),
        add_secs_in_range(now, cfg.session_absolute_lifespan_secs),
        cfg.session_refresh_ttl_secs <= i64::MAX,
        cfg.session_absolute_lifespan_secs <= i64::MAX,
    ensures
        !session_expired(s, now),
        security_allows(s.security_option, s.ip_address@, s.user_agent@, input.ip@, input.user_agent@),
{
    assert(wrap_to_i64(cfg.session_absolute_lifespan_secs) >= 0);
    assert(wrap_to_i64(cfg.session_refresh_ttl_secs) >= 0);
    assert(wrap_to_i64(cfg.session_refresh_ttl_secs) * MICROS_PER_SEC >= 0) by (nonlinear_arith)
        requires
            wrap_to_i64(cfg.session_refresh_ttl_secs) >= 0,
    ;
    assert(wrap_to_i64(cfg.session_absolute_lifespan_secs) * MICROS_PER_SEC >= 0) by (nonlinear_arith)
        requires
            wrap_to_i64(cfg.session_absolute_lifespan_secs) >= 0,
    ;
}

/// What a refresh does next, given the verification of the presented session.
pub enum RefreshStep {
    /// Touch the session's refresh time, reload it, refresh its cache (see
    /// [`refreshed_cache`]), and answer refreshed.
    Touch { touch: TouchSession, reload: FindSessionById },
    /// Answer now.
    Reply(Result<RefreshResult, ServiceError>),
}

/// Decide a refresh at `now` from the verification result: a verified
/// session is touched; an unknown or expired one is reported not found; any
/// other error propagates.
pub fn refresh_step(input: &RefreshSession, verified: Result<SessionEntity, ServiceError>, now: Timestamp) -> (r:
    RefreshStep)
    ensures
        verified is Ok ==> (r matches RefreshStep::Touch { touch, reload } && touch.session_id.0@
            == input.session_id.0@ && touch.last_refreshed_at == now && reload.session_id.0@ == input.session_id.0@),
        verified matches Err(ServiceError::NotFound) ==> r matches RefreshStep::Reply(
            Ok(RefreshResult::NotFound),
        ),
        verified matches Err(e) ==> (!(e is NotFound) ==> (r matches RefreshStep::Reply(Err(e2))
            && e2 == e)),
{
    match verified {
        Ok(_) => RefreshStep::Touch {
            touch: TouchSession { session_id: SessionId(input.session_id.0.clone()), last_refreshed_at: now },
            reload: FindSessionById { session_id: SessionId(input.session_id.0.clone()) },
        },
        Err(ServiceError::NotFound) => RefreshStep::Reply(Ok(RefreshResult::NotFound)),
        Err(e) => RefreshStep::Reply(Err(e)),
    }
}

/// The cache record to write after a touch: the reloaded session with its
/// refresh time set to `now` (nothing when the session vanished meanwhile).
pub fn refreshed_cache(reloaded: Option<SessionEntity>, now: Timestamp) -> (r: Option<SessionCache>)
    ensures
        r is Some <==> reloaded is Some,
        r matches Some(c) ==> (reloaded matches Some(s) && cache_of(
            c,
            SessionEntity { last_refreshed_at: now, ..s },
        )),
{
    match reloaded {
        None => None,
        Some(s) => {
            let mut session = s;
            session.last_refreshed_at = now;
            Some(SessionCache::of_session(&session))
        },
    }
}

/// What terminating a session removes: its row, then its cache record.
pub fn terminate_plan(input: &TerminateSession) -> (r: (DeleteSession, String))
    ensures
        r.0.session_id.0@ == input.session_id.0@,
        r.1@ == "session:"@ + input.session_id.0@,
{
    (
        DeleteSession { session_id: SessionId(input.session_id.0.clone()) },
        session_cache_key(input.session_id.0.as_str()),
    )
}

/// Cache keys of the given sessions, in order (what terminating them all removes).
pub fn session_cache_keys(sessions: &Vec<SessionEntity>) -> (r: Vec<String>)
    ensures
        r@.len() == sessions@.len(),
        forall|i: int|
            0 <= i < r@.len() ==> (#[trigger] r@[i])@ == "session:"@ + sessions@[i].session_id.0@,
{
    let mut keys: Vec<String> = Vec::new();
    let mut i: usize = 0;
    while i < sessions.len()
        invariant
            i <= sessions@.len(),
            keys@.len() == i,
            forall|j: int|
                0 <= j < i ==> (#[trigger] keys@[j])@ == "session:"@ + sessions@[j].session_id.0@,
        decreases sessions@.len() - i,
    {
        keys.push(session_cache_key(sessions[i].session_id.0.as_str()));
        i = i + 1;
    }
    keys
}

} // verus!
