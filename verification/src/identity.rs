//! Verification of a presented session, and the identity a request carries.

use crate::datetime::{PgInterval, Timestamp};
use crate::model::{SessionEntity, SessionId, SessionSecurityOption};
use crate::text::{char_is_whitespace, spec_is_whitespace, str_eq};
use vstd::prelude::*;

verus! {

/// Errors of the service layer.
#[derive(Debug, Clone)]
pub enum ServiceError {
    /// The request is malformed.
    InvalidInput,
    /// The subject does not exist (or is no longer valid).
    NotFound,
    /// The caller may not do this.
    PermissionsDenied,
    /// An internal invariant failed; the text says which.
    BusinessPanic(String),
}

/// Microseconds in one day.
pub const DAY_MICROS: i128 = 86_400_000_000;

/// Header carrying the opaque session id.
pub const SESSION_ID_HEADER: &'static str = "x-session-id";

/// Verify a presented session id, as seen from the given client.
pub struct SessionIdVerify {
    pub session_id: SessionId,
    pub ip: String,
    pub user_agent: String,
}

/// Authenticated user id of a request.
#[derive(Debug, Clone, Copy, PartialEq, Eq, Structural)]
pub struct UserId(pub u128);

/// The session id a request was authenticated with.
#[derive(Debug, Clone)]
pub struct CurrentSessionId(pub String);

/// Length of an interval in microseconds, a month counted as thirty days.
pub open spec fn interval_micros(iv: PgInterval) -> int {
    (iv.months as int) * 30 * DAY_MICROS + (iv.days as int) * DAY_MICROS + iv.microseconds
}

/// Whether a session is past its absolute expiry or its sliding lifespan at
/// `now` (the rows the cleanup job deletes).
pub open spec fn session_expired(s: SessionEntity, now: Timestamp) -> bool {
    ||| (s.expired_at matches Some(e) && e.0 < now.0)
    ||| s.last_refreshed_at.0 + interval_micros(s.lifespan) < now.0
}

/// Whether a session's security option admits a client with this address
/// and user agent.
pub open spec fn security_allows(
    option: SessionSecurityOption,
    stored_ip: Seq<char>,
    stored_user_agent: Seq<char>,
    ip: Seq<char>,
    user_agent: Seq<char>,
) -> bool {
    match option {
        SessionSecurityOption::RejectDifferentIp => stored_ip == ip,
        SessionSecurityOption::RejectDifferentIpOrUserAgent => stored_ip == ip && stored_user_agent == user_agent,
        SessionSecurityOption::Unrestricted => true,
    }
}

/// Whether a session is past its absolute expiry or sliding lifespan.
pub fn is_session_expired(s: &SessionEntity, now: Timestamp) -> (r: bool)
    ensures
        r == session_expired(*s, now),
{
    let hard = match s.expired_at {
        Some(e) => e.0 < now.0,
        None => false,
    };
    let span: i128 = (s.lifespan.months as i128) * 30 * DAY_MICROS + (s.lifespan.days as i128)
        * DAY_MICROS + (s.lifespan.microseconds as i128);
    let sliding = (s.last_refreshed_at.0 as i128) + span < (now.0 as i128);
    hard || sliding
}

/// Whether a session's security option admits the client.
pub fn security_check(
    option: SessionSecurityOption,
    stored_ip: &str,
    stored_user_agent: &str,
    ip: &str,
    user_agent: &str,
) -> (r: bool)
    ensures
        r == security_allows(option, stored_ip@, stored_user_agent@, ip@, user_agent@),
{
    match option {
        SessionSecurityOption::RejectDifferentIp => str_eq(stored_ip, ip),
        SessionSecurityOption::RejectDifferentIpOrUserAgent => str_eq(stored_ip, ip) && str_eq(
            stored_user_agent,
            user_agent,
        ),
        SessionSecurityOption::Unrestricted => true,
    }
}

/// Decide a session verification from the stored row found by its id: no
/// row, or an expired session, is not found; a client its security option
/// rejects is denied; otherwise the session.
pub fn verify_session(found: Option<SessionEntity>, input: &SessionIdVerify, now: Timestamp) -> (r: Result<
    SessionEntity,
    ServiceError,
>)
    ensures
        found is None ==> r matches Err(ServiceError::NotFound),
        found matches Some(s) ==> {
            if session_expired(s, now) {
                r matches Err(ServiceError::NotFound)
            } else if !security_allows(
                s.security_option,
                s.ip_address@,
                s.user_agent@,
                input.ip@,
                input.user_agent@,
            ) {
                r matches Err(ServiceError::PermissionsDenied)
            } else {
                r == Ok::<SessionEntity, ServiceError>(s)
            }
        },
{
    match found {
        None => Err(ServiceError::NotFound),
        Some(s) => {
            if is_session_expired(&s, now) {
                Err(ServiceError::NotFound)
            } else if !security_check(
                s.security_option,
                s.ip_address.as_str(),
                s.user_agent.as_str(),
                input.ip.as_str(),
                input.user_agent.as_str(),
            ) {
                Err(ServiceError::PermissionsDenied)
            } else {
                Ok(s)
            }
        },
    }
}

/// Index of the first `c` in `s`, or its length.
pub open spec fn first_index_of(s: Seq<char>, c: char) -> int
    decreases s.len(),
{
    if s.len() == 0 {
        0
    } else if s[0] == c {
        0
    } else {
        1 + first_index_of(s.drop_first(), c)
    }
}

/// `s` with leading and trailing whitespace removed: the start is the first
/// non-whitespace index, the end one past the last.
pub open spec fn trim_start_index(s: Seq<char>) -> int
    decreases s.len(),
{
    if s.len() == 0 {
        0
    } else if !spec_is_whitespace(s[0]) {
        0
    } else {
        1 + trim_start_index(s.drop_first())
    }
}

/// One past the last non-whitespace index of `s` (0 when there is none).
pub open spec fn trim_end_index(s: Seq<char>) -> int
    decreases s.len(),
{
    if s.len() == 0 {
        0
    } else if !spec_is_whitespace(s.last()) {
        s.len() as int
    } else {
        trim_end_index(s.drop_last())
    }
}

/// What `str::trim` leaves of a text.
pub open spec fn trimmed(s: Seq<char>) -> Seq<char> {
    if trim_end_index(s) <= trim_start_index(s) {
        Seq::empty()
    } else {
        s.subrange(trim_start_index(s), trim_end_index(s))
    }
}

/// The client address in an `x-forwarded-for` value: its first
/// comma-separated entry, trimmed; empty when there is no header.
pub open spec fn forwarded_ip_of(header: Option<Seq<char>>) -> Seq<char> {
    match header {
        None => Seq::empty(),
        Some(h) => trimmed(h.subrange(0, first_index_of(h, ','))),
    }
}

proof fn lemma_first_index_bounds(s: Seq<char>, c: char)
    ensures
        0 <= first_index_of(s, c) <= s.len(),
        forall|j: int| 0 <= j < first_index_of(s, c) ==> s[j] != c,
        first_index_of(s, c) < s.len() ==> s[first_index_of(s, c)] == c,
    decreases s.len(),
{
    if s.len() > 0 && s[0] != c {
        lemma_first_index_bounds(s.drop_first(), c);
        assert forall|j: int| 0 <= j < first_index_of(s, c) implies s[j] != c by {
            if j > 0 {
                assert(s[j] == s.drop_first()[j - 1]);
            }
        }
    }
}

proof fn lemma_trim_start(s: Seq<char>)
    ensures
        0 <= trim_start_index(s) <= s.len(),
        forall|j: int| 0 <= j < trim_start_index(s) ==> spec_is_whitespace(#[trigger] s[j]),
        trim_start_index(s) < s.len() ==> !spec_is_whitespace(s[trim_start_index(s)]),
    decreases s.len(),
{
    if s.len() > 0 && spec_is_whitespace(s[0]) {
        lemma_trim_start(s.drop_first());
        assert forall|j: int| 0 <= j < trim_start_index(s) implies spec_is_whitespace(#[trigger] s[j]) by {
            if j > 0 {
                assert(s[j] == s.drop_first()[j - 1]);
            }
        }
    }
}

proof fn lemma_trim_end(s: Seq<char>)
    ensures
        0 <= trim_end_index(s) <= s.len(),
        forall|j: int| trim_end_index(s) <= j < s.len() ==> spec_is_whitespace(#[trigger] s[j]),
        trim_end_index(s) > 0 ==> !spec_is_whitespace(s[trim_end_index(s) - 1]),
    decreases s.len(),
{
    if s.len() > 0 && spec_is_whitespace(s.last()) {
        lemma_trim_end(s.drop_last());
        assert forall|j: int| trim_end_index(s) <= j < s.len() implies spec_is_whitespace(#[trigger] s[j]) by {
            if j < s.len() - 1 {
                assert(s[j] == s.drop_last()[j]);
            }
        }
    }
}

proof fn lemma_trim_start_unique(s: Seq<char>, k: int)
    requires
        0 <= k <= s.len(),
        forall|j: int| 0 <= j < k ==> spec_is_whitespace(#[trigger] s[j]),
        k < s.len() ==> !spec_is_whitespace(s[k]),
    ensures
        trim_start_index(s) == k,
    decreases s.len(),
{
    if s.len() > 0 && k > 0 {
        assert(spec_is_whitespace(s[0]));
        assert forall|j: int| 0 <= j < k - 1 implies spec_is_whitespace(#[trigger] s.drop_first()[j]) by {
            assert(s.drop_first()[j] == s[j + 1]);
        }
        if k - 1 < s.drop_first().len() {
            assert(s.drop_first()[k - 1] == s[k]);
        }
        lemma_trim_start_unique(s.drop_first(), k - 1);
    }
}

proof fn lemma_trim_end_unique(s: Seq<char>, k: int)
    requires
        0 <= k <= s.len(),
        forall|j: int| k <= j < s.len() ==> spec_is_whitespace(#[trigger] s[j]),
        k > 0 ==> !spec_is_whitespace(s[k - 1]),
    ensures
        trim_end_index(s) == k,
    decreases s.len(),
{
    if s.len() > 0 && k < s.len() {
        assert(spec_is_whitespace(s[s.len() - 1]));
        assert forall|j: int| k <= j < s.drop_last().len() implies spec_is_whitespace(#[trigger] s.drop_last()[j]) by {
            assert(s.drop_last()[j] == s[j]);
        }
        if k > 0 {
            assert(s.drop_last()[k - 1] == s[k - 1]);
        }
        lemma_trim_end_unique(s.drop_last(), k);
    }
}

/// The client address named by an `x-forwarded-for` header value.
pub fn forwarded_ip(header: Option<&str>) -> (r: String)
    ensures
        r@ == forwarded_ip_of(
            match header {
                Some(h) => Some(h@),
                None => None,
            },
        ),
{
    match header {
        None => String::new(),
        Some(h) => {
            let n = h.unicode_len();
            let mut end: usize = 0;
            while end < n && h.get_char(end) != ','
                invariant
                    n == h@.len(),
                    end <= n,
                    forall|j: int| 0 <= j < end ==> h@[j] != ',',
                decreases n - end,
            {
                end = end + 1;
            }
            proof {
                lemma_first_index_bounds(h@, ',');
                if first_index_of(h@, ',') < end {
                    assert(h@[first_index_of(h@, ',')] == ',');
                }
                if end < first_index_of(h@, ',') {
                    assert(h@[end as int] == ',');
                }
            }
            let ghost part = h@.subrange(0, end as int);
            let mut start: usize = 0;
            while start < end && char_is_whitespace(h.get_char(start))
                invariant
                    n == h@.len(),
                    end <= n,
                    start <= end,
                    part == h@.subrange(0, end as int),
                    forall|j: int| 0 <= j < start ==> spec_is_whitespace(#[trigger] part[j]),
                decreases end - start,
            {
                start = start + 1;
            }
            let mut stop: usize = end;
            while stop > start && char_is_whitespace(h.get_char(stop - 1))
                invariant
                    n == h@.len(),
                    end <= n,
                    start <= stop <= end,
                    part == h@.subrange(0, end as int),
                    forall|j: int| stop <= j < end ==> spec_is_whitespace(#[trigger] part[j]),
                decreases stop - start,
            {
                stop = stop - 1;
            }
            proof {
                if start < end {
                    assert(!spec_is_whitespace(part[start as int]));
                }
                lemma_trim_start_unique(part, start as int);
                if stop > start {
                    assert(!spec_is_whitespace(part[stop - 1]));
                    lemma_trim_end_unique(part, stop as int);
                } else {
                    lemma_trim_end(part);
                    if trim_end_index(part) > start {
                        assert(!spec_is_whitespace(part[trim_end_index(part) - 1]));
                        assert(spec_is_whitespace(part[trim_end_index(part) - 1]));
                    }
                }
            }
            let piece = h.substring_char(start, stop);
            let mut out = String::new();
            out = out.concat(piece);
            proof {
                assert(out@ =~= trimmed(part));
            }
            out
        },
    }
}

/// The identity a request carries after the session check: the user and the
/// session id when the presented session verified, nothing otherwise.
pub fn request_identity(session_id: String, verified: Result<SessionEntity, ServiceError>) -> (r:
    Option<(UserId, CurrentSessionId)>)
    ensures
        r is Some <==> verified is Ok,
        r matches Some(p) ==> (verified matches Ok(s) && p.0.0 == s.user.0 && p.1.0@ == session_id@),
{
    match verified {
        Ok(s) => Some((UserId(s.user.0), CurrentSessionId(session_id))),
        Err(_) => None,
    }
}


/// Session hardening binds a session to its client: under any option other
/// than `Unrestricted` a session is admitted only from the address it was
/// opened from, and under `RejectDifferentIpOrUserAgent` only with the same
/// user agent too; `RejectDifferentIp` ignores the user agent, `Unrestricted`
/// admits anyone, and the client that opened a session is always admitted.
pub proof fn lemma_hardened_sessions_bound_to_client(
    option: SessionSecurityOption,
    stored_ip: Seq<char>,
    stored_user_agent: Seq<char>,
    ip: Seq<char>,
    user_agent: Seq<char>,
)
    ensures
        security_allows(option, stored_ip, stored_user_agent, ip, user_agent) && option
            != SessionSecurityOption::Unrestricted ==> stored_ip == ip,
        security_allows(option, stored_ip, stored_user_agent, ip, user_agent) && option
            == SessionSecurityOption::RejectDifferentIpOrUserAgent ==> stored_user_agent == user_agent,
        option == SessionSecurityOption::RejectDifferentIp && stored_ip == ip ==> security_allows(
            option,
            stored_ip,
            stored_user_agent,
            ip,
            user_agent,
        ),
        option == SessionSecurityOption::Unrestricted ==> security_allows(
            option,
            stored_ip,
            stored_user_agent,
            ip,
            user_agent,
        ),
        stored_ip == ip && stored_user_agent == user_agent ==> security_allows(
            option,
            stored_ip,
            stored_user_agent,
            ip,
            user_agent,
        ),
{
}


/// Expiry only moves forward: a session expired at some instant stays
/// expired at every later one, and a session live at some instant was live
/// at every earlier one.
pub proof fn lemma_session_expiry_monotone(s: SessionEntity, t: Timestamp, later: Timestamp)
    requires
        t.0 <= later.0,
    ensures
        session_expired(s, t) ==> session_expired(s, later),
        !session_expired(s, later) ==> !session_expired(s, t),
        s.expired_at is None && interval_micros(s.lifespan) >= 0 ==> !session_expired(s, s.last_refreshed_at),
{
}

} // verus!
