//! Replies on the wire: what each transport answer carries, built from the
//! service results (unix seconds for instants, UUID text for ids, snake-case
//! names for statuses and roles, decimal text for amounts).

use crate::account::RegisterResult;
use crate::api_key::ApiKeyVerifyOutput;
use crate::cache::{security_option_name, security_option_str};
use crate::crypto::{spec_uuid_text, uuid_to_string};
use crate::datetime::{to_unix, unix_secs_of, Timestamp};
use crate::decimal::{decimal_checked_sub, decimal_to_string, spec_decimal_string, spec_decimal_sub};
use crate::identity::ServiceError;
use crate::model::{
    invite_status_name, pending_status_name, AdminUserRow, CreditChangeHistoryEntity, CreditEntity,
    InviteEntity, MembershipEntity, PendingInvitationEntity, SessionEntity, UserApiKeyEntity,
};
use crate::mfa::{FinishTotpEnrollmentResult, VerifyMfaLoginResult};
use crate::profile::{InvitationGrouping, ProfileData};
use crate::roles::{admin_role_name, AdminRole};
use crate::text::str_eq_ignore_ascii_case;
use vstd::prelude::*;
use vstd::string::StringExecFns;

verus! {

/// Unix seconds of an optional instant.
pub open spec fn opt_secs(t: Option<Timestamp>) -> Option<u64> {
    match t {
        Some(t) => Some(unix_secs_of(t.0 as int) as u64),
        None => None,
    }
}

fn opt_to_unix(t: Option<Timestamp>) -> (r: Option<u64>)
    ensures
        r == opt_secs(t),
{
    match t {
        Some(t) => Some(to_unix(t)),
        None => None,
    }
}

/// The level a membership gives: its level, 0 without one.
pub open spec fn level_of(m: Option<MembershipEntity>) -> i32 {
    match m {
        Some(m) => m.level,
        None => 0,
    }
}

/// The role name a membership gives, if it grants a role.
pub open spec fn role_name_of(m: Option<MembershipEntity>) -> Option<Seq<char>> {
    match m {
        Some(m) => match m.admin_privilege {
            Some(r) => Some(admin_role_name(r)),
            None => None,
        },
        None => None,
    }
}

/// The view of an optional text.
pub open spec fn opt_view(s: Option<String>) -> Option<Seq<char>> {
    match s {
        Some(s) => Some(s@),
        None => None,
    }
}

fn role_text(role: Option<AdminRole>) -> (r: Option<String>)
    ensures
        opt_view(r) == (match role {
            Some(x) => Some(admin_role_name(x)),
            None => None::<Seq<char>>,
        }),
{
    match role {
        Some(x) => Some(String::from_str(x.as_str())),
        None => None,
    }
}

fn membership_level(m: &Option<MembershipEntity>) -> (r: i32)
    ensures
        r == level_of(*m),
{
    match m {
        Some(m) => m.level,
        None => 0,
    }
}

fn membership_role(m: &Option<MembershipEntity>) -> (r: Option<String>)
    ensures
        opt_view(r) == role_name_of(*m),
{
    match m {
        Some(m) => role_text(m.admin_privilege),
        None => None,
    }
}

/// A session as listed to its owner.
pub struct SessionInfo {
    pub session_id: String,
    pub user_agent: String,
    pub ip_address: String,
    pub created_at: u64,
    pub last_refreshed_at: u64,
    pub expired_at: Option<u64>,
    pub security_option: String,
}

/// The listing entry of a session.
pub fn session_info(s: SessionEntity) -> (r: SessionInfo)
    ensures
        r.session_id == s.session_id.0,
        r.user_agent == s.user_agent,
        r.ip_address == s.ip_address,
        r.created_at == unix_secs_of(s.created_at.0 as int),
        r.last_refreshed_at == unix_secs_of(s.last_refreshed_at.0 as int),
        r.expired_at == opt_secs(s.expired_at),
        r.security_option@ == security_option_name(s.security_option),
{
    SessionInfo {
        session_id: s.session_id.0,
        user_agent: s.user_agent,
        ip_address: s.ip_address,
        created_at: to_unix(s.created_at),
        last_refreshed_at: to_unix(s.last_refreshed_at),
        expired_at: opt_to_unix(s.expired_at),
        security_option: String::from_str(security_option_str(s.security_option)),
    }
}

/// A user as shown in the admin console.
pub struct AdminUserInfo {
    pub user_id: String,
    pub username: String,
    pub email: String,
    pub level: i32,
    pub admin_role: Option<String>,
    pub suspended: bool,
    pub registered_at: u64,
}

/// The admin-console entry of a user: a missing level reads as 0.
pub fn admin_user_info(row: AdminUserRow) -> (r: AdminUserInfo)
    ensures
        r.user_id@ == spec_uuid_text(row.id.0),
        r.username == row.username,
        r.email == row.email,
        r.level == (match row.level {
            Some(l) => l,
            None => 0,
        }),
        opt_view(r.admin_role) == (match row.admin_role {
            Some(x) => Some(admin_role_name(x)),
            None => None::<Seq<char>>,
        }),
        r.suspended == row.suspended,
        r.registered_at == unix_secs_of(row.registered_at.0 as int),
{
    AdminUserInfo {
        user_id: uuid_to_string(row.id.0),
        username: row.username,
        email: row.email,
        level: match row.level {
            Some(l) => l,
            None => 0,
        },
        admin_role: role_text(row.admin_role),
        suspended: row.suspended,
        registered_at: to_unix(row.registered_at),
    }
}

/// The caller's own profile.
pub struct MyProfile {
    pub user_id: String,
    pub username: String,
    pub email: String,
    pub avatar_url: Option<String>,
    pub level: i32,
    pub admin_role: Option<String>,
    pub registered_at: u64,
}

/// The caller's profile reply: level 0 and no role without a membership.
pub fn my_profile(data: ProfileData) -> (r: MyProfile)
    ensures
        r.user_id@ == spec_uuid_text(data.account.id.0),
        r.username == data.account.username,
        r.email == data.account.email,
        r.avatar_url == data.account.avatar_url,
        r.level == level_of(data.membership),
        opt_view(r.admin_role) == role_name_of(data.membership),
        r.registered_at == unix_secs_of(data.account.registered_at.0 as int),
{
    let level = membership_level(&data.membership);
    let admin_role = membership_role(&data.membership);
    MyProfile {
        user_id: uuid_to_string(data.account.id.0),
        username: data.account.username,
        email: data.account.email,
        avatar_url: data.account.avatar_url,
        level,
        admin_role,
        registered_at: to_unix(data.account.registered_at),
    }
}

/// Another user's public profile.
pub struct PublicProfile {
    pub user_id: String,
    pub username: String,
    pub avatar_url: Option<String>,
    pub level: i32,
    pub registered_at: u64,
}

/// The public profile reply: no email, no role.
pub fn public_profile(data: ProfileData) -> (r: PublicProfile)
    ensures
        r.user_id@ == spec_uuid_text(data.account.id.0),
        r.username == data.account.username,
        r.avatar_url == data.account.avatar_url,
        r.level == level_of(data.membership),
        r.registered_at == unix_secs_of(data.account.registered_at.0 as int),
{
    let level = membership_level(&data.membership);
    PublicProfile {
        user_id: uuid_to_string(data.account.id.0),
        username: data.account.username,
        avatar_url: data.account.avatar_url,
        level,
        registered_at: to_unix(data.account.registered_at),
    }
}

/// A user's identity as other services see it.
pub struct UserIdentity {
    pub user_id: String,
    pub username: String,
    pub email: String,
    pub avatar_url: Option<String>,
    pub level: i32,
}

/// The identity reply of a user.
pub fn user_identity(data: ProfileData) -> (r: UserIdentity)
    ensures
        r.user_id@ == spec_uuid_text(data.account.id.0),
        r.username == data.account.username,
        r.email == data.account.email,
        r.avatar_url == data.account.avatar_url,
        r.level == level_of(data.membership),
{
    let level = membership_level(&data.membership);
    UserIdentity {
        user_id: uuid_to_string(data.account.id.0),
        username: data.account.username,
        email: data.account.email,
        avatar_url: data.account.avatar_url,
        level,
    }
}

/// The caller's credit balance. Amounts are decimal text.
pub struct CreditView {
    /// Total balance.
    pub total: String,
    /// Portion currently held.
    pub frozen: String,
    /// Spendable balance (`total - frozen`).
    pub available: String,
}

/// Whether a credit row's amounts are representable and their difference is.
pub open spec fn credit_view_defined(credit: CreditEntity) -> bool {
    &&& credit.total_amount.wf()
    &&& credit.frozen_amount.wf()
    &&& spec_decimal_sub(credit.total_amount, credit.frozen_amount) is Some
}

/// The balance reply: total, frozen, and available (`total - frozen`).
pub fn credit_view(credit: &CreditEntity) -> (r: CreditView)
    requires
        credit_view_defined(*credit),
    ensures
        r.total@ == spec_decimal_string(credit.total_amount),
        r.frozen@ == spec_decimal_string(credit.frozen_amount),
        r.available@ == spec_decimal_string(spec_decimal_sub(credit.total_amount, credit.frozen_amount).unwrap()),
{
    let available = decimal_checked_sub(credit.total_amount, credit.frozen_amount).unwrap();
    CreditView {
        total: decimal_to_string(credit.total_amount),
        frozen: decimal_to_string(credit.frozen_amount),
        available: decimal_to_string(available),
    }
}

/// The balance reply where the difference is representable; nothing where
/// `total - frozen` overflows (the reply cannot be built then).
pub fn try_credit_view(credit: &CreditEntity) -> (r: Option<CreditView>)
    requires
        credit.total_amount.wf(),
        credit.frozen_amount.wf(),
    ensures
        r is Some <==> credit_view_defined(*credit),
        r matches Some(v) ==> {
            &&& v.total@ == spec_decimal_string(credit.total_amount)
            &&& v.frozen@ == spec_decimal_string(credit.frozen_amount)
            &&& v.available@ == spec_decimal_string(
                spec_decimal_sub(credit.total_amount, credit.frozen_amount).unwrap(),
            )
        },
{
    match decimal_checked_sub(credit.total_amount, credit.frozen_amount) {
        Some(_) => Some(credit_view(credit)),
        None => None,
    }
}

/// An entry of the credit history.
pub struct CreditLogEntry {
    pub id: i64,
    pub available_amount_change: String,
    pub frozen_amount_change: String,
    pub reason: String,
    pub created_at: u64,
}

/// The reply entry of a credit-history row.
pub fn credit_log_entry(e: CreditChangeHistoryEntity) -> (r: CreditLogEntry)
    requires
        e.available_amount_change.wf(),
        e.frozen_amount_change.wf(),
    ensures
        r.id == e.id,
        r.available_amount_change@ == spec_decimal_string(e.available_amount_change),
        r.frozen_amount_change@ == spec_decimal_string(e.frozen_amount_change),
        r.reason == e.reason,
        r.created_at == unix_secs_of(e.created_at.0 as int),
{
    CreditLogEntry {
        id: e.id,
        available_amount_change: decimal_to_string(e.available_amount_change),
        frozen_amount_change: decimal_to_string(e.frozen_amount_change),
        reason: e.reason,
        created_at: to_unix(e.created_at),
    }
}

/// An invite as listed to its owner.
pub struct InviteInfo {
    pub id: i64,
    pub invite_token: String,
    pub status: String,
    pub created_at: u64,
    pub will_expire_at: Option<u64>,
    pub source: String,
}

/// Whether a listing entry is the one of an invite.
pub open spec fn lists_invite(r: InviteInfo, i: InviteEntity) -> bool {
    &&& r.id == i.id.0
    &&& r.invite_token == i.invite_token
    &&& r.status@ == invite_status_name(i.status)
    &&& r.created_at == unix_secs_of(i.created_at.0 as int)
    &&& r.will_expire_at == opt_secs(i.will_expire_at)
    &&& r.source == i.source
}

/// The listing entry of an invite.
pub fn invite_info(i: InviteEntity) -> (r: InviteInfo)
    ensures
        lists_invite(r, i),
{
    InviteInfo {
        id: i.id.0,
        invite_token: i.invite_token,
        status: String::from_str(i.status.as_str()),
        created_at: to_unix(i.created_at),
        will_expire_at: opt_to_unix(i.will_expire_at),
        source: i.source,
    }
}

/// A pending invitation as listed to the inviter.
pub struct PendingInvitationInfo {
    pub id: i64,
    pub invite: i64,
    pub email: String,
    pub sent_at: u64,
    pub will_release_at: u64,
    pub status: String,
}

/// Whether a listing entry is the one of a pending invitation.
pub open spec fn lists_pending(r: PendingInvitationInfo, p: PendingInvitationEntity) -> bool {
    &&& r.id == p.id
    &&& r.invite == p.invite.0
    &&& r.email == p.email
    &&& r.sent_at == unix_secs_of(p.sent_at.0 as int)
    &&& r.will_release_at == unix_secs_of(p.will_release_at.0 as int)
    &&& r.status@ == pending_status_name(p.status)
}

/// The listing entry of a pending invitation.
pub fn pending_invitation_info(p: PendingInvitationEntity) -> (r: PendingInvitationInfo)
    ensures
        lists_pending(r, p),
{
    PendingInvitationInfo {
        id: p.id,
        invite: p.invite.0,
        email: p.email,
        sent_at: to_unix(p.sent_at),
        will_release_at: to_unix(p.will_release_at),
        status: String::from_str(p.status.as_str()),
    }
}

/// The listing of a user's invitations and pending sends, in order.
pub fn invitation_listing(invites: Vec<InviteEntity>, pending: Vec<PendingInvitationEntity>) -> (r: (
    Vec<InviteInfo>,
    Vec<PendingInvitationInfo>,
))
    ensures
        r.0@.len() == invites@.len(),
        r.1@.len() == pending@.len(),
        forall|i: int| 0 <= i < r.0@.len() ==> lists_invite(#[trigger] r.0@[i], invites@[i]),
        forall|i: int| 0 <= i < r.1@.len() ==> lists_pending(#[trigger] r.1@[i], pending@[i]),
{
    let mut out_invites: Vec<InviteInfo> = Vec::new();
    let mut rest = invites;
    let ghost all = rest@;
    let mut k: usize = 0;
    let n = rest.len();
    while k < n
        invariant
            n == all.len(),
            k <= n,
            rest@ == all.subrange(k as int, n as int),
            out_invites@.len() == k,
            forall|i: int| 0 <= i < k ==> lists_invite(#[trigger] out_invites@[i], all[i]),
        decreases n - k,
    {
        let item = rest.remove(0);
        assert(item == all[k as int]);
        out_invites.push(invite_info(item));
        k = k + 1;
        assert(rest@ =~= all.subrange(k as int, n as int));
    }
    let mut out_pending: Vec<PendingInvitationInfo> = Vec::new();
    let mut rest_p = pending;
    let ghost all_p = rest_p@;
    let mut j: usize = 0;
    let m = rest_p.len();
    while j < m
        invariant
            m == all_p.len(),
            j <= m,
            rest_p@ == all_p.subrange(j as int, m as int),
            out_pending@.len() == j,
            forall|i: int| 0 <= i < j ==> lists_pending(#[trigger] out_pending@[i], all_p[i]),
        decreases m - j,
    {
        let item = rest_p.remove(0);
        assert(item == all_p[j as int]);
        out_pending.push(pending_invitation_info(item));
        j = j + 1;
        assert(rest_p@ =~= all_p.subrange(j as int, m as int));
    }
    (out_invites, out_pending)
}

/// An API key as listed to its owner (never the key itself).
pub struct ApiKeyInfo {
    pub id: String,
    pub remark: String,
    pub created_at: u64,
    pub valid_until: Option<u64>,
    pub scopes: Vec<String>,
}

/// The listing entry of an API key.
pub fn api_key_info(k: UserApiKeyEntity) -> (r: ApiKeyInfo)
    ensures
        r.id@ == spec_uuid_text(k.id),
        r.remark == k.remark,
        r.created_at == unix_secs_of(k.created_at.0 as int),
        r.valid_until == opt_secs(k.valid_until),
        r.scopes == k.scopes,
{
    ApiKeyInfo {
        id: uuid_to_string(k.id),
        remark: k.remark,
        created_at: to_unix(k.created_at),
        valid_until: opt_to_unix(k.valid_until),
        scopes: k.scopes,
    }
}

/// An entry of the audit log.
pub struct AuditLogEntry {
    pub id: i64,
    pub admin: String,
    pub operation_name: String,
    pub operation_content: String,
    pub created_at: u64,
}

/// The reply entry of an audit-log row.
pub fn audit_log_entry(row: crate::model::AdminOperationLogEntity) -> (r: AuditLogEntry)
    ensures
        r.id == row.id,
        r.admin@ == spec_uuid_text(row.admin.0),
        r.operation_name == row.operation_name,
        r.operation_content == row.operation_content,
        r.created_at == unix_secs_of(row.created_at.0 as int),
{
    AuditLogEntry {
        id: row.id,
        admin: uuid_to_string(row.admin.0),
        operation_name: row.operation_name,
        operation_content: row.operation_content,
        created_at: to_unix(row.created_at),
    }
}

/// Result code of a registration on the wire.
#[derive(Debug, Clone, Copy, PartialEq, Eq, Structural)]
pub enum RegisterReplyCode {
    Success,
    EmailTaken,
    UsernameTaken,
    InvalidInvite,
}

/// The registration reply: its code, and the new user's id on success.
pub fn register_reply(result: RegisterResult) -> (r: (RegisterReplyCode, Option<String>))
    ensures
        result matches RegisterResult::Success { user_id } ==> (r.0 == RegisterReplyCode::Success
            && opt_view(r.1) == Some(spec_uuid_text(user_id.0))),
        result is EmailTaken ==> (r.0 == RegisterReplyCode::EmailTaken && r.1 is None),
        result is UsernameTaken ==> (r.0 == RegisterReplyCode::UsernameTaken && r.1 is None),
        result is InvalidInvite ==> (r.0 == RegisterReplyCode::InvalidInvite && r.1 is None),
{
    match result {
        RegisterResult::Success { user_id } => (RegisterReplyCode::Success, Some(uuid_to_string(user_id.0))),
        RegisterResult::EmailTaken => (RegisterReplyCode::EmailTaken, None),
        RegisterResult::UsernameTaken => (RegisterReplyCode::UsernameTaken, None),
        RegisterResult::InvalidInvite => (RegisterReplyCode::InvalidInvite, None),
    }
}

/// The session check other services get: valid with the user's id, or
/// invalid for an unknown, expired or rejected session; other errors propagate.
pub fn check_session_reply(verified: Result<SessionEntity, ServiceError>) -> (r: Result<
    (bool, Option<String>),
    ServiceError,
>)
    ensures
        verified matches Ok(s) ==> (r matches Ok(p) && p.0 && opt_view(p.1) == Some(spec_uuid_text(s.user.0))),
        verified matches Err(e) ==> ((e is NotFound || e is PermissionsDenied) ==> (r matches Ok(p) && !p.0
            && p.1 is None)),
        verified matches Err(e) ==> (!(e is NotFound || e is PermissionsDenied) ==> (r matches Err(e2)
            && e2 == e)),
{
    match verified {
        Ok(s) => Ok((true, Some(uuid_to_string(s.user.0)))),
        Err(ServiceError::NotFound) => Ok((false, None)),
        Err(ServiceError::PermissionsDenied) => Ok((false, None)),
        Err(e) => Err(e),
    }
}

/// The API-key check other services get.
pub struct CheckApiKeyReply {
    pub valid: bool,
    pub user_id: Option<String>,
    /// Unix seconds; 0 when the key does not expire or is invalid.
    pub valid_until: u64,
    pub scopes: Vec<String>,
}

/// The API-key check reply: valid with owner, expiry and scopes, or invalid.
pub fn check_api_key_reply(verified: Option<ApiKeyVerifyOutput>) -> (r: CheckApiKeyReply)
    ensures
        verified matches Some(v) ==> {
            &&& r.valid
            &&& opt_view(r.user_id) == Some(spec_uuid_text(v.user.0))
            &&& r.valid_until == (match v.valid_until {
                Some(t) => unix_secs_of(t.0 as int),
                None => 0,
            })
            &&& r.scopes == v.scopes
        },
        verified is None ==> (!r.valid && r.user_id is None && r.valid_until == 0 && r.scopes@.len() == 0),
{
    match verified {
        Some(v) => CheckApiKeyReply {
            valid: true,
            user_id: Some(uuid_to_string(v.user.0)),
            valid_until: match v.valid_until {
                Some(t) => to_unix(t),
                None => 0,
            },
            scopes: v.scopes,
        },
        None => CheckApiKeyReply { valid: false, user_id: None, valid_until: 0, scopes: Vec::new() },
    }
}

/// The new free-slot count a grant replies with (an `i64` count truncated to `i32`).
pub fn grant_reply_count(count: i64) -> (r: i32)
    ensures
        r == count as i32,
{
    count as i32
}

/// A role text that names no role.
pub struct InvalidRole(pub String);

/// Parse a role given on the command line.
pub fn parse_role(role: &str) -> (r: Result<AdminRole, InvalidRole>)
    ensures
        r matches Ok(x) ==> admin_role_name(x) == role@,
        r is Err ==> forall|x: AdminRole| admin_role_name(x) != role@,
        r matches Err(e) ==> e.0@ == role@,
{
    match AdminRole::parse(role) {
        Some(x) => Ok(x),
        None => Err(InvalidRole(String::from_str(role))),
    }
}

/// A role argument that may clear the role: `none` (in any ASCII case)
/// clears it, anything else must name a role.
pub fn parse_role_argument(role: &str) -> (r: Result<Option<AdminRole>, InvalidRole>)
    ensures
        crate::text::eq_ignore_ascii_case_spec(role@, "none"@) ==> r == Ok::<Option<AdminRole>, InvalidRole>(None),
        !crate::text::eq_ignore_ascii_case_spec(role@, "none"@) ==> (r matches Ok(Some(x)) ==> admin_role_name(x) == role@),
        !crate::text::eq_ignore_ascii_case_spec(role@, "none"@) ==> (r is Err <==> forall|x: AdminRole| admin_role_name(x) != role@),
{
    if str_eq_ignore_ascii_case(role, "none") {
        Ok(None)
    } else {
        match parse_role(role) {
            Ok(x) => Ok(Some(x)),
            Err(e) => Err(e),
        }
    }
}

/// Parse a UUID given in a request; text that is no UUID is invalid input.
pub fn parse_uuid(s: &str) -> (r: Result<u128, ServiceError>)
    ensures
        crate::crypto::spec_uuid_parse(s@) matches Some(u) ==> r == Ok::<u128, ServiceError>(u),
        crate::crypto::spec_uuid_parse(s@) is None ==> r matches Err(ServiceError::InvalidInput),
{
    match crate::crypto::uuid_parse(s) {
        Some(u) => Ok(u),
        None => Err(ServiceError::InvalidInput),
    }
}

/// The ids of a batch request that parse as UUIDs, in order; the others are skipped.
pub open spec fn parsed_ids(raw: Seq<Seq<char>>) -> Seq<u128>
    decreases raw.len(),
{
    if raw.len() == 0 {
        Seq::empty()
    } else {
        parsed_ids(raw.drop_last()) + match crate::crypto::spec_uuid_parse(raw.last()) {
            Some(u) => seq![u],
            None => Seq::empty(),
        }
    }
}

/// The views of a list of texts.
pub open spec fn views(raw: Seq<String>) -> Seq<Seq<char>> {
    raw.map_values(|s: String| s@)
}

/// The ids of a batch request that parse as UUIDs, in order.
pub fn parse_user_ids(raw: &Vec<String>) -> (r: Vec<u128>)
    ensures
        r@ == parsed_ids(views(raw@)),
{
    let mut out: Vec<u128> = Vec::new();
    let n = raw.len();
    let mut i: usize = 0;
    while i < n
        invariant
            n == raw@.len(),
            i <= n,
            out@ == parsed_ids(views(raw@.subrange(0, i as int))),
        decreases n - i,
    {
        proof {
            let pre = views(raw@.subrange(0, i + 1));
            assert(pre.drop_last() =~= views(raw@.subrange(0, i as int)));
            assert(pre.last() == raw@[i as int]@);
        }
        match crate::crypto::uuid_parse(raw[i].as_str()) {
            Some(u) => {
                out.push(u);
            },
            None => {
                assert(out@ + Seq::<u128>::empty() =~= out@);
            },
        }
        i = i + 1;
    }
    assert(raw@.subrange(0, n as int) =~= raw@);
    out
}

/// Result code of finishing a TOTP enrollment on the wire.
#[derive(Debug, Clone, Copy, PartialEq, Eq, Structural)]
pub enum FinishTotpEnrollmentReplyCode {
    Success,
    InvalidCode,
    NoPending,
    AlreadyEnabled,
}

/// The enrollment reply: its code, and the recovery codes on success only.
pub fn finish_enrollment_reply(result: FinishTotpEnrollmentResult) -> (r: (FinishTotpEnrollmentReplyCode, Vec<String>))
    ensures
        result matches FinishTotpEnrollmentResult::Success(codes) ==> (r.0 == FinishTotpEnrollmentReplyCode::Success
            && r.1 == codes),
        result is InvalidCode ==> (r.0 == FinishTotpEnrollmentReplyCode::InvalidCode && r.1@.len() == 0),
        result is NoPending ==> (r.0 == FinishTotpEnrollmentReplyCode::NoPending && r.1@.len() == 0),
        result is AlreadyEnabled ==> (r.0 == FinishTotpEnrollmentReplyCode::AlreadyEnabled && r.1@.len() == 0),
{
    match result {
        FinishTotpEnrollmentResult::Success(codes) => (FinishTotpEnrollmentReplyCode::Success, codes),
        FinishTotpEnrollmentResult::InvalidCode => (FinishTotpEnrollmentReplyCode::InvalidCode, Vec::new()),
        FinishTotpEnrollmentResult::NoPending => (FinishTotpEnrollmentReplyCode::NoPending, Vec::new()),
        FinishTotpEnrollmentResult::AlreadyEnabled => (FinishTotpEnrollmentReplyCode::AlreadyEnabled, Vec::new()),
    }
}

/// Result code of an MFA-login exchange on the wire.
#[derive(Debug, Clone, Copy, PartialEq, Eq, Structural)]
pub enum VerifyMfaLoginReplyCode {
    Success,
    InvalidToken,
    InvalidCode,
}

/// The MFA-login reply: its code, and the session id on success only.
pub fn verify_mfa_login_reply(result: VerifyMfaLoginResult) -> (r: (VerifyMfaLoginReplyCode, Option<String>))
    ensures
        result matches VerifyMfaLoginResult::Success(sid) ==> (r.0 == VerifyMfaLoginReplyCode::Success
            && r.1 == Some(sid.0)),
        result is InvalidToken ==> (r.0 == VerifyMfaLoginReplyCode::InvalidToken && r.1 is None),
        result is InvalidCode ==> (r.0 == VerifyMfaLoginReplyCode::InvalidCode && r.1 is None),
{
    match result {
        VerifyMfaLoginResult::Success(sid) => (VerifyMfaLoginReplyCode::Success, Some(sid.0)),
        VerifyMfaLoginResult::InvalidToken => (VerifyMfaLoginReplyCode::InvalidToken, None),
        VerifyMfaLoginResult::InvalidCode => (VerifyMfaLoginReplyCode::InvalidCode, None),
    }
}

/// The role a role-change request names: none to clear it; a text that
/// names no role is invalid input.
pub fn role_request(role: Option<&str>) -> (r: Result<Option<AdminRole>, ServiceError>)
    ensures
        role is None ==> r == Ok::<Option<AdminRole>, ServiceError>(None),
        role matches Some(t) ==> (crate::roles::role_named(t@) matches Some(x) ==> r
            == Ok::<Option<AdminRole>, ServiceError>(Some(x))),
        role matches Some(t) ==> (crate::roles::role_named(t@) is None ==> r matches Err(
            ServiceError::InvalidInput,
        )),
{
    match role {
        None => Ok(None),
        Some(t) => match AdminRole::parse(t) {
            Some(x) => Ok(Some(x)),
            None => Err(ServiceError::InvalidInput),
        },
    }
}

/// The key-creation request of a user: the expiry, given in unix seconds,
/// becomes an instant.
pub fn api_key_request(user: u128, remark: String, valid_until: Option<u64>, scopes: Vec<String>) -> (r:
    crate::api_key::CreateApiKey)
    ensures
        r.user_id.0 == user,
        r.remark == remark,
        r.valid_until == (match valid_until {
            Some(s) => Some(Timestamp(crate::datetime::from_unix_spec(s) as i64)),
            None => None,
        }),
        r.scopes == scopes,
{
    let until = match valid_until {
        Some(s) => Some(crate::datetime::from_unix(s)),
        None => None,
    };
    crate::api_key::CreateApiKey { user_id: crate::model::AccountId(user), remark, valid_until: until, scopes }
}

/// The caller's account profile on the HTTP surface.
pub struct ProfileView {
    /// Account id (UUID text).
    pub user_id: String,
    pub username: String,
    pub email: String,
    pub avatar_url: Option<String>,
    /// Membership level (0 without a membership).
    pub level: i32,
    /// Administrative role, if any (snake-case).
    pub admin_role: Option<String>,
    /// Registration time, unix seconds.
    pub registered_at: u64,
}

/// The caller's invitations counted by lifecycle status.
#[derive(Debug, Clone, Copy, PartialEq, Eq, Structural)]
pub struct InvitationByStatus {
    pub accepted: u32,
    pub expired: u32,
    pub invalid: u32,
    pub pending: u32,
    pub free: u32,
}

/// The caller's invitation availability and status breakdown.
#[derive(Debug, Clone, Copy, PartialEq, Eq, Structural)]
pub struct InvitationView {
    /// Number of invitations the caller may still send.
    pub available: i32,
    /// Owned invitations grouped by status.
    pub by_status: InvitationByStatus,
}

/// The `/api/me` response body.
pub struct MeResponse {
    pub profile: ProfileView,
    pub credit: CreditView,
    pub invitation: InvitationView,
}

/// The `/api/me` body: the caller's profile, credit balance, and invitations
/// by status.
pub fn me_response(profile: ProfileData, credit: &CreditEntity, grouping: InvitationGrouping) -> (r: MeResponse)
    requires
        credit_view_defined(*credit),
    ensures
        r.profile.user_id@ == spec_uuid_text(profile.account.id.0),
        r.profile.username == profile.account.username,
        r.profile.email == profile.account.email,
        r.profile.avatar_url == profile.account.avatar_url,
        r.profile.level == level_of(profile.membership),
        opt_view(r.profile.admin_role) == role_name_of(profile.membership),
        r.profile.registered_at == unix_secs_of(profile.account.registered_at.0 as int),
        r.credit.total@ == spec_decimal_string(credit.total_amount),
        r.credit.frozen@ == spec_decimal_string(credit.frozen_amount),
        r.credit.available@ == spec_decimal_string(spec_decimal_sub(credit.total_amount, credit.frozen_amount).unwrap()),
        r.invitation.available == grouping.available_count,
        r.invitation.by_status == (InvitationByStatus {
            accepted: grouping.accepted,
            expired: grouping.expired,
            invalid: grouping.invalid,
            pending: grouping.pending,
            free: grouping.free,
        }),
{
    let level = membership_level(&profile.membership);
    let admin_role = membership_role(&profile.membership);
    let view = ProfileView {
        user_id: uuid_to_string(profile.account.id.0),
        username: profile.account.username,
        email: profile.account.email,
        avatar_url: profile.account.avatar_url,
        level,
        admin_role,
        registered_at: to_unix(profile.account.registered_at),
    };
    MeResponse {
        profile: view,
        credit: credit_view(credit),
        invitation: InvitationView {
            available: grouping.available_count,
            by_status: InvitationByStatus {
                accepted: grouping.accepted,
                expired: grouping.expired,
                invalid: grouping.invalid,
                pending: grouping.pending,
                free: grouping.free,
            },
        },
    }
}

/// The `/api/me` body where the available balance is representable; nothing
/// where `total - frozen` overflows.
pub fn try_me_response(profile: ProfileData, credit: &CreditEntity, grouping: InvitationGrouping) -> (r:
    Option<MeResponse>)
    requires
        credit.total_amount.wf(),
        credit.frozen_amount.wf(),
    ensures
        r is Some <==> credit_view_defined(*credit),
        r matches Some(m) ==> {
            &&& m.profile.user_id@ == spec_uuid_text(profile.account.id.0)
            &&& m.profile.level == level_of(profile.membership)
            &&& m.credit.available@ == spec_decimal_string(
                spec_decimal_sub(credit.total_amount, credit.frozen_amount).unwrap(),
            )
            &&& m.invitation.available == grouping.available_count
        },
{
    match decimal_checked_sub(credit.total_amount, credit.frozen_amount) {
        Some(_) => Some(me_response(profile, credit, grouping)),
        None => None,
    }
}

} // verus!
