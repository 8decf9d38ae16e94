//! Identifiers, statuses and stored rows, as plain values.

use crate::datetime::{PgInterval, Timestamp};
use crate::decimal::Amount;
use crate::roles::AdminRole;
use crate::text::str_eq;
use vstd::prelude::*;

verus! {

/// An account identifier (the 128 bits of its UUID).
#[derive(Debug, Clone, Copy, PartialEq, Eq, Structural)]
pub struct AccountId(pub u128);

/// Strongly typed invite identifier.
#[derive(Debug, Clone, Copy, PartialEq, Eq, Structural)]
pub struct InviteId(pub i64);

/// Opaque session identifier.
#[derive(Clone)]
pub struct SessionId(pub String);

/// A personal API key value. At rest this holds the hash of the key.
#[derive(Clone)]
pub struct ApiKey(pub String);

/// Lifecycle status of an invite.
#[derive(Debug, Clone, Copy, PartialEq, Eq, Structural)]
pub enum InviteStatus {
    Accepted,
    Expired,
    Invalid,
    Pending,
    Free,
}

/// Lifecycle status of a pending invitation.
#[derive(Debug, Clone, Copy, PartialEq, Eq, Structural)]
pub enum PendingInvitationStatus {
    Pending,
    Accepted,
    Expired,
}

/// Session hardening policy.
#[derive(Debug, Clone, Copy, PartialEq, Eq, Structural)]
pub enum SessionSecurityOption {
    RejectDifferentIp,
    RejectDifferentIpOrUserAgent,
    /// No binding to the client's address or user agent.
    Unrestricted,
}

/// Suspension state recorded in an account's history.
#[derive(Debug, Clone, Copy, PartialEq, Eq, Structural)]
pub enum SuspenseStatus {
    Active,
    Suspended,
}

/// Snake-case wire name of an invite status.
pub open spec fn invite_status_name(s: InviteStatus) -> Seq<char> {
    match s {
        InviteStatus::Accepted => "accepted"@,
        InviteStatus::Expired => "expired"@,
        InviteStatus::Invalid => "invalid"@,
        InviteStatus::Pending => "pending"@,
        InviteStatus::Free => "free"@,
    }
}

/// Snake-case wire name of a pending-invitation status.
pub open spec fn pending_status_name(s: PendingInvitationStatus) -> Seq<char> {
    match s {
        PendingInvitationStatus::Pending => "pending"@,
        PendingInvitationStatus::Accepted => "accepted"@,
        PendingInvitationStatus::Expired => "expired"@,
    }
}

impl InviteStatus {
    /// The status a snake-case name names, if any.
    pub fn from_name(s: &str) -> (r: Option<InviteStatus>)
        ensures
            r matches Some(st) ==> invite_status_name(st) == s@,
            r is None ==> forall|st: InviteStatus| invite_status_name(st) != s@,
    {
        proof {
            reveal_strlit("accepted");
            reveal_strlit("expired");
            reveal_strlit("invalid");
            reveal_strlit("pending");
            reveal_strlit("free");
        }
        if str_eq(s, "accepted") {
            Some(InviteStatus::Accepted)
        } else if str_eq(s, "expired") {
            Some(InviteStatus::Expired)
        } else if str_eq(s, "invalid") {
            Some(InviteStatus::Invalid)
        } else if str_eq(s, "pending") {
            Some(InviteStatus::Pending)
        } else if str_eq(s, "free") {
            Some(InviteStatus::Free)
        } else {
            proof {
                assert forall|st: InviteStatus| invite_status_name(st) != s@ by {
                    match st {
                        InviteStatus::Accepted => {},
                        InviteStatus::Expired => {},
                        InviteStatus::Invalid => {},
                        InviteStatus::Pending => {},
                        InviteStatus::Free => {},
                    }
                }
            }
            None
        }
    }

    /// Snake-case wire representation.
    pub fn as_str(&self) -> (r: &'static str)
        ensures
            r@ == invite_status_name(*self),
    {
        match self {
            InviteStatus::Accepted => "accepted",
            InviteStatus::Expired => "expired",
            InviteStatus::Invalid => "invalid",
            InviteStatus::Pending => "pending",
            InviteStatus::Free => "free",
        }
    }
}

impl PendingInvitationStatus {
    /// The status a snake-case name names, if any.
    pub fn from_name(s: &str) -> (r: Option<PendingInvitationStatus>)
        ensures
            r matches Some(st) ==> pending_status_name(st) == s@,
            r is None ==> forall|st: PendingInvitationStatus| pending_status_name(st) != s@,
    {
        proof {
            reveal_strlit("pending");
            reveal_strlit("accepted");
            reveal_strlit("expired");
        }
        if str_eq(s, "pending") {
            Some(PendingInvitationStatus::Pending)
        } else if str_eq(s, "accepted") {
            Some(PendingInvitationStatus::Accepted)
        } else if str_eq(s, "expired") {
            Some(PendingInvitationStatus::Expired)
        } else {
            proof {
                assert forall|st: PendingInvitationStatus| pending_status_name(st) != s@ by {
                    match st {
                        PendingInvitationStatus::Pending => {},
                        PendingInvitationStatus::Accepted => {},
                        PendingInvitationStatus::Expired => {},
                    }
                }
            }
            None
        }
    }

    /// Snake-case wire representation.
    pub fn as_str(&self) -> (r: &'static str)
        ensures
            r@ == pending_status_name(*self),
    {
        match self {
            PendingInvitationStatus::Pending => "pending",
            PendingInvitationStatus::Accepted => "accepted",
            PendingInvitationStatus::Expired => "expired",
        }
    }
}

/// A row of `auth.account`.
pub struct AccountEntity {
    pub id: AccountId,
    pub username: String,
    pub email: String,
    pub avatar_url: Option<String>,
    pub password_hash: String,
    pub registered_at: Timestamp,
}

/// An audit-log row. The content is JSON text.
pub struct AdminOperationLogEntity {
    pub id: i64,
    pub admin: AccountId,
    pub operation_name: String,
    pub operation_content: String,
    pub created_at: Timestamp,
}

/// A combined admin-facing view of a user.
pub struct AdminUserRow {
    pub id: AccountId,
    pub username: String,
    pub email: String,
    pub level: Option<i32>,
    pub admin_role: Option<AdminRole>,
    pub suspended: bool,
    pub registered_at: Timestamp,
}

/// A row of `auth.user_api_key`.
pub struct UserApiKeyEntity {
    pub id: u128,
    pub user: AccountId,
    pub key: ApiKey,
    pub remark: String,
    pub created_at: Timestamp,
    pub valid_until: Option<Timestamp>,
    pub scopes: Vec<String>,
}

/// A row of `auth.credit`. Available balance is `total_amount - frozen_amount`.
pub struct CreditEntity {
    pub account: AccountId,
    pub total_amount: Amount,
    pub frozen_amount: Amount,
}

/// A row of `auth.credit_change_history`.
pub struct CreditChangeHistoryEntity {
    pub id: i64,
    pub account: AccountId,
    pub available_amount_change: Amount,
    pub frozen_amount_change: Amount,
    pub reason: String,
    pub created_at: Timestamp,
}

/// A row of `auth.invite`.
pub struct InviteEntity {
    pub id: InviteId,
    pub owner: AccountId,
    pub invite_token: String,
    pub created_at: Timestamp,
    pub will_expire_at: Option<Timestamp>,
    pub last_status_change: Timestamp,
    pub status: InviteStatus,
    pub source: String,
}

/// A row of `auth.pending_invitation`.
pub struct PendingInvitationEntity {
    pub id: i64,
    pub invite: InviteId,
    pub email: String,
    pub sent_at: Timestamp,
    pub will_release_at: Timestamp,
    pub last_status_change: Timestamp,
    pub status: PendingInvitationStatus,
}

/// A row of `auth.membership`.
pub struct MembershipEntity {
    pub account: AccountId,
    pub level: i32,
    pub admin_privilege: Option<AdminRole>,
    pub invited_by: Option<InviteId>,
    pub available_invitation_count: i32,
}

/// A row of the server configuration table. The value is JSON text.
pub struct ServerConfigEntity {
    pub id: i32,
    pub key: String,
    pub value: String,
    pub last_updated_at: Timestamp,
}

/// A row of `auth.session`.
#[derive(Clone)]
pub struct SessionEntity {
    pub session_id: SessionId,
    pub user: AccountId,
    pub user_agent: String,
    pub ip_address: String,
    pub created_at: Timestamp,
    pub last_refreshed_at: Timestamp,
    pub lifespan: PgInterval,
    pub security_option: SessionSecurityOption,
    pub expired_at: Option<Timestamp>,
}

/// A suspension-history row. The newest status decides whether the account is suspended.
pub struct AccountSuspenseEntity {
    pub id: i64,
    pub account_id: AccountId,
    pub status: SuspenseStatus,
    pub created_at: Timestamp,
    pub reason: String,
    pub operated_by: Option<AccountId>,
}

/// Outcome of inserting an account row.
#[derive(Debug, Clone, Copy, PartialEq, Eq, Structural)]
pub enum CreateAccountResult {
    Success,
    EmailTaken,
    UsernameTaken,
}

/// A row of `auth.totp`: the raw HMAC secret of a user.
#[derive(Clone)]
pub struct UserTotp {
    pub user_id: u128,
    pub secret: Vec<u8>,
}


/// The wire names of invite and pending-invitation statuses are the fixed
/// snake-case names of the states, a pending invitation's status is named as
/// the invite status of the same state, and distinct statuses have distinct
/// names.
pub proof fn lemma_status_names(a: PendingInvitationStatus, b: PendingInvitationStatus, c: InviteStatus, d: InviteStatus)
    ensures
        pending_status_name(PendingInvitationStatus::Pending) == "pending"@,
        pending_status_name(PendingInvitationStatus::Accepted) == "accepted"@,
        pending_status_name(PendingInvitationStatus::Expired) == "expired"@,
        invite_status_name(InviteStatus::Pending) == "pending"@,
        invite_status_name(InviteStatus::Accepted) == "accepted"@,
        invite_status_name(InviteStatus::Expired) == "expired"@,
        invite_status_name(InviteStatus::Invalid) == "invalid"@,
        invite_status_name(InviteStatus::Free) == "free"@,
        pending_status_name(PendingInvitationStatus::Pending) == invite_status_name(InviteStatus::Pending),
        pending_status_name(PendingInvitationStatus::Accepted) == invite_status_name(InviteStatus::Accepted),
        pending_status_name(PendingInvitationStatus::Expired) == invite_status_name(InviteStatus::Expired),
        pending_status_name(a) == pending_status_name(b) ==> a == b,
        invite_status_name(c) == invite_status_name(d) ==> c == d,
{
    reveal_strlit("pending");
    reveal_strlit("accepted");
    reveal_strlit("expired");
    reveal_strlit("invalid");
    reveal_strlit("free");
    assert(pending_status_name(a) == pending_status_name(b) ==> a == b) by {
        if pending_status_name(a) == pending_status_name(b) && a != b {
            assert(pending_status_name(a)[0] != pending_status_name(b)[0] || pending_status_name(a).len()
                != pending_status_name(b).len());
        }
    }
    assert(invite_status_name(c) == invite_status_name(d) ==> c == d) by {
        if invite_status_name(c) == invite_status_name(d) && c != d {
            assert(invite_status_name(c)[0] != invite_status_name(d)[0] || invite_status_name(c).len()
                != invite_status_name(d).len());
        }
    }
}

} // verus!
