//! Administrative operations: role-based access control, the records each
//! operation writes, and the audit entry it leaves.
//!
//! Each operation resolves the caller's role from their membership, checks
//! it against the operation's allowed roles, acts, and (for mutations)
//! records an audit entry with the operation's name and content.

use crate::crypto::spec_uuid_text;
use crate::datetime::{add_secs, add_secs_in_range, timestamp_in_range, Timestamp};
use crate::identity::ServiceError;
use crate::invitation::{after_secs, generate_invite_token};
use crate::json::{
    i64_decimal, json_object, json_string, json_uuid, object_text, signed_decimal,
    spec_json_string, u64_decimal, decimal,
};
use crate::model::{AccountId, InviteId, InviteStatus, MembershipEntity, SuspenseStatus};
use crate::roles::{admin_role_name, AdminRole};
use crate::crypto::spec_base32;
use vstd::prelude::*;
use vstd::string::StringExecFns;

verus! {

/// Whether a role may read and write server settings and read the audit log.
pub open spec fn config_role(role: AdminRole) -> bool {
    role == AdminRole::SiteOwner || role == AdminRole::Maintainer
}

/// Whether a role may ban, unban and set roles.
pub open spec fn moderation_role(role: AdminRole) -> bool {
    role == AdminRole::SiteOwner || role == AdminRole::Maintainer || role == AdminRole::Moderator
}

/// Whether a role may grant and invalidate invitations.
pub open spec fn invitation_role(role: AdminRole) -> bool {
    role == AdminRole::SiteOwner || role == AdminRole::Moderator
}

/// Whether a role is elevated (above assistant).
pub open spec fn elevated(role: AdminRole) -> bool {
    role != AdminRole::Assistant
}

/// An administrative operation governed by role-based access control.
pub trait AdminOperation {
    /// Whether the role may perform the operation.
    spec fn allows(role: AdminRole) -> bool;

    /// Stable operation name recorded in the audit log.
    spec fn name() -> Seq<char>;

    /// The audited payload of this operation instance (JSON text).
    spec fn content(&self) -> Seq<char>;

    /// Whether the given role may perform this operation.
    fn is_allowed(role: AdminRole) -> (r: bool)
        ensures
            r == Self::allows(role),
    ;

    /// Stable operation name recorded in the audit log.
    fn operation_name() -> (r: &'static str)
        ensures
            r@ == Self::name(),
    ;

    /// The audited payload describing this operation instance.
    fn audit_content(&self) -> (r: String)
        ensures
            r@ == self.content(),
    ;
}

/// The caller's administrative role: members without one are denied.
pub open spec fn role_of_spec(membership: Option<MembershipEntity>) -> Option<AdminRole> {
    match membership {
        Some(m) => m.admin_privilege,
        None => None,
    }
}

/// Resolve the caller's administrative role from their membership row.
pub fn role_of(membership: Option<MembershipEntity>) -> (r: Result<AdminRole, ServiceError>)
    ensures
        role_of_spec(membership) matches Some(role) ==> r == Ok::<AdminRole, ServiceError>(role),
        role_of_spec(membership) is None ==> r matches Err(ServiceError::PermissionsDenied),
{
    match membership {
        Some(m) => match m.admin_privilege {
            Some(role) => Ok(role),
            None => Err(ServiceError::PermissionsDenied),
        },
        None => Err(ServiceError::PermissionsDenied),
    }
}

/// Authorize an operation: the caller's role must be one it allows.
pub fn authorize<Op: AdminOperation>(membership: Option<MembershipEntity>) -> (r: Result<AdminRole, ServiceError>)
    ensures
        r is Ok <==> (role_of_spec(membership) matches Some(role) && Op::allows(role)),
        r matches Ok(role) ==> role_of_spec(membership) == Some(role),
        r matches Err(e) ==> e is PermissionsDenied,
{
    let role = role_of(membership)?;
    if Op::is_allowed(role) {
        Ok(role)
    } else {
        Err(ServiceError::PermissionsDenied)
    }
}

/// Authorize a read of admin data (users): any administrative role.
pub fn authorize_read(membership: Option<MembershipEntity>) -> (r: Result<AdminRole, ServiceError>)
    ensures
        r is Ok <==> role_of_spec(membership) is Some,
        r matches Ok(role) ==> role_of_spec(membership) == Some(role),
        r matches Err(e) ==> e is PermissionsDenied,
{
    role_of(membership)
}

/// Authorize access to server settings and the audit log: site owner or maintainer.
pub fn authorize_config(membership: Option<MembershipEntity>) -> (r: Result<AdminRole, ServiceError>)
    ensures
        r is Ok <==> (role_of_spec(membership) matches Some(role) && config_role(role)),
        r matches Ok(role) ==> role_of_spec(membership) == Some(role),
        r matches Err(e) ==> e is PermissionsDenied,
{
    let role = role_of(membership)?;
    match role {
        AdminRole::SiteOwner | AdminRole::Maintainer => Ok(role),
        _ => Err(ServiceError::PermissionsDenied),
    }
}

/// List users for the admin console.
pub struct ListUsers {
    pub actor: AccountId,
    pub limit: i64,
    pub offset: i64,
}

/// Fetch a single user for the admin console.
pub struct GetUser {
    pub actor: AccountId,
    pub id: AccountId,
}

/// Ban (suspend) a user and terminate their sessions.
pub struct BanUser {
    pub actor: AccountId,
    pub target: AccountId,
    pub reason: String,
}

/// Unban (reactivate) a user.
pub struct UnbanUser {
    pub actor: AccountId,
    pub target: AccountId,
}

/// Set or clear a user's administrative role.
pub struct SetUserRole {
    pub actor: AccountId,
    pub target: AccountId,
    pub role: Option<AdminRole>,
}

/// Grant a user invitation slots (`Free` invites), optionally with an expiry.
pub struct GrantInvitations {
    pub actor: AccountId,
    pub target: AccountId,
    pub count: i32,
    pub expire_in_secs: Option<u64>,
}

/// Invalidate an invite slot, permitted only while it is `Free` or `Pending`.
pub struct InvalidateInvite {
    pub actor: AccountId,
    pub invite_id: i64,
}

/// Read a server setting (JSON) by key.
pub struct GetServerConfig {
    pub actor: AccountId,
    pub key: String,
}

/// Set a server setting (JSON) by key.
pub struct SetServerConfig {
    pub actor: AccountId,
    pub key: String,
    pub value: String,
}

/// List audit-log entries.
pub struct ListAuditLogs {
    pub actor: AccountId,
    pub limit: i64,
    pub offset: i64,
}

/// The JSON value of an optional role: its wire name, or `null`.
pub open spec fn role_json(role: Option<AdminRole>) -> Seq<char> {
    match role {
        Some(r) => spec_json_string(admin_role_name(r)),
        None => "null"@,
    }
}

/// The JSON value of an optional expiry: its seconds, or `null`.
pub open spec fn secs_json(secs: Option<u64>) -> Seq<char> {
    match secs {
        Some(s) => decimal(s as nat),
        None => "null"@,
    }
}

impl AdminOperation for BanUser {
    open spec fn allows(role: AdminRole) -> bool {
        moderation_role(role)
    }

    open spec fn name() -> Seq<char> {
        "ban_user"@
    }

    open spec fn content(&self) -> Seq<char> {
        object_text(
            seq![
                ("reason"@, spec_json_string(self.reason@)),
                ("target"@, spec_json_string(spec_uuid_text(self.target.0))),
            ],
        )
    }

    fn is_allowed(role: AdminRole) -> (r: bool) {
        match role {
            AdminRole::SiteOwner | AdminRole::Maintainer | AdminRole::Moderator => true,
            AdminRole::Assistant => false,
        }
    }

    fn operation_name() -> (r: &'static str) {
        "ban_user"
    }

    fn audit_content(&self) -> (r: String) {
        let mut entries: Vec<(String, String)> = Vec::new();
        entries.push((String::from_str("reason"), json_string(self.reason.as_str())));
        entries.push((String::from_str("target"), json_uuid(self.target.0)));
        let r = json_object(&entries);
        proof {
            reveal_strlit("reason");
            reveal_strlit("target");
            assert(crate::json::entries_view(entries@) =~= seq![
                ("reason"@, spec_json_string(self.reason@)),
                ("target"@, spec_json_string(spec_uuid_text(self.target.0))),
            ]);
        }
        r
    }
}

impl AdminOperation for UnbanUser {
    open spec fn allows(role: AdminRole) -> bool {
        moderation_role(role)
    }

    open spec fn name() -> Seq<char> {
        "unban_user"@
    }

    open spec fn content(&self) -> Seq<char> {
        object_text(seq![("target"@, spec_json_string(spec_uuid_text(self.target.0)))])
    }

    fn is_allowed(role: AdminRole) -> (r: bool) {
        match role {
            AdminRole::SiteOwner | AdminRole::Maintainer | AdminRole::Moderator => true,
            AdminRole::Assistant => false,
        }
    }

    fn operation_name() -> (r: &'static str) {
        "unban_user"
    }

    fn audit_content(&self) -> (r: String) {
        let mut entries: Vec<(String, String)> = Vec::new();
        entries.push((String::from_str("target"), json_uuid(self.target.0)));
        let r = json_object(&entries);
        proof {
            reveal_strlit("target");
            assert(crate::json::entries_view(entries@) =~= seq![
                ("target"@, spec_json_string(spec_uuid_text(self.target.0))),
            ]);
        }
        r
    }
}

fn role_value(role: Option<AdminRole>) -> (r: String)
    ensures
        r@ == role_json(role),
{
    match role {
        Some(role) => json_string(role.as_str()),
        None => {
            proof {
                reveal_strlit("null");
            }
            String::from_str("null")
        },
    }
}

fn secs_value(secs: Option<u64>) -> (r: String)
    ensures
        r@ == secs_json(secs),
{
    match secs {
        Some(s) => u64_decimal(s),
        None => {
            proof {
                reveal_strlit("null");
            }
            String::from_str("null")
        },
    }
}

impl AdminOperation for SetUserRole {
    open spec fn allows(role: AdminRole) -> bool {
        moderation_role(role)
    }

    open spec fn name() -> Seq<char> {
        "set_user_role"@
    }

    open spec fn content(&self) -> Seq<char> {
        object_text(
            seq![
                ("role"@, role_json(self.role)),
                ("target"@, spec_json_string(spec_uuid_text(self.target.0))),
            ],
        )
    }

    fn is_allowed(role: AdminRole) -> (r: bool) {
        match role {
            AdminRole::SiteOwner | AdminRole::Maintainer | AdminRole::Moderator => true,
            AdminRole::Assistant => false,
        }
    }

    fn operation_name() -> (r: &'static str) {
        "set_user_role"
    }

    fn audit_content(&self) -> (r: String) {
        let mut entries: Vec<(String, String)> = Vec::new();
        entries.push((String::from_str("role"), role_value(self.role)));
        entries.push((String::from_str("target"), json_uuid(self.target.0)));
        let r = json_object(&entries);
        proof {
            reveal_strlit("role");
            reveal_strlit("target");
            assert(crate::json::entries_view(entries@) =~= seq![
                ("role"@, role_json(self.role)),
                ("target"@, spec_json_string(spec_uuid_text(self.target.0))),
            ]);
        }
        r
    }
}

impl AdminOperation for GrantInvitations {
    open spec fn allows(role: AdminRole) -> bool {
        invitation_role(role)
    }

    open spec fn name() -> Seq<char> {
        "grant_invitations"@
    }

    open spec fn content(&self) -> Seq<char> {
        object_text(
            seq![
                ("count"@, signed_decimal(self.count as int)),
                ("expire_in_secs"@, secs_json(self.expire_in_secs)),
                ("target"@, spec_json_string(spec_uuid_text(self.target.0))),
            ],
        )
    }

    fn is_allowed(role: AdminRole) -> (r: bool) {
        match role {
            AdminRole::SiteOwner | AdminRole::Moderator => true,
            _ => false,
        }
    }

    fn operation_name() -> (r: &'static str) {
        "grant_invitations"
    }

    fn audit_content(&self) -> (r: String) {
        let mut entries: Vec<(String, String)> = Vec::new();
        entries.push((String::from_str("count"), i64_decimal(self.count as i64)));
        entries.push((String::from_str("expire_in_secs"), secs_value(self.expire_in_secs)));
        entries.push((String::from_str("target"), json_uuid(self.target.0)));
        let r = json_object(&entries);
        proof {
            reveal_strlit("count");
            reveal_strlit("expire_in_secs");
            reveal_strlit("target");
            assert(crate::json::entries_view(entries@) =~= seq![
                ("count"@, signed_decimal(self.count as int)),
                ("expire_in_secs"@, secs_json(self.expire_in_secs)),
                ("target"@, spec_json_string(spec_uuid_text(self.target.0))),
            ]);
        }
        r
    }
}

impl AdminOperation for InvalidateInvite {
    open spec fn allows(role: AdminRole) -> bool {
        invitation_role(role)
    }

    open spec fn name() -> Seq<char> {
        "invalidate_invite"@
    }

    open spec fn content(&self) -> Seq<char> {
        object_text(seq![("invite_id"@, signed_decimal(self.invite_id as int))])
    }

    fn is_allowed(role: AdminRole) -> (r: bool) {
        match role {
            AdminRole::SiteOwner | AdminRole::Moderator => true,
            _ => false,
        }
    }

    fn operation_name() -> (r: &'static str) {
        "invalidate_invite"
    }

    fn audit_content(&self) -> (r: String) {
        let mut entries: Vec<(String, String)> = Vec::new();
        entries.push((String::from_str("invite_id"), i64_decimal(self.invite_id)));
        let r = json_object(&entries);
        proof {
            reveal_strlit("invite_id");
            assert(crate::json::entries_view(entries@) =~= seq![
                ("invite_id"@, signed_decimal(self.invite_id as int)),
            ]);
        }
        r
    }
}

impl AdminOperation for SetServerConfig {
    open spec fn allows(role: AdminRole) -> bool {
        config_role(role)
    }

    open spec fn name() -> Seq<char> {
        "set_server_config"@
    }

    open spec fn content(&self) -> Seq<char> {
        object_text(seq![("key"@, spec_json_string(self.key@))])
    }

    fn is_allowed(role: AdminRole) -> (r: bool) {
        match role {
            AdminRole::SiteOwner | AdminRole::Maintainer => true,
            _ => false,
        }
    }

    fn operation_name() -> (r: &'static str) {
        "set_server_config"
    }

    fn audit_content(&self) -> (r: String) {
        let mut entries: Vec<(String, String)> = Vec::new();
        entries.push((String::from_str("key"), json_string(self.key.as_str())));
        let r = json_object(&entries);
        proof {
            reveal_strlit("key");
            assert(crate::json::entries_view(entries@) =~= seq![("key"@, spec_json_string(self.key@))]);
        }
        r
    }
}

/// Check the value of a setting to store: it must be JSON, or the request
/// is invalid input.
pub fn check_config_value(input: &SetServerConfig) -> (r: Result<(), ServiceError>)
    ensures
        r is Ok <==> crate::json::spec_json_valid(input.value@),
        r matches Err(e) ==> e is InvalidInput,
{
    if crate::json::json_parses(input.value.as_str()) {
        Ok(())
    } else {
        Err(ServiceError::InvalidInput)
    }
}

/// The reply to a settings read: the stored JSON text, or `null` when the
/// key has no value.
pub fn config_value_text(found: Option<String>) -> (r: String)
    ensures
        found matches Some(v) ==> r@ == v@,
        found is None ==> r@ == "null"@,
{
    match found {
        Some(v) => v,
        None => String::from_str("null"),
    }
}

/// An audit-log entry to record.
pub struct AuditRecord {
    pub admin: AccountId,
    pub operation_name: String,
    /// JSON text.
    pub operation_content: String,
}

/// The audit entry an operation leaves: the acting admin, the operation's
/// name and its content.
pub fn audit_record<Op: AdminOperation>(op: &Op, admin: AccountId) -> (r: AuditRecord)
    ensures
        r.admin == admin,
        r.operation_name@ == Op::name(),
        r.operation_content@ == op.content(),
{
    AuditRecord {
        admin,
        operation_name: String::from_str(Op::operation_name()),
        operation_content: op.audit_content(),
    }
}

/// Whether a role change is permitted to an actor: only the site owner may
/// grant an elevated role; clearing a role or granting assistant is up to
/// any role the operation allows.
pub open spec fn role_change_permitted(actor: AdminRole, target: Option<AdminRole>) -> bool {
    match target {
        Some(t) => !elevated(t) || actor == AdminRole::SiteOwner,
        None => true,
    }
}

/// Authorize a role change: the actor's role must allow the operation, and
/// an elevated role can only be granted by the site owner.
pub fn authorize_set_user_role(membership: Option<MembershipEntity>, input: &SetUserRole) -> (r: Result<
    AdminRole,
    ServiceError,
>)
    ensures
        r is Ok <==> (role_of_spec(membership) matches Some(role) && moderation_role(role)
            && role_change_permitted(role, input.role)),
        r matches Ok(role) ==> role_of_spec(membership) == Some(role),
        r matches Err(e) ==> e is PermissionsDenied,
{
    let role = authorize::<SetUserRole>(membership)?;
    match input.role {
        Some(target) => {
            let is_elevated = match target {
                AdminRole::Assistant => false,
                _ => true,
            };
            let is_owner = match role {
                AdminRole::SiteOwner => true,
                _ => false,
            };
            if is_elevated && !is_owner {
                Err(ServiceError::PermissionsDenied)
            } else {
                Ok(role)
            }
        },
        None => Ok(role),
    }
}

/// Only the site owner can be authorized to grant the site owner, maintainer
/// or moderator role.
pub proof fn lemma_only_owner_grants_elevated(
    membership: Option<MembershipEntity>,
    actor_role: AdminRole,
    target_role: AdminRole,
)
    requires
        role_of_spec(membership) == Some(actor_role),
        moderation_role(actor_role),
        role_change_permitted(actor_role, Some(target_role)),
        elevated(target_role),
    ensures
        actor_role == AdminRole::SiteOwner,
{
}

/// A suspension-history row to insert.
pub struct InsertSuspense {
    pub account_id: AccountId,
    pub status: SuspenseStatus,
    pub reason: String,
    pub operated_by: Option<AccountId>,
}

/// The suspension row a ban writes: suspended, with the reason, by the actor.
pub fn ban_record(input: &BanUser) -> (r: InsertSuspense)
    ensures
        r.account_id == input.target,
        r.status == SuspenseStatus::Suspended,
        r.reason@ == input.reason@,
        r.operated_by == Some(input.actor),
{
    InsertSuspense {
        account_id: input.target,
        status: SuspenseStatus::Suspended,
        reason: input.reason.clone(),
        operated_by: Some(input.actor),
    }
}

/// The suspension row an unban writes: active, with no reason, by the actor.
pub fn unban_record(input: &UnbanUser) -> (r: InsertSuspense)
    ensures
        r.account_id == input.target,
        r.status == SuspenseStatus::Active,
        r.reason@.len() == 0,
        r.operated_by == Some(input.actor),
{
    InsertSuspense {
        account_id: input.target,
        status: SuspenseStatus::Active,
        reason: String::new(),
        operated_by: Some(input.actor),
    }
}

/// A new invite row.
pub struct NewInvite {
    pub owner: AccountId,
    pub invite_token: String,
    pub status: InviteStatus,
    pub source: String,
    pub will_expire_at: Option<Timestamp>,
}

/// A grant of free invitation slots, once validated.
#[derive(Debug, Clone, Copy, PartialEq, Eq, Structural)]
pub struct SlotGrant {
    pub owner: AccountId,
    /// How many slots to mint (positive).
    pub count: i32,
    pub will_expire_at: Option<Timestamp>,
}

/// Whether a grant's expiry can be computed from `now`.
pub open spec fn grant_expiry_ok(now: Timestamp, expire_in_secs: Option<u64>) -> bool {
    timestamp_in_range(now.0 as int) && (expire_in_secs matches Some(s) ==> add_secs_in_range(now, s))
}

/// Validate a grant of `count` slots for `owner` at `now`: a count that is
/// not positive is invalid; the expiry is `now` plus the given seconds.
pub fn plan_slot_grant(owner: AccountId, count: i32, expire_in_secs: Option<u64>, now: Timestamp) -> (r:
    Result<SlotGrant, ServiceError>)
    requires
        count > 0 ==> grant_expiry_ok(now, expire_in_secs),
    ensures
        count <= 0 ==> r matches Err(ServiceError::InvalidInput),
        count > 0 ==> (r matches Ok(g) && g.owner == owner && g.count == count && g.will_expire_at == (
        match expire_in_secs {
            Some(s) => Some(after_secs(now, s)),
            None => None,
        })),
{
    if count <= 0 {
        return Err(ServiceError::InvalidInput);
    }
    let will_expire_at = match expire_in_secs {
        Some(s) => Some(add_secs(now, s)),
        None => None,
    };
    Ok(SlotGrant { owner, count, will_expire_at })
}

/// Source recorded on slots granted by an administrator.
pub const ADMIN_GRANT_SOURCE: &'static str = "admin_grant";

/// One free slot of a grant: a fresh token, status `Free`, the grant's
/// expiry, and the given source.
pub fn free_slot(grant: &SlotGrant, source: &str) -> (r: NewInvite)
    ensures
        r.owner == grant.owner,
        r.status == InviteStatus::Free,
        r.source@ == source@,
        r.will_expire_at == grant.will_expire_at,
        exists|bytes: Seq<u8>| bytes.len() == 32 && r.invite_token@ == spec_base32(bytes),
{
    NewInvite {
        owner: grant.owner,
        invite_token: generate_invite_token(),
        status: InviteStatus::Free,
        source: String::from_str(source),
        will_expire_at: grant.will_expire_at,
    }
}

/// What invalidating an invite does once the previous status is known.
#[derive(Debug, Clone, Copy, PartialEq, Eq, Structural)]
pub enum InvalidateStep {
    /// No invite was invalidated (missing, or neither `Free` nor `Pending`):
    /// answer `false`, record nothing.
    Nothing,
    /// Invalidated: expire its pending invitations when it was `Pending`,
    /// record the audit entry, answer `true`.
    Invalidated { expire_pending: bool },
}

/// Decide what follows an invalidation from the status it replaced.
pub fn invalidate_step(previous: Option<InviteStatus>) -> (r: InvalidateStep)
    ensures
        previous is None ==> r == InvalidateStep::Nothing,
        previous matches Some(s) ==> r == (InvalidateStep::Invalidated { expire_pending: s == InviteStatus::Pending }),
{
    match previous {
        None => InvalidateStep::Nothing,
        Some(InviteStatus::Pending) => InvalidateStep::Invalidated { expire_pending: true },
        Some(_) => InvalidateStep::Invalidated { expire_pending: false },
    }
}


/// The role tables of the mutations: banning, unbanning and setting roles
/// are open to every role but `Assistant` (site owner, maintainer,
/// moderator); granting and invalidating invitations to the site owner and
/// moderators; changing server settings to the site owner and maintainers.
pub proof fn lemma_mutation_role_tables(role: AdminRole)
    ensures
        BanUser::allows(role) <==> role != AdminRole::Assistant,
        UnbanUser::allows(role) <==> role != AdminRole::Assistant,
        SetUserRole::allows(role) <==> role != AdminRole::Assistant,
        GrantInvitations::allows(role) <==> (role == AdminRole::SiteOwner || role == AdminRole::Moderator),
        InvalidateInvite::allows(role) <==> (role == AdminRole::SiteOwner || role == AdminRole::Moderator),
        SetServerConfig::allows(role) <==> (role == AdminRole::SiteOwner || role == AdminRole::Maintainer),
        BanUser::allows(AdminRole::Maintainer),
        !BanUser::allows(AdminRole::Assistant),
{
}

} // verus!
