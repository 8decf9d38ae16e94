//! Reactions to consumed events: moderation bans, credit changes, granted
//! invitation slots, and the periodic expiry cleanup.

use crate::account::invite_usable;
use crate::admin::{grant_expiry_ok, plan_slot_grant, InsertSuspense, SlotGrant};
use crate::datetime::Timestamp;
use crate::decimal::{parse_decimal, spec_decimal_parse, Amount};
use crate::identity::ServiceError;
use crate::invitation::after_secs;
use crate::messages::{AddInvitationSlotEvent, CreditChangeEvent, SystemBanEvent};
use crate::model::{AccountId, InviteEntity, InviteStatus, SuspenseStatus};
use vstd::prelude::*;

verus! {

/// What a ban or unban event does: record the suspension state, and on a ban
/// terminate every session of the user.
pub struct BanPlan {
    pub suspense: InsertSuspense,
    pub terminate_sessions: bool,
}

/// The plan for a moderation event.
pub fn ban_plan(event: SystemBanEvent) -> (r: BanPlan)
    ensures
        r.suspense.account_id == AccountId(event.user_id),
        r.suspense.status == (if event.banned { SuspenseStatus::Suspended } else { SuspenseStatus::Active }),
        r.suspense.reason == event.reason,
        r.suspense.operated_by == (match event.operated_by {
            Some(o) => Some(AccountId(o)),
            None => None,
        }),
        r.terminate_sessions == event.banned,
{
    let status = if event.banned {
        SuspenseStatus::Suspended
    } else {
        SuspenseStatus::Active
    };
    let operated_by = match event.operated_by {
        Some(o) => Some(AccountId(o)),
        None => None,
    };
    BanPlan {
        suspense: InsertSuspense { account_id: AccountId(event.user_id), status, reason: event.reason, operated_by },
        terminate_sessions: event.banned,
    }
}

/// Apply a credit delta and append a history record: `frozen_amount` moves
/// by `frozen_delta`, `total_amount` by `available_delta + frozen_delta`, so
/// the available balance moves by `available_delta`.
pub struct ApplyCreditChange {
    pub account: AccountId,
    pub available_delta: Amount,
    pub frozen_delta: Amount,
    pub reason: String,
}

/// The ledger change of a credit event: both deltas must parse as decimals,
/// otherwise the event is invalid input.
pub fn credit_change(event: CreditChangeEvent) -> (r: Result<ApplyCreditChange, ServiceError>)
    ensures
        r is Ok <==> (spec_decimal_parse(event.available_delta@) is Some && spec_decimal_parse(
            event.frozen_delta@,
        ) is Some),
        r matches Err(e) ==> e is InvalidInput,
        r matches Ok(c) ==> {
            &&& c.account == AccountId(event.user_id)
            &&& Some(c.available_delta) == spec_decimal_parse(event.available_delta@)
            &&& Some(c.frozen_delta) == spec_decimal_parse(event.frozen_delta@)
            &&& c.reason == event.reason
        },
{
    let available_delta = match parse_decimal(event.available_delta.as_str()) {
        Some(d) => d,
        None => {
            return Err(ServiceError::InvalidInput);
        },
    };
    let frozen_delta = match parse_decimal(event.frozen_delta.as_str()) {
        Some(d) => d,
        None => {
            return Err(ServiceError::InvalidInput);
        },
    };
    Ok(ApplyCreditChange { account: AccountId(event.user_id), available_delta, frozen_delta, reason: event.reason })
}

/// The grant of an invitation-slot event at `now`: a count that is not
/// positive is invalid input; the slots carry the event's source.
pub fn slot_grant(event: &AddInvitationSlotEvent, now: Timestamp) -> (r: Result<SlotGrant, ServiceError>)
    requires
        event.count > 0 ==> grant_expiry_ok(now, event.expire_in_secs),
    ensures
        event.count <= 0 ==> r matches Err(ServiceError::InvalidInput),
        event.count > 0 ==> (r matches Ok(g) && g.owner == AccountId(event.user_id) && g.count
            == event.count && g.will_expire_at == (match event.expire_in_secs {
            Some(s) => Some(after_secs(now, s)),
            None => None,
        })),
{
    plan_slot_grant(AccountId(event.user_id), event.count, event.expire_in_secs, now)
}

/// Whether the expiry cleanup expires an invite at `now`: a `Pending`
/// invite whose expiry has passed.
pub open spec fn cleanup_expires_invite(invite: InviteEntity, now: Timestamp) -> bool {
    invite.status == InviteStatus::Pending && (invite.will_expire_at matches Some(e) && e.0 < now.0)
}

/// Whether the cleanup expires an invite at `now`.
pub fn invite_expires(invite: &InviteEntity, now: Timestamp) -> (r: bool)
    ensures
        r == cleanup_expires_invite(*invite, now),
{
    let pending = match invite.status {
        InviteStatus::Pending => true,
        _ => false,
    };
    let passed = match invite.will_expire_at {
        Some(e) => e.0 < now.0,
        None => false,
    };
    pending && passed
}

/// An invite the cleanup expires cannot be redeemed by a registration at the
/// same time, and a redeemable one is kept by the cleanup.
pub proof fn lemma_expired_invites_not_redeemable(invite: InviteEntity, now: Timestamp)
    ensures
        cleanup_expires_invite(invite, now) ==> !invite_usable(invite, now),
        invite_usable(invite, now) ==> !cleanup_expires_invite(invite, now),
{
}


/// The expiry cleanup touches only `Pending` invites whose expiry has passed:
/// an invite it expires is `Pending`, has an expiry, and that expiry is
/// before `now`; every such invite is expired; an invite in any other status,
/// or without an expiry, is left alone.
pub proof fn lemma_cleanup_touches_only_lapsed_pending(invite: InviteEntity, now: Timestamp)
    ensures
        cleanup_expires_invite(invite, now) ==> invite.status == InviteStatus::Pending,
        cleanup_expires_invite(invite, now) ==> (invite.will_expire_at matches Some(e) && e.0 < now.0),
        invite.status == InviteStatus::Pending && (invite.will_expire_at matches Some(e) && e.0 < now.0)
            ==> cleanup_expires_invite(invite, now),
        invite.status != InviteStatus::Pending ==> !cleanup_expires_invite(invite, now),
        invite.will_expire_at is None ==> !cleanup_expires_invite(invite, now),
{
}

} // verus!
