//! Requests to the relational store, as plain values: the flows name the
//! reads and writes they need with these, and the caller runs them.

use crate::datetime::Timestamp;
use crate::model::{AccountId, InviteId, InviteStatus, PendingInvitationStatus, SessionId};
use vstd::prelude::*;

verus! {

/// List users for the admin console, newest first.
#[derive(Debug, Clone, Copy, PartialEq, Eq, Structural)]
pub struct ListAdminUsers {
    pub limit: i64,
    pub offset: i64,
}

/// Fetch a single admin-facing user view.
#[derive(Debug, Clone, Copy, PartialEq, Eq, Structural)]
pub struct GetAdminUser {
    pub id: AccountId,
}

/// Look up an invite by its token.
pub struct FindInviteByToken {
    pub invite_token: String,
}

/// Update an invite's status (and its status-change time).
#[derive(Debug, Clone, Copy, PartialEq, Eq, Structural)]
pub struct SetInviteStatus {
    pub id: InviteId,
    pub status: InviteStatus,
}

/// Look up a pending invitation by id.
#[derive(Debug, Clone, Copy, PartialEq, Eq, Structural)]
pub struct FindPendingInvitation {
    pub id: i64,
}

/// Update a pending invitation's status.
#[derive(Debug, Clone, Copy, PartialEq, Eq, Structural)]
pub struct SetPendingInvitationStatus {
    pub id: i64,
    pub status: PendingInvitationStatus,
}

/// Mark all pending invitations of an invite as accepted (on registration,
/// so they are not later released and refunded).
#[derive(Debug, Clone, Copy, PartialEq, Eq, Structural)]
pub struct AcceptPendingInvitationsByInvite {
    pub invite: InviteId,
}

/// Look up an invite by id.
#[derive(Debug, Clone, Copy, PartialEq, Eq, Structural)]
pub struct FindInviteById {
    pub id: InviteId,
}

/// Look up a session by id.
pub struct FindSessionById {
    pub session_id: SessionId,
}

/// Update the sliding-refresh time of a session.
pub struct TouchSession {
    pub session_id: SessionId,
    pub last_refreshed_at: Timestamp,
}

/// Delete a single session.
pub struct DeleteSession {
    pub session_id: SessionId,
}

/// Delete sessions past their absolute expiry or sliding lifespan.
#[derive(Debug, Clone, Copy, PartialEq, Eq, Structural)]
pub struct DeleteExpiredSessions {
    pub now: Timestamp,
}

/// Expire pending invites whose absolute expiry has passed.
#[derive(Debug, Clone, Copy, PartialEq, Eq, Structural)]
pub struct ExpireInvitesBefore {
    pub now: Timestamp,
}

/// Release pending invitations whose hold has elapsed: mark them expired,
/// expire the underlying invite, and refund the owner's invitation count.
#[derive(Debug, Clone, Copy, PartialEq, Eq, Structural)]
pub struct ReleaseExpiredPending {
    pub now: Timestamp,
}

/// The cleanup requests of an invitation-expiry tick at `now`, in order.
pub fn invitation_cleanup(now: Timestamp) -> (r: (ExpireInvitesBefore, ReleaseExpiredPending))
    ensures
        r.0.now == now,
        r.1.now == now,
{
    (ExpireInvitesBefore { now }, ReleaseExpiredPending { now })
}

/// The cleanup request of a session-cleanup tick at `now`.
pub fn session_cleanup(now: Timestamp) -> (r: DeleteExpiredSessions)
    ensures
        r.now == now,
{
    DeleteExpiredSessions { now }
}

} // verus!
