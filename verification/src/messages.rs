//! Payloads of the events this module publishes and consumes.

use vstd::prelude::*;

verus! {

/// Published after a successful login.
pub struct UserLoginEvent {
    pub user_id: u128,
    pub ip: String,
    pub user_agent: String,
    /// Unix seconds.
    pub at: u64,
}

/// Published after a registration.
pub struct UserRegisteredEvent {
    pub user_id: u128,
    pub email: String,
    pub invited_by: Option<i64>,
    /// Unix seconds.
    pub registered_at: u64,
}

/// Published when an invitation is redeemed by a registration.
pub struct InvitationAcceptedEvent {
    pub inviter_id: u128,
    pub new_member_id: u128,
    pub new_member_username: String,
    /// Unix seconds.
    pub accepted_at: u64,
}

/// Published when an invitation email is to be sent.
pub struct InvitationSentEvent {
    /// Id of the pending invitation.
    pub invite_id: i64,
    pub email: String,
    pub invite_token: String,
    /// Unix seconds.
    pub sent_at: u64,
}

/// Consumed: an external moderation ban or unban.
pub struct SystemBanEvent {
    pub user_id: u128,
    pub banned: bool,
    pub reason: String,
    pub operated_by: Option<u128>,
}

/// Consumed: an external credit change; the deltas are decimal text.
pub struct CreditChangeEvent {
    pub user_id: u128,
    pub available_delta: String,
    pub frozen_delta: String,
    pub reason: String,
}

/// Consumed: an external grant of invitation slots.
pub struct AddInvitationSlotEvent {
    pub user_id: u128,
    pub count: i32,
    pub expire_in_secs: Option<u64>,
    pub source: String,
}

} // verus!
