//! Sending and resending invitations, as state machines: the caller performs
//! each action and feeds back what it got.

use crate::config::AuthConfig;
use crate::crypto::{base32_encode, email_valid, random_bytes, spec_base32, spec_email_valid};
use crate::datetime::{add_secs, add_secs_in_range, timestamp_in_range, to_unix, unix_secs_of, wrap_to_i64, Timestamp, MICROS_PER_SEC};
use crate::identity::ServiceError;
use crate::messages::InvitationSentEvent;
use crate::store::{FindInviteById, FindPendingInvitation};
use crate::model::{AccountEntity, AccountId, InviteEntity, InviteId, InviteStatus, PendingInvitationEntity};
use vstd::prelude::*;
use vstd::string::StringExecFns;

verus! {

/// A fresh opaque invite token: the base32 of 32 random bytes.
pub fn generate_invite_token() -> (r: String)
    ensures
        exists|bytes: Seq<u8>| bytes.len() == 32 && r@ == spec_base32(bytes),
        r@.len() == 52,
{
    let bytes: [u8; 32] = random_bytes();
    let r = base32_encode(&bytes);
    assert((8 * 32nat + 4) / 5 == 52nat);
    assert(bytes@.len() == 32 && r@ == spec_base32(bytes@));
    r
}

/// The instant `secs` seconds after `t` (with `secs` read as `secs as i64`).
pub open spec fn after_secs(t: Timestamp, secs: u64) -> Timestamp {
    Timestamp((t.0 + wrap_to_i64(secs) * MICROS_PER_SEC) as i64)
}

/// Outcome of [`SendInvitation`].
#[derive(Debug, Clone, Copy, PartialEq, Eq, Structural)]
pub enum SendInvitationResult {
    Sent,
    NoInvitationLeft,
    EmailInvalid,
    /// The email already belongs to a registered account.
    AlreadyRegistered,
}

/// Send an invitation email, consuming one of the actor's invitation slots.
pub struct SendInvitation {
    pub actor: AccountId,
    pub email: String,
}

/// Claim one usable `Free` slot of `owner`, turn it `Pending` with a new
/// token and expiry, and pin it to `email` (one atomic write).
pub struct ClaimFreeInviteAndPin {
    pub owner: AccountId,
    pub new_token: String,
    pub email: String,
    pub expiry: Timestamp,
    pub now: Timestamp,
}

/// The slot a claim took.
pub struct ClaimedInvite {
    pub invite: InviteId,
    pub pending_id: i64,
}

/// Where a send stands.
pub enum SendStage {
    /// Waiting for the account registered with the email, if any.
    RegisteredCheck,
    /// Waiting for the settings and the current time.
    Settings,
    /// Waiting for the claim of a slot.
    Claim { token: String, now: Timestamp },
    /// Waiting for the invitation event to be published.
    Announce,
    /// Answered.
    Done,
}

/// What the caller reports back.
pub enum SendEvent {
    AccountFound(Option<AccountEntity>),
    SettingsLoaded { cfg: AuthConfig, now: Timestamp },
    Claimed(Option<ClaimedInvite>),
    EventSent,
}

/// What the caller is to do next.
pub enum SendAction {
    FindAccountByEmail(String),
    LoadSettings,
    ClaimFreeInviteAndPin(ClaimFreeInviteAndPin),
    SendInvitationEvent(InvitationSentEvent),
    Reply(Result<SendInvitationResult, ServiceError>),
}

/// A send in progress.
pub struct SendFlow {
    pub input: SendInvitation,
    pub stage: SendStage,
}

/// Whether an action ends the flow with a panic for an unexpected event.
pub open spec fn send_unexpected(next: SendStage, action: SendAction) -> bool {
    next is Done && action matches SendAction::Reply(Err(ServiceError::BusinessPanic(_)))
}

/// Whether the settings event can be taken: the current time and the expiry
/// it implies are representable.
pub open spec fn send_event_ok(event: SendEvent) -> bool {
    event matches SendEvent::SettingsLoaded { cfg, now } ==> (timestamp_in_range(now.0 as int)
        && add_secs_in_range(now, cfg.invitation_expiry_secs))
}

/// One transition of a send. A slot is claimed only for a valid email that
/// no account holds; an email is announced only for a claimed slot.
pub open spec fn send_next(
    input: SendInvitation,
    stage: SendStage,
    event: SendEvent,
    next: SendStage,
    action: SendAction,
) -> bool {
    match stage {
        SendStage::RegisteredCheck => match event {
            SendEvent::AccountFound(Some(_)) => next is Done && action == SendAction::Reply(
                Ok(SendInvitationResult::AlreadyRegistered),
            ),
            SendEvent::AccountFound(None) => next is Settings && action is LoadSettings,
            _ => send_unexpected(next, action),
        },
        SendStage::Settings => match event {
            SendEvent::SettingsLoaded { cfg, now } => action matches SendAction::ClaimFreeInviteAndPin(c) && {
                &&& next matches SendStage::Claim { token, now: n } && token@ == c.new_token@ && n == now
                &&& c.owner == input.actor
                &&& c.email@ == input.email@
                &&& c.now == now
                &&& c.expiry == after_secs(now, cfg.invitation_expiry_secs)
                &&& exists|bytes: Seq<u8>| bytes.len() == 32 && c.new_token@ == spec_base32(bytes)
            },
            _ => send_unexpected(next, action),
        },
        SendStage::Claim { token, now } => match event {
            SendEvent::Claimed(None) => next is Done && action == SendAction::Reply(
                Ok(SendInvitationResult::NoInvitationLeft),
            ),
            SendEvent::Claimed(Some(c)) => next is Announce && (action matches SendAction::SendInvitationEvent(e) && {
                &&& e.invite_id == c.pending_id
                &&& e.email@ == input.email@
                &&& e.invite_token@ == token@
                &&& e.sent_at == unix_secs_of(now.0 as int)
            }),
            _ => send_unexpected(next, action),
        },
        SendStage::Announce => match event {
            SendEvent::EventSent => next is Done && action == SendAction::Reply(Ok(SendInvitationResult::Sent)),
            _ => send_unexpected(next, action),
        },
        SendStage::Done => send_unexpected(next, action),
    }
}

fn send_panic() -> (r: (SendStage, SendAction))
    ensures
        send_unexpected(r.0, r.1),
{
    (
        SendStage::Done,
        SendAction::Reply(Err(ServiceError::BusinessPanic(String::from_str("unexpected invitation event")))),
    )
}

impl SendFlow {
    /// Begin a send: an invalid email answers at once; otherwise look for an
    /// account registered with it.
    pub fn start(input: SendInvitation) -> (r: (SendFlow, SendAction))
        ensures
            r.0.input == input,
            !spec_email_valid(input.email@) ==> (r.0.stage is Done && r.1 == SendAction::Reply(
                Ok(SendInvitationResult::EmailInvalid),
            )),
            spec_email_valid(input.email@) ==> (r.0.stage is RegisteredCheck && (r.1 matches SendAction::FindAccountByEmail(e)
                && e@ == input.email@)),
    {
        if !email_valid(input.email.as_str()) {
            return (
                SendFlow { input, stage: SendStage::Done },
                SendAction::Reply(Ok(SendInvitationResult::EmailInvalid)),
            );
        }
        let email = input.email.clone();
        (SendFlow { input, stage: SendStage::RegisteredCheck }, SendAction::FindAccountByEmail(email))
    }

    /// Advance the send with what the last action produced.
    pub fn step(self, event: SendEvent) -> (r: (SendFlow, SendAction))
        requires
            send_event_ok(event),
        ensures
            r.0.input == self.input,
            send_next(self.input, self.stage, event, r.0.stage, r.1),
    {
        let input = self.input;
        let (stage, action) = match self.stage {
            SendStage::RegisteredCheck => match event {
                SendEvent::AccountFound(Some(_)) => (
                    SendStage::Done,
                    SendAction::Reply(Ok(SendInvitationResult::AlreadyRegistered)),
                ),
                SendEvent::AccountFound(None) => (SendStage::Settings, SendAction::LoadSettings),
                _ => send_panic(),
            },
            SendStage::Settings => match event {
                SendEvent::SettingsLoaded { cfg, now } => {
                    let token = generate_invite_token();
                    let expiry = add_secs(now, cfg.invitation_expiry_secs);
                    let claim = ClaimFreeInviteAndPin {
                        owner: input.actor,
                        new_token: token.clone(),
                        email: input.email.clone(),
                        expiry,
                        now,
                    };
                    (SendStage::Claim { token, now }, SendAction::ClaimFreeInviteAndPin(claim))
                },
                _ => send_panic(),
            },
            SendStage::Claim { token, now } => match event {
                SendEvent::Claimed(None) => (
                    SendStage::Done,
                    SendAction::Reply(Ok(SendInvitationResult::NoInvitationLeft)),
                ),
                SendEvent::Claimed(Some(c)) => {
                    let e = InvitationSentEvent {
                        invite_id: c.pending_id,
                        email: input.email.clone(),
                        invite_token: token,
                        sent_at: to_unix(now),
                    };
                    (SendStage::Announce, SendAction::SendInvitationEvent(e))
                },
                _ => send_panic(),
            },
            SendStage::Announce => match event {
                SendEvent::EventSent => (SendStage::Done, SendAction::Reply(Ok(SendInvitationResult::Sent))),
                _ => send_panic(),
            },
            SendStage::Done => send_panic(),
        };
        (SendFlow { input, stage }, action)
    }
}

/// Whether a run of a send follows its transitions.
pub open spec fn send_trace(
    input: SendInvitation,
    stages: Seq<SendStage>,
    events: Seq<SendEvent>,
    actions: Seq<SendAction>,
) -> bool {
    &&& stages.len() == events.len() + 1
    &&& actions.len() == events.len()
    &&& forall|k: int|
        0 <= k < events.len() ==> #[trigger] send_next(input, stages[k], events[k], stages[k + 1], actions[k])
}

/// Whether an event reported that no account holds the email.
pub open spec fn unregistered(e: SendEvent) -> bool {
    e matches SendEvent::AccountFound(None)
}

/// Whether an event reported a claimed slot.
pub open spec fn claimed(e: SendEvent) -> bool {
    e matches SendEvent::Claimed(Some(_))
}

proof fn lemma_send_history(
    input: SendInvitation,
    stages: Seq<SendStage>,
    events: Seq<SendEvent>,
    actions: Seq<SendAction>,
    j: int,
)
    requires
        send_trace(input, stages, events, actions),
        stages[0] is RegisteredCheck,
        0 <= j < stages.len(),
    ensures
        (stages[j] is Settings || stages[j] is Claim || stages[j] is Announce) ==> exists|k: int|
            0 <= k < j && #[trigger] unregistered(events[k]),
        stages[j] is Announce ==> exists|k: int| 0 <= k < j && #[trigger] claimed(events[k]),
    decreases j,
{
    if j > 0 {
        let k = j - 1;
        lemma_send_history(input, stages, events, actions, k);
        assert(send_next(input, stages[k], events[k], stages[k + 1], actions[k]));
        if stages[j] is Settings {
            assert(unregistered(events[k]));
        }
        if stages[j] is Announce {
            assert(claimed(events[k]));
        }
    }
}

/// A slot is only ever claimed for an email no account holds, and a send
/// answers `Sent` only after a slot was claimed.
pub proof fn lemma_send_claims_only_for_unregistered(
    input: SendInvitation,
    stages: Seq<SendStage>,
    events: Seq<SendEvent>,
    actions: Seq<SendAction>,
)
    requires
        send_trace(input, stages, events, actions),
        stages[0] is RegisteredCheck,
    ensures
        forall|k: int|
            0 <= k < events.len() && (#[trigger] actions[k] is ClaimFreeInviteAndPin) ==> exists|i: int|
                0 <= i < k && #[trigger] unregistered(events[i]),
        events.len() > 0 && actions.last() == SendAction::Reply(Ok(SendInvitationResult::Sent)) ==> exists|i: int|
            0 <= i < events.len() && #[trigger] claimed(events[i]),
{
    assert forall|k: int|
        0 <= k < events.len() && (#[trigger] actions[k] is ClaimFreeInviteAndPin) implies exists|i: int|
            0 <= i < k && #[trigger] unregistered(events[i]) by {
        assert(send_next(input, stages[k], events[k], stages[k + 1], actions[k]));
        lemma_send_history(input, stages, events, actions, k);
    }
    if events.len() > 0 {
        let k = events.len() - 1;
        assert(send_next(input, stages[k], events[k], stages[k + 1], actions[k]));
        lemma_send_history(input, stages, events, actions, k);
    }
}

/// Outcome of [`ResendInvitationEmail`].
#[derive(Debug, Clone, Copy, PartialEq, Eq, Structural)]
pub enum ResendResult {
    Sent,
    NotFound,
}

/// Resend the email of one of the actor's pending invitations.
pub struct ResendInvitationEmail {
    pub actor: AccountId,
    pub pending_invitation_id: i64,
}

/// Regenerate an invite's token (killing the previous link) and move both the
/// invite's expiry and its pending invitation's release to `expiry`.
pub struct RefreshPendingInvite {
    pub invite: InviteId,
    pub pending_id: i64,
    pub new_token: String,
    pub expiry: Timestamp,
}

/// Where a resend stands.
pub enum ResendStage {
    /// Waiting for the pending invitation.
    PendingLookup,
    /// Waiting for its invite.
    InviteLookup { pending_id: i64, email: String },
    /// Waiting for the settings and the current time.
    Settings { invite: InviteId, pending_id: i64, email: String },
    /// Waiting for the refresh to be written.
    Refresh { pending_id: i64, email: String, token: String, now: Timestamp },
    /// Waiting for the invitation event to be published.
    Announce,
    /// Answered.
    Done,
}

/// What the caller reports back.
pub enum ResendEvent {
    PendingFound(Option<PendingInvitationEntity>),
    InviteFound(Option<InviteEntity>),
    SettingsLoaded { cfg: AuthConfig, now: Timestamp },
    Refreshed,
    EventSent,
}

/// What the caller is to do next.
pub enum ResendAction {
    FindPendingInvitation(FindPendingInvitation),
    FindInviteById(FindInviteById),
    LoadSettings,
    Refresh(RefreshPendingInvite),
    SendInvitationEvent(InvitationSentEvent),
    Reply(Result<ResendResult, ServiceError>),
}

/// A resend in progress.
pub struct ResendFlow {
    pub input: ResendInvitationEmail,
    pub stage: ResendStage,
}

/// Whether an action ends the flow with a panic for an unexpected event.
pub open spec fn resend_unexpected(next: ResendStage, action: ResendAction) -> bool {
    next is Done && action matches ResendAction::Reply(Err(ServiceError::BusinessPanic(_)))
}

/// Whether the settings event can be taken.
pub open spec fn resend_event_ok(event: ResendEvent) -> bool {
    event matches ResendEvent::SettingsLoaded { cfg, now } ==> (timestamp_in_range(now.0 as int)
        && add_secs_in_range(now, cfg.invitation_expiry_secs))
}

/// One transition of a resend. Only the owner may resend, and only while the
/// invite is still `Pending`; anything else is reported not found.
pub open spec fn resend_next(
    input: ResendInvitationEmail,
    stage: ResendStage,
    event: ResendEvent,
    next: ResendStage,
    action: ResendAction,
) -> bool {
    match stage {
        ResendStage::PendingLookup => match event {
            ResendEvent::PendingFound(None) => next is Done && action == ResendAction::Reply(Ok(ResendResult::NotFound)),
            ResendEvent::PendingFound(Some(p)) => (next matches ResendStage::InviteLookup { pending_id, email }
                && pending_id == p.id && email@ == p.email@) && action == ResendAction::FindInviteById(FindInviteById { id: p.invite }),
            _ => resend_unexpected(next, action),
        },
        ResendStage::InviteLookup { pending_id, email } => match event {
            ResendEvent::InviteFound(None) => next is Done && action == ResendAction::Reply(Ok(ResendResult::NotFound)),
            ResendEvent::InviteFound(Some(i)) => if i.owner != input.actor || i.status != InviteStatus::Pending {
                next is Done && action == ResendAction::Reply(Ok(ResendResult::NotFound))
            } else {
                (next matches ResendStage::Settings { invite, pending_id: p, email: e } && invite == i.id
                    && p == pending_id && e@ == email@) && action is LoadSettings
            },
            _ => resend_unexpected(next, action),
        },
        ResendStage::Settings { invite, pending_id, email } => match event {
            ResendEvent::SettingsLoaded { cfg, now } => action matches ResendAction::Refresh(r) && {
                &&& next matches ResendStage::Refresh { pending_id: p, email: e, token, now: n }
                    && p == pending_id && e@ == email@ && token@ == r.new_token@ && n == now
                &&& r.invite == invite
                &&& r.pending_id == pending_id
                &&& r.expiry == after_secs(now, cfg.invitation_expiry_secs)
                &&& exists|bytes: Seq<u8>| bytes.len() == 32 && r.new_token@ == spec_base32(bytes)
            },
            _ => resend_unexpected(next, action),
        },
        ResendStage::Refresh { pending_id, email, token, now } => match event {
            ResendEvent::Refreshed => next is Announce && (action matches ResendAction::SendInvitationEvent(e) && {
                &&& e.invite_id == pending_id
                &&& e.email@ == email@
                &&& e.invite_token@ == token@
                &&& e.sent_at == unix_secs_of(now.0 as int)
            }),
            _ => resend_unexpected(next, action),
        },
        ResendStage::Announce => match event {
            ResendEvent::EventSent => next is Done && action == ResendAction::Reply(Ok(ResendResult::Sent)),
            _ => resend_unexpected(next, action),
        },
        ResendStage::Done => resend_unexpected(next, action),
    }
}

fn resend_panic() -> (r: (ResendStage, ResendAction))
    ensures
        resend_unexpected(r.0, r.1),
{
    (
        ResendStage::Done,
        ResendAction::Reply(Err(ServiceError::BusinessPanic(String::from_str("unexpected resend event")))),
    )
}

impl ResendFlow {
    /// Begin a resend: look the pending invitation up.
    pub fn start(input: ResendInvitationEmail) -> (r: (ResendFlow, ResendAction))
        ensures
            r.0.input == input,
            r.0.stage is PendingLookup,
            r.1 == ResendAction::FindPendingInvitation(FindPendingInvitation { id: input.pending_invitation_id }),
    {
        let id = input.pending_invitation_id;
        (ResendFlow { input, stage: ResendStage::PendingLookup }, ResendAction::FindPendingInvitation(FindPendingInvitation { id }))
    }

    /// Advance the resend with what the last action produced.
    pub fn step(self, event: ResendEvent) -> (r: (ResendFlow, ResendAction))
        requires
            resend_event_ok(event),
        ensures
            r.0.input == self.input,
            resend_next(self.input, self.stage, event, r.0.stage, r.1),
    {
        let input = self.input;
        let (stage, action) = match self.stage {
            ResendStage::PendingLookup => match event {
                ResendEvent::PendingFound(None) => (
                    ResendStage::Done,
                    ResendAction::Reply(Ok(ResendResult::NotFound)),
                ),
                ResendEvent::PendingFound(Some(p)) => {
                    let invite = p.invite;
                    (ResendStage::InviteLookup { pending_id: p.id, email: p.email }, ResendAction::FindInviteById(FindInviteById { id: invite }))
                },
                _ => resend_panic(),
            },
            ResendStage::InviteLookup { pending_id, email } => match event {
                ResendEvent::InviteFound(None) => (
                    ResendStage::Done,
                    ResendAction::Reply(Ok(ResendResult::NotFound)),
                ),
                ResendEvent::InviteFound(Some(i)) => {
                    let pending = match i.status {
                        InviteStatus::Pending => true,
                        _ => false,
                    };
                    if i.owner != input.actor || !pending {
                        (ResendStage::Done, ResendAction::Reply(Ok(ResendResult::NotFound)))
                    } else {
                        (ResendStage::Settings { invite: i.id, pending_id, email }, ResendAction::LoadSettings)
                    }
                },
                _ => resend_panic(),
            },
            ResendStage::Settings { invite, pending_id, email } => match event {
                ResendEvent::SettingsLoaded { cfg, now } => {
                    let token = generate_invite_token();
                    let expiry = add_secs(now, cfg.invitation_expiry_secs);
                    let refresh = RefreshPendingInvite { invite, pending_id, new_token: token.clone(), expiry };
                    (ResendStage::Refresh { pending_id, email, token, now }, ResendAction::Refresh(refresh))
                },
                _ => resend_panic(),
            },
            ResendStage::Refresh { pending_id, email, token, now } => match event {
                ResendEvent::Refreshed => {
                    let e = InvitationSentEvent {
                        invite_id: pending_id,
                        email,
                        invite_token: token,
                        sent_at: to_unix(now),
                    };
                    (ResendStage::Announce, ResendAction::SendInvitationEvent(e))
                },
                _ => resend_panic(),
            },
            ResendStage::Announce => match event {
                ResendEvent::EventSent => (ResendStage::Done, ResendAction::Reply(Ok(ResendResult::Sent))),
                _ => resend_panic(),
            },
            ResendStage::Done => resend_panic(),
        };
        (ResendFlow { input, stage }, action)
    }
}

/// Whether a run of a resend follows its transitions.
pub open spec fn resend_trace(
    input: ResendInvitationEmail,
    stages: Seq<ResendStage>,
    events: Seq<ResendEvent>,
    actions: Seq<ResendAction>,
) -> bool {
    &&& stages.len() == events.len() + 1
    &&& actions.len() == events.len()
    &&& forall|k: int|
        0 <= k < events.len() ==> #[trigger] resend_next(input, stages[k], events[k], stages[k + 1], actions[k])
}

/// Whether an event found an invite of `actor` that is still `Pending`.
pub open spec fn owned_pending(e: ResendEvent, actor: AccountId) -> bool {
    e matches ResendEvent::InviteFound(Some(i)) && i.owner == actor && i.status == InviteStatus::Pending
}

proof fn lemma_resend_history(
    input: ResendInvitationEmail,
    stages: Seq<ResendStage>,
    events: Seq<ResendEvent>,
    actions: Seq<ResendAction>,
    j: int,
)
    requires
        resend_trace(input, stages, events, actions),
        stages[0] is PendingLookup,
        0 <= j < stages.len(),
    ensures
        (stages[j] is Settings || stages[j] is Refresh || stages[j] is Announce) ==> exists|k: int|
            0 <= k < j && #[trigger] owned_pending(events[k], input.actor),
    decreases j,
{
    if j > 0 {
        let k = j - 1;
        lemma_resend_history(input, stages, events, actions, k);
        assert(resend_next(input, stages[k], events[k], stages[k + 1], actions[k]));
        if stages[j] is Settings {
            assert(owned_pending(events[k], input.actor));
        }
    }
}

/// Only the owner of a still-pending invite can have its email resent: a
/// resend that refreshes the token, or answers `Sent`, found the invite
/// owned by the actor and `Pending`.
pub proof fn lemma_resend_only_by_owner(
    input: ResendInvitationEmail,
    stages: Seq<ResendStage>,
    events: Seq<ResendEvent>,
    actions: Seq<ResendAction>,
)
    requires
        resend_trace(input, stages, events, actions),
        stages[0] is PendingLookup,
    ensures
        forall|k: int|
            0 <= k < events.len() && (#[trigger] actions[k] is Refresh) ==> exists|i: int|
                0 <= i < k && #[trigger] owned_pending(events[i], input.actor),
        events.len() > 0 && actions.last() == ResendAction::Reply(Ok(ResendResult::Sent)) ==> exists|i: int|
            0 <= i < events.len() && #[trigger] owned_pending(events[i], input.actor),
{
    assert forall|k: int|
        0 <= k < events.len() && (#[trigger] actions[k] is Refresh) implies exists|i: int|
            0 <= i < k && #[trigger] owned_pending(events[i], input.actor) by {
        assert(resend_next(input, stages[k], events[k], stages[k + 1], actions[k]));
        lemma_resend_history(input, stages, events, actions, k);
    }
    if events.len() > 0 {
        let k = events.len() - 1;
        assert(resend_next(input, stages[k], events[k], stages[k + 1], actions[k]));
        lemma_resend_history(input, stages, events, actions, k);
    }
}

/// List the actor's invitations and pending sends.
pub struct ListMyInvitations {
    pub actor: AccountId,
}

/// A user's invitations and their pending sends.
pub struct MyInvitations {
    pub invites: Vec<InviteEntity>,
    pub pending: Vec<PendingInvitationEntity>,
}

} // verus!
