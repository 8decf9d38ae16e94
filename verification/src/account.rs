//! Registration (invite-only) and password change, as state machines: the
//! caller performs each action and feeds back what it got.
//!
//! Registration requires a valid email and an invite token naming a
//! `Pending`, unexpired invite whose pending invitation is still pending and
//! pinned to exactly the registrant's email.

use crate::crypto::{email_valid, new_uuid_v4, spec_email_valid};
use crate::datetime::{now_primitive, timestamp_in_range, to_unix, unix_secs_of, Timestamp};
use crate::identity::ServiceError;
use crate::messages::{InvitationAcceptedEvent, UserRegisteredEvent};
use crate::model::{
    AccountEntity, AccountId, CreateAccountResult, InviteEntity, InviteId, InviteStatus,
    PendingInvitationEntity, PendingInvitationStatus,
};
use crate::password::{hashable_password, spec_argon2_verify, Argon2PasswordAlgorithm, PasswordAlgorithm};
use crate::roles::AdminRole;
use crate::store::{AcceptPendingInvitationsByInvite, FindInviteByToken, SetInviteStatus};
use crate::text::str_eq;
use vstd::prelude::*;
use vstd::string::StringExecFns;

verus! {

/// Register a new account.
pub struct Register {
    pub username: String,
    pub email: String,
    pub password: String,
    pub invite_token: Option<String>,
}

/// Outcome of [`Register`].
#[derive(Debug, Clone, Copy, PartialEq, Eq, Structural)]
pub enum RegisterResult {
    Success { user_id: AccountId },
    EmailTaken,
    UsernameTaken,
    InvalidInvite,
}

/// A new account row.
pub struct NewAccount {
    pub id: AccountId,
    pub username: String,
    pub email: String,
    pub avatar_url: Option<String>,
    pub password_hash: String,
}

/// A new membership row.
pub struct NewMembership {
    pub account: AccountId,
    pub level: i32,
    pub admin_privilege: Option<AdminRole>,
    pub invited_by: Option<InviteId>,
}

/// Everything a successful registration writes and publishes, in order: the
/// membership, a zeroed credit row, the invite marked accepted, its pending
/// invitations accepted, then the two events.
pub struct RegistrationRecords {
    pub membership: NewMembership,
    pub credit_account: AccountId,
    pub invite_status: SetInviteStatus,
    pub accept_pending: AcceptPendingInvitationsByInvite,
    pub accepted: InvitationAcceptedEvent,
    pub registered: UserRegisteredEvent,
}

/// Where a registration stands.
pub enum RegisterStage {
    /// Waiting for the invite named by the token.
    InviteLookup,
    /// Waiting for the pending invitation the invite is pinned to.
    PinLookup { invite: InviteId, inviter: AccountId },
    /// Waiting for the account row to be inserted.
    AccountInsert { invite: InviteId, inviter: AccountId, user_id: AccountId },
    /// Waiting for the registration records to be written and published.
    Finalize { user_id: AccountId },
    /// Answered.
    Done,
}

/// What the caller reports back.
pub enum RegisterEvent {
    InviteFound(Option<InviteEntity>),
    PinFound(Option<PendingInvitationEntity>),
    AccountInserted(CreateAccountResult),
    Finalized,
}

/// What the caller is to do next.
pub enum RegisterAction {
    FindInviteByToken(FindInviteByToken),
    FindPendingInvitationByInvite(InviteId),
    CreateAccount(NewAccount),
    Persist(RegistrationRecords),
    Reply(Result<RegisterResult, ServiceError>),
}

/// A registration in progress; `now` is the time it started.
pub struct RegisterFlow {
    pub input: Register,
    pub now: Timestamp,
    pub stage: RegisterStage,
}

/// Whether an invite can be redeemed at `now`: it is `Pending` and not past
/// its expiry.
pub open spec fn invite_usable(invite: InviteEntity, now: Timestamp) -> bool {
    &&& invite.status == InviteStatus::Pending
    &&& match invite.will_expire_at {
        None => true,
        Some(e) => e.0 > now.0,
    }
}

/// Whether a pending invitation pins an invite to this email.
pub open spec fn pinned_to(pin: PendingInvitationEntity, email: Seq<char>) -> bool {
    pin.status == PendingInvitationStatus::Pending && pin.email@ == email
}

/// How a registration starts: an invalid email is an invalid input, a
/// missing token an invalid invite; otherwise the invite is looked up.
pub open spec fn register_start_spec(input: Register, stage: RegisterStage, action: RegisterAction) -> bool {
    if !spec_email_valid(input.email@) {
        stage is Done && action matches RegisterAction::Reply(Err(ServiceError::InvalidInput))
    } else if input.invite_token is None {
        stage is Done && action == RegisterAction::Reply(Ok(RegisterResult::InvalidInvite))
    } else {
        stage is InviteLookup && (action matches RegisterAction::FindInviteByToken(q)
            && q.invite_token@ == input.invite_token.unwrap()@)
    }
}

/// Whether the records of a registration are the right ones.
pub open spec fn records_of(
    rec: RegistrationRecords,
    input: Register,
    now: Timestamp,
    invite: InviteId,
    inviter: AccountId,
    user_id: AccountId,
) -> bool {
    &&& rec.membership.account == user_id
    &&& rec.membership.level == 0
    &&& rec.membership.admin_privilege is None
    &&& rec.membership.invited_by == Some(invite)
    &&& rec.credit_account == user_id
    &&& rec.invite_status == (SetInviteStatus { id: invite, status: InviteStatus::Accepted })
    &&& rec.accept_pending == (AcceptPendingInvitationsByInvite { invite })
    &&& rec.accepted.inviter_id == inviter.0
    &&& rec.accepted.new_member_id == user_id.0
    &&& rec.accepted.new_member_username@ == input.username@
    &&& rec.accepted.accepted_at == unix_secs_of(now.0 as int)
    &&& rec.registered.user_id == user_id.0
    &&& rec.registered.email@ == input.email@
    &&& rec.registered.invited_by == Some(invite.0)
    &&& rec.registered.registered_at == unix_secs_of(now.0 as int)
}

/// Whether an action ends the registration with a panic for an unexpected event.
pub open spec fn register_unexpected(next: RegisterStage, action: RegisterAction) -> bool {
    next is Done && action matches RegisterAction::Reply(Err(ServiceError::BusinessPanic(_)))
}

/// One transition of a registration.
pub open spec fn register_next(
    input: Register,
    now: Timestamp,
    stage: RegisterStage,
    event: RegisterEvent,
    next: RegisterStage,
    action: RegisterAction,
) -> bool {
    match stage {
        RegisterStage::InviteLookup => match event {
            RegisterEvent::InviteFound(found) => match found {
                Some(i) => if invite_usable(i, now) {
                    next == (RegisterStage::PinLookup { invite: i.id, inviter: i.owner })
                        && action == RegisterAction::FindPendingInvitationByInvite(i.id)
                } else {
                    next is Done && action == RegisterAction::Reply(Ok(RegisterResult::InvalidInvite))
                },
                None => next is Done && action == RegisterAction::Reply(Ok(RegisterResult::InvalidInvite)),
            },
            _ => register_unexpected(next, action),
        },
        RegisterStage::PinLookup { invite, inviter } => match event {
            RegisterEvent::PinFound(found) => if found matches Some(p) && pinned_to(p, input.email@) {
                if !hashable_password(input.password@) {
                    next is Done && action matches RegisterAction::Reply(Err(ServiceError::BusinessPanic(_)))
                } else {
                    action matches RegisterAction::CreateAccount(acc) && {
                    &&& next == (RegisterStage::AccountInsert { invite, inviter, user_id: acc.id })
                    &&& acc.username@ == input.username@
                    &&& acc.email@ == input.email@
                    &&& acc.avatar_url is None
                    &&& spec_argon2_verify(input.password@, acc.password_hash@)
                    }
                }
            } else {
                next is Done && action == RegisterAction::Reply(Ok(RegisterResult::InvalidInvite))
            },
            _ => register_unexpected(next, action),
        },
        RegisterStage::AccountInsert { invite, inviter, user_id } => match event {
            RegisterEvent::AccountInserted(CreateAccountResult::EmailTaken) => next is Done && action
                == RegisterAction::Reply(Ok(RegisterResult::EmailTaken)),
            RegisterEvent::AccountInserted(CreateAccountResult::UsernameTaken) => next is Done && action
                == RegisterAction::Reply(Ok(RegisterResult::UsernameTaken)),
            RegisterEvent::AccountInserted(CreateAccountResult::Success) => next == (RegisterStage::Finalize {
                user_id,
            }) && (action matches RegisterAction::Persist(rec) && records_of(
                rec,
                input,
                now,
                invite,
                inviter,
                user_id,
            )),
            _ => register_unexpected(next, action),
        },
        RegisterStage::Finalize { user_id } => match event {
            RegisterEvent::Finalized => next is Done && action == RegisterAction::Reply(
                Ok(RegisterResult::Success { user_id }),
            ),
            _ => register_unexpected(next, action),
        },
        RegisterStage::Done => register_unexpected(next, action),
    }
}

fn register_panic() -> (r: (RegisterStage, RegisterAction))
    ensures
        register_unexpected(r.0, r.1),
{
    (
        RegisterStage::Done,
        RegisterAction::Reply(Err(ServiceError::BusinessPanic(String::from_str("unexpected registration event")))),
    )
}

fn is_usable(invite: &InviteEntity, now: Timestamp) -> (r: bool)
    ensures
        r == invite_usable(*invite, now),
{
    let pending = match invite.status {
        InviteStatus::Pending => true,
        _ => false,
    };
    let live = match invite.will_expire_at {
        None => true,
        Some(e) => e.0 > now.0,
    };
    pending && live
}

fn is_pinned(pin: &PendingInvitationEntity, email: &str) -> (r: bool)
    ensures
        r == pinned_to(*pin, email@),
{
    let pending = match pin.status {
        PendingInvitationStatus::Pending => true,
        _ => false,
    };
    pending && str_eq(pin.email.as_str(), email)
}

impl RegisterFlow {
    /// Begin a registration at the current time.
    pub fn start(input: Register) -> (r: (RegisterFlow, RegisterAction))
        ensures
            r.0.input == input,
            timestamp_in_range(r.0.now.0 as int),
            register_start_spec(input, r.0.stage, r.1),
    {
        let now = now_primitive();
        if !email_valid(input.email.as_str()) {
            return (
                RegisterFlow { input, now, stage: RegisterStage::Done },
                RegisterAction::Reply(Err(ServiceError::InvalidInput)),
            );
        }
        let token = match &input.invite_token {
            None => {
                return (
                    RegisterFlow { input, now, stage: RegisterStage::Done },
                    RegisterAction::Reply(Ok(RegisterResult::InvalidInvite)),
                );
            },
            Some(t) => t.clone(),
        };
        (RegisterFlow { input, now, stage: RegisterStage::InviteLookup }, RegisterAction::FindInviteByToken(FindInviteByToken { invite_token: token }))
    }

    /// Advance the registration with what the last action produced.
    pub fn step(self, event: RegisterEvent) -> (r: (RegisterFlow, RegisterAction))
        requires
            timestamp_in_range(self.now.0 as int),
        ensures
            r.0.input == self.input,
            r.0.now == self.now,
            register_next(self.input, self.now, self.stage, event, r.0.stage, r.1),
    {
        let input = self.input;
        let now = self.now;
        let (stage, action) = match self.stage {
            RegisterStage::InviteLookup => match event {
                RegisterEvent::InviteFound(found) => match found {
                    Some(i) => {
                        if is_usable(&i, now) {
                            (
                                RegisterStage::PinLookup { invite: i.id, inviter: i.owner },
                                RegisterAction::FindPendingInvitationByInvite(i.id),
                            )
                        } else {
                            (RegisterStage::Done, RegisterAction::Reply(Ok(RegisterResult::InvalidInvite)))
                        }
                    },
                    None => (RegisterStage::Done, RegisterAction::Reply(Ok(RegisterResult::InvalidInvite))),
                },
                _ => register_panic(),
            },
            RegisterStage::PinLookup { invite, inviter } => match event {
                RegisterEvent::PinFound(found) => {
                    let matches = match &found {
                        Some(p) => is_pinned(p, input.email.as_str()),
                        None => false,
                    };
                    if !matches {
                        (RegisterStage::Done, RegisterAction::Reply(Ok(RegisterResult::InvalidInvite)))
                    } else {
                        let alg = Argon2PasswordAlgorithm;
                        match alg.hash_password(input.password.as_str()) {
                            Err(e) => (
                                RegisterStage::Done,
                                RegisterAction::Reply(Err(ServiceError::BusinessPanic(e.message()))),
                            ),
                            Ok(password_hash) => {
                                let user_id = AccountId(new_uuid_v4());
                                let acc = NewAccount {
                                    id: user_id,
                                    username: input.username.clone(),
                                    email: input.email.clone(),
                                    avatar_url: None,
                                    password_hash,
                                };
                                (
                                    RegisterStage::AccountInsert { invite, inviter, user_id },
                                    RegisterAction::CreateAccount(acc),
                                )
                            },
                        }
                    }
                },
                _ => register_panic(),
            },
            RegisterStage::AccountInsert { invite, inviter, user_id } => match event {
                RegisterEvent::AccountInserted(CreateAccountResult::EmailTaken) => (
                    RegisterStage::Done,
                    RegisterAction::Reply(Ok(RegisterResult::EmailTaken)),
                ),
                RegisterEvent::AccountInserted(CreateAccountResult::UsernameTaken) => (
                    RegisterStage::Done,
                    RegisterAction::Reply(Ok(RegisterResult::UsernameTaken)),
                ),
                RegisterEvent::AccountInserted(CreateAccountResult::Success) => {
                    let at = to_unix(now);
                    let rec = RegistrationRecords {
                        membership: NewMembership {
                            account: user_id,
                            level: 0,
                            admin_privilege: None,
                            invited_by: Some(invite),
                        },
                        credit_account: user_id,
                        invite_status: SetInviteStatus { id: invite, status: InviteStatus::Accepted },
                        accept_pending: AcceptPendingInvitationsByInvite { invite },
                        accepted: InvitationAcceptedEvent {
                            inviter_id: inviter.0,
                            new_member_id: user_id.0,
                            new_member_username: input.username.clone(),
                            accepted_at: at,
                        },
                        registered: UserRegisteredEvent {
                            user_id: user_id.0,
                            email: input.email.clone(),
                            invited_by: Some(invite.0),
                            registered_at: at,
                        },
                    };
                    (RegisterStage::Finalize { user_id }, RegisterAction::Persist(rec))
                },
                _ => register_panic(),
            },
            RegisterStage::Finalize { user_id } => match event {
                RegisterEvent::Finalized => (
                    RegisterStage::Done,
                    RegisterAction::Reply(Ok(RegisterResult::Success { user_id })),
                ),
                _ => register_panic(),
            },
            RegisterStage::Done => register_panic(),
        };
        (RegisterFlow { input, now, stage }, action)
    }
}

/// Whether a run of a registration follows its transitions: `stages[k]`
/// goes to `stages[k + 1]` on `events[k]`, with `actions[k]`.
pub open spec fn register_trace(
    input: Register,
    now: Timestamp,
    stages: Seq<RegisterStage>,
    events: Seq<RegisterEvent>,
    actions: Seq<RegisterAction>,
) -> bool {
    &&& stages.len() == events.len() + 1
    &&& actions.len() == events.len()
    &&& forall|k: int|
        0 <= k < events.len() ==> #[trigger] register_next(input, now, stages[k], events[k], stages[k + 1], actions[k])
}

/// Whether one of the first `upto` events found an invite usable at `now`.
pub open spec fn saw_usable_invite(now: Timestamp, events: Seq<RegisterEvent>, upto: int) -> bool {
    exists|k: int| 0 <= k < upto && #[trigger] found_usable_invite(events[k], now)
}

/// Whether an event found an invite usable at `now`.
pub open spec fn found_usable_invite(e: RegisterEvent, now: Timestamp) -> bool {
    e matches RegisterEvent::InviteFound(Some(i)) && invite_usable(i, now)
}

/// Whether one of the first `upto` events found the invite pinned to the email.
pub open spec fn saw_pin(email: Seq<char>, events: Seq<RegisterEvent>, upto: int) -> bool {
    exists|k: int| 0 <= k < upto && #[trigger] found_pin(events[k], email)
}

/// Whether an event found a pending invitation pinned to the email.
pub open spec fn found_pin(e: RegisterEvent, email: Seq<char>) -> bool {
    e matches RegisterEvent::PinFound(Some(p)) && pinned_to(p, email)
}

proof fn lemma_register_history(
    input: Register,
    now: Timestamp,
    stages: Seq<RegisterStage>,
    events: Seq<RegisterEvent>,
    actions: Seq<RegisterAction>,
    j: int,
)
    requires
        register_trace(input, now, stages, events, actions),
        stages[0] is InviteLookup,
        0 <= j < stages.len(),
    ensures
        stages[j] is PinLookup ==> saw_usable_invite(now, events, j),
        (stages[j] is AccountInsert || stages[j] is Finalize) ==> saw_usable_invite(now, events, j)
            && saw_pin(input.email@, events, j),
    decreases j,
{
    if j > 0 {
        lemma_register_history(input, now, stages, events, actions, j - 1);
        let k = j - 1;
        assert(register_next(input, now, stages[k], events[k], stages[k + 1], actions[k]));
        if stages[j] is PinLookup {
            assert(found_usable_invite(events[k], now));
        }
        if stages[j] is AccountInsert {
            assert(found_pin(events[k], input.email@));
            assert(saw_usable_invite(now, events, k));
        }
        if stages[j] is AccountInsert || stages[j] is Finalize {
            assert(saw_usable_invite(now, events, k));
        }
    }
}

/// Registration is invite-only: a run that answers success has, on the
/// way, found an invite that was `Pending` and unexpired at the start, and
/// the pending invitation pinning that invite to the registrant's email.
pub proof fn lemma_register_success_needs_pinned_invite(
    input: Register,
    now: Timestamp,
    stages: Seq<RegisterStage>,
    events: Seq<RegisterEvent>,
    actions: Seq<RegisterAction>,
    user_id: AccountId,
)
    requires
        register_trace(input, now, stages, events, actions),
        stages[0] is InviteLookup,
        events.len() > 0,
        actions.last() == RegisterAction::Reply(Ok(RegisterResult::Success { user_id })),
    ensures
        saw_usable_invite(now, events, events.len() as int),
        saw_pin(input.email@, events, events.len() as int),
{
    let k = events.len() - 1;
    assert(register_next(input, now, stages[k], events[k], stages[k + 1], actions[k]));
    lemma_register_history(input, now, stages, events, actions, k);
    assert(stages[k] is Finalize);
}

/// What provisioning an administrator account writes: the account (with a
/// fresh id), a membership granting the role, and a zeroed credit row for
/// the same account.
pub struct AdminBootstrap {
    pub account: NewAccount,
    pub membership: NewMembership,
}

/// Provision an administrator directly (without an invitation): the
/// password is hashed, the membership has level 0 and the role.
pub fn plan_admin_account(email: String, username: String, password: &str, role: AdminRole) -> (r: Result<
    AdminBootstrap,
    crate::password::PasswordHashError,
>)
    ensures
        r is Ok <==> hashable_password(password@),
        r matches Ok(b) ==> {
            &&& b.account.email == email
            &&& b.account.username == username
            &&& b.account.avatar_url is None
            &&& spec_argon2_verify(password@, b.account.password_hash@)
            &&& b.membership.account == b.account.id
            &&& b.membership.level == 0
            &&& b.membership.admin_privilege == Some(role)
            &&& b.membership.invited_by is None
        },
{
    let alg = Argon2PasswordAlgorithm;
    let password_hash = alg.hash_password(password)?;
    let id = AccountId(new_uuid_v4());
    Ok(AdminBootstrap {
        account: NewAccount { id, username, email, avatar_url: None, password_hash },
        membership: NewMembership { account: id, level: 0, admin_privilege: Some(role), invited_by: None },
    })
}

/// Change an account's password after verifying the old one.
pub struct ChangePassword {
    pub user_id: AccountId,
    pub old_password: String,
    pub new_password: String,
}

/// Outcome of [`ChangePassword`].
#[derive(Debug, Clone, Copy, PartialEq, Eq, Structural)]
pub enum ChangePasswordResult {
    Success,
    WrongPassword,
}

/// What a password change does once the account is loaded.
pub enum ChangePasswordStep {
    Reply(Result<ChangePasswordResult, ServiceError>),
    /// Store the new hash, then answer success.
    Update { id: AccountId, password_hash: String },
}

/// Decide a password change from the loaded account: a missing account is
/// not found; a wrong old password is refused; otherwise the new password's
/// hash replaces the stored one (a password too long to hash is an internal
/// error).
pub fn change_password_step(input: &ChangePassword, account: Option<AccountEntity>) -> (r: ChangePasswordStep)
    ensures
        account is None ==> r matches ChangePasswordStep::Reply(Err(ServiceError::NotFound)),
        account matches Some(a) ==> {
            if !spec_argon2_verify(input.old_password@, a.password_hash@) {
                r matches ChangePasswordStep::Reply(Ok(ChangePasswordResult::WrongPassword))
            } else if hashable_password(input.new_password@) {
                r matches ChangePasswordStep::Update { id, password_hash } && id == input.user_id
                    && spec_argon2_verify(input.new_password@, password_hash@)
            } else {
                r matches ChangePasswordStep::Reply(Err(ServiceError::BusinessPanic(_)))
            }
        },
{
    match account {
        None => ChangePasswordStep::Reply(Err(ServiceError::NotFound)),
        Some(a) => {
            let alg = Argon2PasswordAlgorithm;
            if !alg.verify_password(input.old_password.as_str(), a.password_hash.as_str()) {
                return ChangePasswordStep::Reply(Ok(ChangePasswordResult::WrongPassword));
            }
            match alg.hash_password(input.new_password.as_str()) {
                Ok(h) => ChangePasswordStep::Update { id: input.user_id, password_hash: h },
                Err(e) => ChangePasswordStep::Reply(Err(ServiceError::BusinessPanic(e.message()))),
            }
        },
    }
}

} // verus!
