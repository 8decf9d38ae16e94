//! Credential login, as a state machine: the caller performs each action
//! (a look-up, a write, a publication) and feeds back what it got.
//!
//! An account is looked up by email, then by username; a missing account
//! costs a dummy password check and is not found; a wrong password is a wrong
//! credential; a suspended account is refused; an account with TOTP enabled
//! gets an MFA-login token instead of a session; any other gets a session
//! and a login event.

use crate::cache::{security_code, MfaLoginToken};
use crate::crypto::random_bytes;
use crate::datetime::{now_primitive, to_unix};
use crate::identity::ServiceError;
use crate::messages::UserLoginEvent;
use crate::model::{AccountEntity, AccountId, SessionId, SessionSecurityOption};
use crate::password::{spec_argon2_verify, Argon2PasswordAlgorithm, PasswordAlgorithm};
use crate::session::CreateSession;
use vstd::prelude::*;
use vstd::string::StringExecFns;

verus! {

/// Authenticate by email or username and password.
pub struct Login {
    pub identifier: String,
    pub password: String,
    pub ip: String,
    pub user_agent: String,
}

/// Outcome of a [`Login`].
#[derive(Clone)]
pub enum LoginResult {
    /// A session was opened.
    Success(SessionId),
    /// The password was right and the account has TOTP enabled: the token
    /// must be exchanged, with a second factor, for a session.
    RequireMfa([u8; 32]),
    WrongCredential,
    NotFound,
    Suspended,
}

/// Where a login stands.
pub enum LoginStage {
    /// Waiting for the account with the identifier as email.
    ByEmail,
    /// Waiting for the account with the identifier as username.
    ByUsername,
    /// Waiting for whether the account is suspended.
    Suspension { user: AccountId },
    /// Waiting for whether the account has TOTP enabled.
    SecondFactor { user: AccountId },
    /// Waiting for the MFA-login token to be stored.
    TokenStore { token: [u8; 32] },
    /// Waiting for the session to be created.
    SessionOpen { user: AccountId },
    /// Waiting for the login event to be published.
    Announce { session_id: SessionId },
    /// Answered.
    Done,
}

/// What the caller reports back.
pub enum LoginEvent {
    AccountFound(Option<AccountEntity>),
    SuspensionChecked(bool),
    TotpChecked(bool),
    TokenStored,
    SessionCreated(SessionId),
    EventSent,
}

/// What the caller is to do next.
pub enum LoginAction {
    FindAccountByEmail(String),
    FindAccountByUsername(String),
    CheckSuspended(AccountId),
    FindTotp(AccountId),
    /// Store the token for [`crate::cache::MFA_LOGIN_TOKEN_TTL_SECS`] seconds.
    StoreMfaToken(MfaLoginToken),
    CreateSession(CreateSession),
    SendLoginEvent(UserLoginEvent),
    Reply(Result<LoginResult, ServiceError>),
}

/// A login in progress.
pub struct LoginFlow {
    pub input: Login,
    pub stage: LoginStage,
}

/// The answer a login gives once its state machine stops.
pub open spec fn replies(action: LoginAction, result: LoginResult) -> bool {
    action == LoginAction::Reply(Ok(result))
}

/// What follows a found account: a wrong password ends the login; a right
/// one asks whether the account is suspended.
pub open spec fn after_account(input: Login, a: AccountEntity, next: LoginStage, action: LoginAction) -> bool {
    if spec_argon2_verify(input.password@, a.password_hash@) {
        next == (LoginStage::Suspension { user: a.id }) && action == LoginAction::CheckSuspended(a.id)
    } else {
        next is Done && replies(action, LoginResult::WrongCredential)
    }
}

/// One transition of a login.
pub open spec fn login_next(
    input: Login,
    stage: LoginStage,
    event: LoginEvent,
    next: LoginStage,
    action: LoginAction,
) -> bool {
    match stage {
        LoginStage::ByEmail => match event {
            LoginEvent::AccountFound(Some(a)) => after_account(input, a, next, action),
            LoginEvent::AccountFound(None) => next is ByUsername && (action matches LoginAction::FindAccountByUsername(u)
                && u@ == input.identifier@),
            _ => next is Done && action matches LoginAction::Reply(Err(ServiceError::BusinessPanic(_))),
        },
        LoginStage::ByUsername => match event {
            LoginEvent::AccountFound(Some(a)) => after_account(input, a, next, action),
            LoginEvent::AccountFound(None) => next is Done && replies(action, LoginResult::NotFound),
            _ => next is Done && action matches LoginAction::Reply(Err(ServiceError::BusinessPanic(_))),
        },
        LoginStage::Suspension { user } => match event {
            LoginEvent::SuspensionChecked(true) => next is Done && replies(action, LoginResult::Suspended),
            LoginEvent::SuspensionChecked(false) => next == (LoginStage::SecondFactor { user })
                && action == LoginAction::FindTotp(user),
            _ => next is Done && action matches LoginAction::Reply(Err(ServiceError::BusinessPanic(_))),
        },
        LoginStage::SecondFactor { user } => match event {
            LoginEvent::TotpChecked(true) => action matches LoginAction::StoreMfaToken(t) && {
                &&& next == (LoginStage::TokenStore { token: t.token })
                &&& t.user_id == user.0
                &&& t.ip@ == input.ip@
                &&& t.user_agent@ == input.user_agent@
                &&& t.security_option == security_code(SessionSecurityOption::Unrestricted)
            },
            LoginEvent::TotpChecked(false) => action matches LoginAction::CreateSession(c) && {
                &&& next == (LoginStage::SessionOpen { user })
                &&& c.user_id == user
                &&& c.ip@ == input.ip@
                &&& c.user_agent@ == input.user_agent@
                &&& c.security_option == SessionSecurityOption::Unrestricted
            },
            _ => next is Done && action matches LoginAction::Reply(Err(ServiceError::BusinessPanic(_))),
        },
        LoginStage::TokenStore { token } => match event {
            LoginEvent::TokenStored => next is Done && replies(action, LoginResult::RequireMfa(token)),
            _ => next is Done && action matches LoginAction::Reply(Err(ServiceError::BusinessPanic(_))),
        },
        LoginStage::SessionOpen { user } => match event {
            LoginEvent::SessionCreated(sid) => action matches LoginAction::SendLoginEvent(e) && {
                &&& next == (LoginStage::Announce { session_id: sid })
                &&& e.user_id == user.0
                &&& e.ip@ == input.ip@
                &&& e.user_agent@ == input.user_agent@
            },
            _ => next is Done && action matches LoginAction::Reply(Err(ServiceError::BusinessPanic(_))),
        },
        LoginStage::Announce { session_id } => match event {
            LoginEvent::EventSent => next is Done && replies(action, LoginResult::Success(session_id)),
            _ => next is Done && action matches LoginAction::Reply(Err(ServiceError::BusinessPanic(_))),
        },
        LoginStage::Done => next is Done && action matches LoginAction::Reply(Err(ServiceError::BusinessPanic(_))),
    }
}

fn unexpected() -> (r: (LoginStage, LoginAction))
    ensures
        r.0 is Done,
        r.1 matches LoginAction::Reply(Err(ServiceError::BusinessPanic(_))),
{
    (
        LoginStage::Done,
        LoginAction::Reply(Err(ServiceError::BusinessPanic(String::from_str("unexpected login event")))),
    )
}

fn check_account(input: &Login, a: AccountEntity) -> (r: (LoginStage, LoginAction))
    ensures
        after_account(*input, a, r.0, r.1),
{
    let alg = Argon2PasswordAlgorithm;
    if alg.verify_password(input.password.as_str(), a.password_hash.as_str()) {
        (LoginStage::Suspension { user: a.id }, LoginAction::CheckSuspended(a.id))
    } else {
        (LoginStage::Done, LoginAction::Reply(Ok(LoginResult::WrongCredential)))
    }
}

impl LoginFlow {
    /// Begin a login: look the identifier up as an email.
    pub fn start(input: Login) -> (r: (LoginFlow, LoginAction))
        ensures
            r.0.input == input,
            r.0.stage is ByEmail,
            r.1 matches LoginAction::FindAccountByEmail(e) && e@ == input.identifier@,
    {
        let email = input.identifier.clone();
        (LoginFlow { input, stage: LoginStage::ByEmail }, LoginAction::FindAccountByEmail(email))
    }

    /// Advance the login with what the last action produced.
    pub fn step(self, event: LoginEvent) -> (r: (LoginFlow, LoginAction))
        ensures
            r.0.input == self.input,
            login_next(self.input, self.stage, event, r.0.stage, r.1),
    {
        let input = self.input;
        let (stage, action) = match self.stage {
            LoginStage::ByEmail => match event {
                LoginEvent::AccountFound(Some(a)) => check_account(&input, a),
                LoginEvent::AccountFound(None) => (
                    LoginStage::ByUsername,
                    LoginAction::FindAccountByUsername(input.identifier.clone()),
                ),
                _ => unexpected(),
            },
            LoginStage::ByUsername => match event {
                LoginEvent::AccountFound(Some(a)) => check_account(&input, a),
                LoginEvent::AccountFound(None) => {
                    let alg = Argon2PasswordAlgorithm;
                    let _ = alg.verify_password_or_dummy(input.password.as_str(), None);
                    (LoginStage::Done, LoginAction::Reply(Ok(LoginResult::NotFound)))
                },
                _ => unexpected(),
            },
            LoginStage::Suspension { user } => match event {
                LoginEvent::SuspensionChecked(true) => (
                    LoginStage::Done,
                    LoginAction::Reply(Ok(LoginResult::Suspended)),
                ),
                LoginEvent::SuspensionChecked(false) => (
                    LoginStage::SecondFactor { user },
                    LoginAction::FindTotp(user),
                ),
                _ => unexpected(),
            },
            LoginStage::SecondFactor { user } => match event {
                LoginEvent::TotpChecked(true) => {
                    let token: [u8; 32] = random_bytes();
                    let record = MfaLoginToken {
                        token,
                        user_id: user.0,
                        ip: input.ip.clone(),
                        user_agent: input.user_agent.clone(),
                        security_option: 2,
                    };
                    (LoginStage::TokenStore { token }, LoginAction::StoreMfaToken(record))
                },
                LoginEvent::TotpChecked(false) => {
                    let create = CreateSession {
                        user_id: user,
                        ip: input.ip.clone(),
                        user_agent: input.user_agent.clone(),
                        security_option: SessionSecurityOption::Unrestricted,
                    };
                    (LoginStage::SessionOpen { user }, LoginAction::CreateSession(create))
                },
                _ => unexpected(),
            },
            LoginStage::TokenStore { token } => match event {
                LoginEvent::TokenStored => (
                    LoginStage::Done,
                    LoginAction::Reply(Ok(LoginResult::RequireMfa(token))),
                ),
                _ => unexpected(),
            },
            LoginStage::SessionOpen { user } => match event {
                LoginEvent::SessionCreated(sid) => {
                    let announce = UserLoginEvent {
                        user_id: user.0,
                        ip: input.ip.clone(),
                        user_agent: input.user_agent.clone(),
                        at: to_unix(now_primitive()),
                    };
                    (LoginStage::Announce { session_id: sid }, LoginAction::SendLoginEvent(announce))
                },
                _ => unexpected(),
            },
            LoginStage::Announce { session_id } => match event {
                LoginEvent::EventSent => (
                    LoginStage::Done,
                    LoginAction::Reply(Ok(LoginResult::Success(session_id))),
                ),
                _ => unexpected(),
            },
            LoginStage::Done => unexpected(),
        };
        (LoginFlow { input, stage }, action)
    }
}

/// Whether a run of a login follows its transitions.
pub open spec fn login_trace(
    input: Login,
    stages: Seq<LoginStage>,
    events: Seq<LoginEvent>,
    actions: Seq<LoginAction>,
) -> bool {
    &&& stages.len() == events.len() + 1
    &&& actions.len() == events.len()
    &&& forall|k: int|
        0 <= k < events.len() ==> #[trigger] login_next(input, stages[k], events[k], stages[k + 1], actions[k])
}

/// Whether an event found an account whose stored hash accepts the password.
pub open spec fn found_matching_account(e: LoginEvent, password: Seq<char>) -> bool {
    e matches LoginEvent::AccountFound(Some(a)) && spec_argon2_verify(password, a.password_hash@)
}

/// Whether one of the first `upto` events found an account accepting the password.
pub open spec fn saw_password_accepted(password: Seq<char>, events: Seq<LoginEvent>, upto: int) -> bool {
    exists|k: int| 0 <= k < upto && #[trigger] found_matching_account(events[k], password)
}

/// Whether one of the first `upto` events is `e`.
pub open spec fn saw_event(events: Seq<LoginEvent>, e: LoginEvent, upto: int) -> bool {
    exists|k: int| 0 <= k < upto && #[trigger] events[k] == e
}

proof fn lemma_login_history(
    input: Login,
    stages: Seq<LoginStage>,
    events: Seq<LoginEvent>,
    actions: Seq<LoginAction>,
    j: int,
)
    requires
        login_trace(input, stages, events, actions),
        stages[0] is ByEmail,
        0 <= j < stages.len(),
    ensures
        (stages[j] is Suspension || stages[j] is SecondFactor || stages[j] is TokenStore
            || stages[j] is SessionOpen || stages[j] is Announce) ==> saw_password_accepted(input.password@, events, j),
        (stages[j] is SecondFactor || stages[j] is TokenStore || stages[j] is SessionOpen
            || stages[j] is Announce) ==> saw_event(events, LoginEvent::SuspensionChecked(false), j),
        stages[j] is TokenStore ==> saw_event(events, LoginEvent::TotpChecked(true), j),
        (stages[j] is SessionOpen || stages[j] is Announce) ==> saw_event(events, LoginEvent::TotpChecked(false), j),
    decreases j,
{
    if j > 0 {
        let k = j - 1;
        lemma_login_history(input, stages, events, actions, k);
        assert(login_next(input, stages[k], events[k], stages[k + 1], actions[k]));
        if stages[j] is Suspension {
            assert(found_matching_account(events[k], input.password@));
        }
        if stages[j] is SecondFactor {
            assert(events[k] == LoginEvent::SuspensionChecked(false));
        }
        if stages[j] is TokenStore {
            assert(events[k] == LoginEvent::TotpChecked(true));
        }
        if stages[j] is SessionOpen {
            assert(events[k] == LoginEvent::TotpChecked(false));
        }
    }
}

/// A login that opens a session has seen an account accept the password,
/// learned that the account is not suspended and that it has no TOTP; one
/// that asks for a second factor has seen the password accepted, the account
/// not suspended, and TOTP enabled.
pub proof fn lemma_login_outcomes(
    input: Login,
    stages: Seq<LoginStage>,
    events: Seq<LoginEvent>,
    actions: Seq<LoginAction>,
)
    requires
        login_trace(input, stages, events, actions),
        stages[0] is ByEmail,
        events.len() > 0,
    ensures
        actions.last() matches LoginAction::Reply(Ok(LoginResult::Success(_))) ==> {
            &&& saw_password_accepted(input.password@, events, events.len() as int)
            &&& saw_event(events, LoginEvent::SuspensionChecked(false), events.len() as int)
            &&& saw_event(events, LoginEvent::TotpChecked(false), events.len() as int)
        },
        actions.last() matches LoginAction::Reply(Ok(LoginResult::RequireMfa(_))) ==> {
            &&& saw_password_accepted(input.password@, events, events.len() as int)
            &&& saw_event(events, LoginEvent::SuspensionChecked(false), events.len() as int)
            &&& saw_event(events, LoginEvent::TotpChecked(true), events.len() as int)
        },
{
    let k = events.len() - 1;
    assert(login_next(input, stages[k], events[k], stages[k + 1], actions[k]));
    lemma_login_history(input, stages, events, actions, k);
}

/// Result code of a login on the wire.
#[derive(Debug, Clone, Copy, PartialEq, Eq, Structural)]
pub enum LoginReplyCode {
    Success,
    WrongCredential,
    NotFound,
    RequireMfa,
}

/// The wire reply of a login: its code, the session id on success and the
/// MFA token when a second factor is due. Suspension is answered as a wrong
/// credential, so that the reply does not reveal it.
pub fn login_reply(result: LoginResult) -> (r: (LoginReplyCode, Option<String>, Option<[u8; 32]>))
    ensures
        result matches LoginResult::Success(sid) ==> (r.0 == LoginReplyCode::Success && r.1 == Some(sid.0) && r.2 is None),
        result matches LoginResult::RequireMfa(t) ==> (r.0 == LoginReplyCode::RequireMfa && r.1 is None && r.2 == Some(t)),
        result is WrongCredential ==> (r.0 == LoginReplyCode::WrongCredential && r.1 is None && r.2 is None),
        result is NotFound ==> (r.0 == LoginReplyCode::NotFound && r.1 is None && r.2 is None),
        result is Suspended ==> (r.0 == LoginReplyCode::WrongCredential && r.1 is None && r.2 is None),
{
    match result {
        LoginResult::Success(sid) => (LoginReplyCode::Success, Some(sid.0), None),
        LoginResult::RequireMfa(t) => (LoginReplyCode::RequireMfa, None, Some(t)),
        LoginResult::WrongCredential => (LoginReplyCode::WrongCredential, None, None),
        LoginResult::NotFound => (LoginReplyCode::NotFound, None, None),
        LoginResult::Suspended => (LoginReplyCode::WrongCredential, None, None),
    }
}


/// An account found by username is handled as one found by email: the
/// password is checked against it, a right password goes on to the
/// suspension check of that account, and a wrong one is a wrong credential.
pub proof fn lemma_account_found_checks_password(
    input: Login,
    by_username: bool,
    a: AccountEntity,
    next: LoginStage,
    action: LoginAction,
)
    requires
        login_next(
            input,
            if by_username {
                LoginStage::ByUsername
            } else {
                LoginStage::ByEmail
            },
            LoginEvent::AccountFound(Some(a)),
            next,
            action,
        ),
    ensures
        spec_argon2_verify(input.password@, a.password_hash@) ==> next == (LoginStage::Suspension { user: a.id })
            && action == LoginAction::CheckSuspended(a.id),
        !spec_argon2_verify(input.password@, a.password_hash@) ==> next is Done && action == LoginAction::Reply(
            Ok(LoginResult::WrongCredential),
        ),
{
}

proof fn lemma_lookup_stages(
    input: Login,
    stages: Seq<LoginStage>,
    events: Seq<LoginEvent>,
    actions: Seq<LoginAction>,
    j: int,
)
    requires
        login_trace(input, stages, events, actions),
        stages[0] is ByEmail,
        0 <= j < stages.len(),
    ensures
        stages[j] is ByEmail ==> j == 0,
        stages[j] is ByUsername ==> j == 1 && events[0] == LoginEvent::AccountFound(None),
    decreases j,
{
    if j > 0 {
        let k = j - 1;
        lemma_lookup_stages(input, stages, events, actions, k);
        assert(login_next(input, stages[k], events[k], stages[k + 1], actions[k]));
    }
}

/// A login answers "not found" only when both look-ups found nothing: the
/// run is exactly the email look-up and the username look-up, each reporting
/// no account.
pub proof fn lemma_not_found_only_after_two_misses(
    input: Login,
    stages: Seq<LoginStage>,
    events: Seq<LoginEvent>,
    actions: Seq<LoginAction>,
)
    requires
        login_trace(input, stages, events, actions),
        stages[0] is ByEmail,
        events.len() > 0,
        actions.last() == LoginAction::Reply(Ok(LoginResult::NotFound)),
    ensures
        events.len() == 2,
        events[0] == LoginEvent::AccountFound(None),
        events[1] == LoginEvent::AccountFound(None),
{
    let k = events.len() - 1;
    assert(login_next(input, stages[k], events[k], stages[k + 1], actions[k]));
    lemma_lookup_stages(input, stages, events, actions, k);
}

} // verus!
