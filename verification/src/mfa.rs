//! Multi-factor authentication with TOTP: enrollment, teardown, status, and
//! the exchange of an MFA-login token and a second factor for a session.

use crate::cache::{mfa_login_token_key, security_of_code, MfaLoginToken, PendingTotpSetup};
use crate::crypto::spec_base32;
use crate::datetime::{now_primitive, to_unix};
use crate::identity::ServiceError;
use crate::messages::UserLoginEvent;
use crate::model::{AccountEntity, AccountId, SessionId, UserTotp};
use crate::session::CreateSession;
use crate::datetime::Timestamp;
use crate::totp::{
    build_totp, check_code_at, code_accepted, generate_recovery_codes, generate_secret_bytes,
    hash_recovery_code, is_minted_recovery_code, otpauth_uri, qr_png_base64, recovery_code_hash_of,
    secret_base32, spec_secret_base32, spec_totp_qr, spec_totp_url, MIN_SECRET_BYTES,
    RECOVERY_CODE_COUNT, TOTP_ISSUER,
};
use vstd::prelude::*;
use vstd::utf8::{encode_utf8, is_ascii_chars, is_ascii_chars_encode_utf8};
use vstd::string::StringExecFns;

verus! {

/// The material a client needs to finish TOTP enrollment.
#[derive(Debug, Clone)]
pub struct TotpEnrollmentStart {
    pub secret_base32: String,
    pub otpauth_uri: String,
    pub qr_png_base64: String,
}

/// Begin TOTP enrollment for a user.
pub struct StartTotpEnrollment {
    pub user_id: AccountId,
}

/// Outcome of [`FinishTotpEnrollment`].
#[derive(Debug, Clone)]
pub enum FinishTotpEnrollmentResult {
    /// Enrollment succeeded; carries the one-time recovery codes (shown once).
    Success(Vec<String>),
    /// The submitted code did not match the pending secret.
    InvalidCode,
    /// No pending enrollment exists (expired or never started).
    NoPending,
    /// TOTP is already enabled for this user.
    AlreadyEnabled,
}

/// Confirm the first TOTP code and enable MFA.
pub struct FinishTotpEnrollment {
    pub user_id: AccountId,
    pub code: String,
}

/// Outcome of [`DisableMfa`].
#[derive(Debug, Clone, Copy, PartialEq, Eq, Structural)]
pub enum DisableMfaResult {
    Success,
    InvalidCode,
    NotEnabled,
}

/// Disable MFA for a user after verifying a current code.
pub struct DisableMfa {
    pub user_id: AccountId,
    pub code: String,
}

/// A user's current MFA status.
#[derive(Debug, Clone, Copy, PartialEq, Eq, Structural)]
pub struct MfaStatus {
    pub totp_enabled: bool,
    pub remaining_recovery_codes: u32,
}

/// Report a user's MFA status.
pub struct GetMfaStatus {
    pub user_id: AccountId,
}

/// Outcome of [`VerifyMfaLogin`].
#[derive(Clone)]
pub enum VerifyMfaLoginResult {
    Success(SessionId),
    /// The MFA-login token is unknown or expired.
    InvalidToken,
    /// The submitted second-factor code was wrong.
    InvalidCode,
}

/// Exchange an MFA-login token and a second factor for a session.
pub struct VerifyMfaLogin {
    pub mfa_token: [u8; 32],
    pub code: String,
}

/// Longest email (in UTF-8 bytes) whose provisioning URI still fits a QR code.
pub const MAX_ENROLL_EMAIL_BYTES: usize = 746;

/// Start an enrollment for an account: a fresh 20-byte secret, its base32
/// text, and the provisioning URI and QR code labelled with issuer
/// [`TOTP_ISSUER`] and the account's email; the pending record holds the
/// secret. A missing account is not found; an email the TOTP builder refuses
/// (empty, or holding `:`) is an internal error; any other email of at most
/// [`MAX_ENROLL_EMAIL_BYTES`] bytes starts an enrollment.
pub fn start_enrollment(user_id: AccountId, account: Option<AccountEntity>) -> (r: Result<
    (TotpEnrollmentStart, PendingTotpSetup),
    ServiceError,
>)
    ensures
        account is None ==> r matches Err(ServiceError::NotFound),
        r matches Err(e) ==> (account is None || e is BusinessPanic),
        r matches Ok(p) ==> (account matches Some(a) && {
            &&& p.1.user_id == user_id.0
            &&& p.1.secret@.len() == 20
            &&& p.0.secret_base32@ == spec_secret_base32(p.1.secret@)
            &&& p.0.secret_base32@.len() == 32
            &&& p.0.otpauth_uri@ == spec_totp_url(p.1.secret@, TOTP_ISSUER@, a.email@)
            &&& p.0.otpauth_uri@.subrange(0, 15) == "otpauth://totp/"@
            &&& p.0.qr_png_base64@ == spec_totp_qr(p.1.secret@, TOTP_ISSUER@, a.email@)
            &&& p.0.qr_png_base64@.len() > 0
        }),
        account matches Some(a) ==> (a.email@.len() == 0 || a.email@.contains(':')) ==> r is Err,
        account matches Some(a) ==> (a.email@.len() > 0 && !a.email@.contains(':') && encode_utf8(a.email@).len()
            <= MAX_ENROLL_EMAIL_BYTES) ==> r is Ok,
{
    proof {
        reveal_strlit("Airi");
        assert(is_ascii_chars(TOTP_ISSUER@));
        is_ascii_chars_encode_utf8(TOTP_ISSUER@);
        assert(!TOTP_ISSUER@.contains(':'));
    }
    match account {
        None => Err(ServiceError::NotFound),
        Some(a) => {
            let secret = generate_secret_bytes();
            let totp = build_totp(secret.as_slice(), a.email.as_str())?;
            let uri = otpauth_uri(&totp)?;
            let qr = qr_png_base64(&totp)?;
            let start = TotpEnrollmentStart {
                secret_base32: secret_base32(secret.as_slice()),
                otpauth_uri: uri,
                qr_png_base64: qr,
            };
            Ok((start, PendingTotpSetup { user_id: user_id.0, secret }))
        },
    }
}

/// What finishing an enrollment does once its checks are made.
pub enum FinishStep {
    Reply(FinishTotpEnrollmentResult),
    /// Delete the pending record, store the secret, store the hashes of the
    /// codes, and answer success with the codes.
    Enroll { secret: Vec<u8>, codes: Vec<String>, code_hashes: Vec<Vec<u8>> },
}

/// Whether a finish step enrolls `secret` with ten fresh recovery codes and
/// their hashes.
pub open spec fn enrolls(r: FinishStep, secret: Seq<u8>) -> bool {
    r matches FinishStep::Enroll { secret: s, codes, code_hashes } && {
        &&& s@ == secret
        &&& codes@.len() == RECOVERY_CODE_COUNT
        &&& code_hashes@.len() == codes@.len()
        &&& forall|i: int| 0 <= i < codes@.len() ==> is_minted_recovery_code(#[trigger] codes@[i]@)
        &&& forall|i: int|
            0 <= i < codes@.len() ==> (#[trigger] code_hashes@[i])@ == recovery_code_hash_of(codes@[i]@)
    }
}

/// What follows the check of the first code against the pending secret: a
/// rejected code is an invalid code; an accepted one enrolls the secret with
/// ten fresh recovery codes and their hashes.
pub fn enroll_after_check(accepted: bool, secret: Vec<u8>) -> (r: FinishStep)
    ensures
        !accepted ==> r matches FinishStep::Reply(FinishTotpEnrollmentResult::InvalidCode),
        accepted ==> enrolls(r, secret@),
{
    if !accepted {
        return FinishStep::Reply(FinishTotpEnrollmentResult::InvalidCode);
    }
    let codes = generate_recovery_codes();
    let mut code_hashes: Vec<Vec<u8>> = Vec::new();
    let mut i: usize = 0;
    while i < codes.len()
        invariant
            i <= codes@.len(),
            code_hashes@.len() == i,
            forall|j: int|
                0 <= j < i ==> (#[trigger] code_hashes@[j])@ == recovery_code_hash_of(codes@[j]@),
        decreases codes@.len() - i,
    {
        code_hashes.push(hash_recovery_code(codes[i].as_str()));
        i = i + 1;
    }
    FinishStep::Enroll { secret, codes, code_hashes }
}

/// Decide the end of an enrollment at `now`: already enabled, no pending
/// secret, or a code the pending secret rejects answer at once; otherwise
/// enroll with ten fresh recovery codes and their hashes.
pub fn finish_enrollment(already_enabled: bool, pending: Option<PendingTotpSetup>, code: &str, now: Timestamp) -> (r:
    FinishStep)
    ensures
        already_enabled ==> r matches FinishStep::Reply(FinishTotpEnrollmentResult::AlreadyEnabled),
        !already_enabled && pending is None ==> r matches FinishStep::Reply(
            FinishTotpEnrollmentResult::NoPending,
        ),
        !already_enabled ==> (pending matches Some(p) ==> if code_accepted(p.secret@, code@, now) {
            enrolls(r, p.secret@)
        } else {
            r matches FinishStep::Reply(FinishTotpEnrollmentResult::InvalidCode)
        }),
{
    if already_enabled {
        return FinishStep::Reply(FinishTotpEnrollmentResult::AlreadyEnabled);
    }
    match pending {
        None => FinishStep::Reply(FinishTotpEnrollmentResult::NoPending),
        Some(p) => {
            let accepted = check_code_at(p.secret.as_slice(), code, now);
            enroll_after_check(accepted, p.secret)
        },
    }
}

/// The answer of a finished enrollment: an immediate reply is the answer;
/// an enrollment, once its writes are done, answers success with its
/// recovery codes.
pub fn finish_reply(step: FinishStep) -> (r: FinishTotpEnrollmentResult)
    ensures
        step matches FinishStep::Reply(x) ==> r == x,
        step matches FinishStep::Enroll { codes, .. } ==> r == FinishTotpEnrollmentResult::Success(codes),
{
    match step {
        FinishStep::Reply(x) => x,
        FinishStep::Enroll { codes, .. } => FinishTotpEnrollmentResult::Success(codes),
    }
}

/// What disabling MFA does next.
pub enum DisableStep {
    Reply(DisableMfaResult),
    /// Try to consume a recovery code with this hash; report whether it was.
    TryRecoveryCode(Vec<u8>),
    /// Delete the secret and the recovery codes, then answer success.
    Remove,
}

/// What follows the check of a code against the enabled secret: an accepted
/// code removes MFA; otherwise the code is tried as a recovery code.
pub fn disable_after_code_check(accepted: bool, code: &str) -> (r: DisableStep)
    ensures
        accepted ==> r is Remove,
        !accepted ==> (r matches DisableStep::TryRecoveryCode(h) && h@ == recovery_code_hash_of(code@)),
{
    if accepted {
        DisableStep::Remove
    } else {
        DisableStep::TryRecoveryCode(hash_recovery_code(code))
    }
}

/// First step of disabling MFA at `now`: not enabled answers at once; a code
/// the secret accepts removes MFA; otherwise the code is tried as a recovery code.
pub fn disable_check(totp: Option<UserTotp>, code: &str, now: Timestamp) -> (r: DisableStep)
    ensures
        totp is None ==> r matches DisableStep::Reply(DisableMfaResult::NotEnabled),
        totp matches Some(t) ==> if code_accepted(t.secret@, code@, now) {
            r is Remove
        } else {
            r matches DisableStep::TryRecoveryCode(h) && h@ == recovery_code_hash_of(code@)
        },
{
    match totp {
        None => DisableStep::Reply(DisableMfaResult::NotEnabled),
        Some(t) => {
            let accepted = check_code_at(t.secret.as_slice(), code, now);
            disable_after_code_check(accepted, code)
        },
    }
}

/// Second step of disabling MFA: a consumed recovery code removes MFA, an
/// unknown one is an invalid code.
pub fn disable_after_recovery(consumed: bool) -> (r: DisableStep)
    ensures
        consumed ==> r is Remove,
        !consumed ==> r matches DisableStep::Reply(DisableMfaResult::InvalidCode),
{
    if consumed {
        DisableStep::Remove
    } else {
        DisableStep::Reply(DisableMfaResult::InvalidCode)
    }
}

/// The answer of a disable step: an immediate reply is the answer; a
/// removal, once done, answers success; a recovery-code attempt has no answer
/// yet (see [`disable_after_recovery`]).
pub fn disable_reply(step: DisableStep) -> (r: Option<DisableMfaResult>)
    ensures
        step matches DisableStep::Reply(x) ==> r == Some(x),
        step is Remove ==> r == Some(DisableMfaResult::Success),
        step is TryRecoveryCode ==> r is None,
{
    match step {
        DisableStep::Reply(x) => Some(x),
        DisableStep::Remove => Some(DisableMfaResult::Success),
        DisableStep::TryRecoveryCode(_) => None,
    }
}

/// The status report: whether TOTP is enabled and how many recovery codes
/// remain (a negative count reads as zero; the count is kept modulo 2^32).
pub fn mfa_status(totp_enabled: bool, remaining: i64) -> (r: MfaStatus)
    ensures
        r.totp_enabled == totp_enabled,
        r.remaining_recovery_codes == (if remaining <= 0 {
            0
        } else {
            remaining % 0x1_0000_0000
        }),
{
    let clamped: i64 = if remaining < 0 { 0 } else { remaining };
    let low: u64 = (clamped as u64) % 0x1_0000_0000;
    MfaStatus { totp_enabled, remaining_recovery_codes: low as u32 }
}

/// The MFA token a request carries: exactly 32 bytes, or none.
pub fn parse_mfa_token(bytes: &Vec<u8>) -> (r: Option<[u8; 32]>)
    ensures
        r is Some <==> bytes@.len() == 32,
        r matches Some(t) ==> t@ == bytes@,
{
    if bytes.len() != 32 {
        return None;
    }
    let mut token = [0u8; 32];
    let mut i: usize = 0;
    while i < 32
        invariant
            bytes@.len() == 32,
            i <= 32,
            token@.len() == 32,
            forall|j: int| 0 <= j < i ==> token@[j] == bytes@[j],
        decreases 32 - i,
    {
        token.set(i, bytes[i]);
        i = i + 1;
    }
    assert(token@ =~= bytes@);
    Some(token)
}

/// Where an MFA-login exchange stands.
pub enum MfaLoginStage {
    /// Waiting for the token record.
    TokenLookup,
    /// Waiting for the user's TOTP secret.
    SecretLookup { token: MfaLoginToken },
    /// Waiting for whether the code was a (now consumed) recovery code.
    Recovery { token: MfaLoginToken },
    /// The second factor is confirmed; waiting for the token to be deleted.
    Consume { token: MfaLoginToken },
    /// Waiting for the session to be created.
    SessionOpen { token: MfaLoginToken },
    /// Waiting for the login event to be published.
    Announce { session_id: SessionId },
    /// Answered.
    Done,
}

/// What the caller reports back.
pub enum MfaLoginEvent {
    TokenRead(Option<MfaLoginToken>),
    SecretFound(Option<UserTotp>),
    RecoveryConsumed(bool),
    TokenDeleted,
    SessionCreated(SessionId),
    EventSent,
}

/// What the caller is to do next.
pub enum MfaLoginAction {
    ReadToken(String),
    FindSecret(u128),
    ConsumeRecoveryCode { user_id: u128, code_hash: Vec<u8> },
    DeleteToken(String),
    CreateSession(CreateSession),
    SendLoginEvent(UserLoginEvent),
    Reply(Result<VerifyMfaLoginResult, ServiceError>),
}

/// An MFA-login exchange in progress; `now` is the instant codes are
/// checked at.
pub struct MfaLoginFlow {
    pub input: VerifyMfaLogin,
    pub now: Timestamp,
    pub stage: MfaLoginStage,
}

/// Whether an action ends the exchange with a panic for an unexpected event.
pub open spec fn mfa_unexpected(next: MfaLoginStage, action: MfaLoginAction) -> bool {
    next is Done && action matches MfaLoginAction::Reply(Err(ServiceError::BusinessPanic(_)))
}

/// The key of the token being exchanged.
pub open spec fn token_key(input: VerifyMfaLogin) -> Seq<char> {
    "mfa_login:"@ + spec_base32(input.mfa_token@)
}

/// What follows the TOTP check of the submitted code: an accepted code
/// deletes the token; otherwise the code is tried as a recovery code of the
/// token's user.
pub open spec fn after_totp_check(
    input: VerifyMfaLogin,
    token: MfaLoginToken,
    accepted: bool,
    next: MfaLoginStage,
    action: MfaLoginAction,
) -> bool {
    if accepted {
        next == (MfaLoginStage::Consume { token }) && (action matches MfaLoginAction::DeleteToken(k) && k@
            == token_key(input))
    } else {
        next == (MfaLoginStage::Recovery { token }) && (action matches MfaLoginAction::ConsumeRecoveryCode {
            user_id,
            code_hash,
        } && user_id == token.user_id && code_hash@ == recovery_code_hash_of(input.code@))
    }
}

/// One transition of an MFA-login exchange whose codes are checked at `now`.
/// The token is deleted only once the second factor is confirmed: a TOTP code
/// the secret accepts at `now`, or a recovery code that was consumed; a wrong
/// code leaves the token for a retry.
pub open spec fn mfa_login_next(
    input: VerifyMfaLogin,
    now: Timestamp,
    stage: MfaLoginStage,
    event: MfaLoginEvent,
    next: MfaLoginStage,
    action: MfaLoginAction,
) -> bool {
    match stage {
        MfaLoginStage::TokenLookup => match event {
            MfaLoginEvent::TokenRead(None) => next is Done && action == MfaLoginAction::Reply(
                Ok(VerifyMfaLoginResult::InvalidToken),
            ),
            MfaLoginEvent::TokenRead(Some(t)) => next == (MfaLoginStage::SecretLookup { token: t })
                && action == MfaLoginAction::FindSecret(t.user_id),
            _ => mfa_unexpected(next, action),
        },
        MfaLoginStage::SecretLookup { token } => match event {
            MfaLoginEvent::SecretFound(None) => next is Done && action == MfaLoginAction::Reply(
                Ok(VerifyMfaLoginResult::InvalidCode),
            ),
            MfaLoginEvent::SecretFound(Some(s)) => after_totp_check(
                input,
                token,
                code_accepted(s.secret@, input.code@, now),
                next,
                action,
            ),
            _ => mfa_unexpected(next, action),
        },
        MfaLoginStage::Recovery { token } => match event {
            MfaLoginEvent::RecoveryConsumed(false) => next is Done && action == MfaLoginAction::Reply(
                Ok(VerifyMfaLoginResult::InvalidCode),
            ),
            MfaLoginEvent::RecoveryConsumed(true) => next == (MfaLoginStage::Consume { token }) && (
            action matches MfaLoginAction::DeleteToken(k) && k@ == token_key(input)),
            _ => mfa_unexpected(next, action),
        },
        MfaLoginStage::Consume { token } => match event {
            MfaLoginEvent::TokenDeleted => next == (MfaLoginStage::SessionOpen { token })
                && (action matches MfaLoginAction::CreateSession(c) && {
                &&& c.user_id == AccountId(token.user_id)
                &&& c.ip@ == token.ip@
                &&& c.user_agent@ == token.user_agent@
                &&& c.security_option == security_of_code(token.security_option)
            }),
            _ => mfa_unexpected(next, action),
        },
        MfaLoginStage::SessionOpen { token } => match event {
            MfaLoginEvent::SessionCreated(sid) => next == (MfaLoginStage::Announce { session_id: sid })
                && (action matches MfaLoginAction::SendLoginEvent(e) && {
                &&& e.user_id == token.user_id
                &&& e.ip@ == token.ip@
                &&& e.user_agent@ == token.user_agent@
            }),
            _ => mfa_unexpected(next, action),
        },
        MfaLoginStage::Announce { session_id } => match event {
            MfaLoginEvent::EventSent => next is Done && action == MfaLoginAction::Reply(
                Ok(VerifyMfaLoginResult::Success(session_id)),
            ),
            _ => mfa_unexpected(next, action),
        },
        MfaLoginStage::Done => mfa_unexpected(next, action),
    }
}

/// Whether a run of an MFA-login exchange follows its transitions.
pub open spec fn mfa_login_trace(
    input: VerifyMfaLogin,
    now: Timestamp,
    stages: Seq<MfaLoginStage>,
    events: Seq<MfaLoginEvent>,
    actions: Seq<MfaLoginAction>,
) -> bool {
    &&& stages.len() == events.len() + 1
    &&& actions.len() == events.len()
    &&& forall|k: int|
        0 <= k < events.len() ==> #[trigger] mfa_login_next(input, now, stages[k], events[k], stages[k + 1], actions[k])
}

/// Whether the `k`-th step deleted the token.
pub open spec fn deletes_token(actions: Seq<MfaLoginAction>, k: int) -> bool {
    actions[k] is DeleteToken
}

/// Whether an event confirms the second factor on its step: a TOTP secret
/// that accepts the submitted code at `now`, or a consumed recovery code.
pub open spec fn confirms_factor(input: VerifyMfaLogin, now: Timestamp, e: MfaLoginEvent) -> bool {
    ||| (e matches MfaLoginEvent::SecretFound(Some(s)) && code_accepted(s.secret@, input.code@, now))
    ||| e == MfaLoginEvent::RecoveryConsumed(true)
}

proof fn lemma_mfa_history(
    input: VerifyMfaLogin,
    now: Timestamp,
    stages: Seq<MfaLoginStage>,
    events: Seq<MfaLoginEvent>,
    actions: Seq<MfaLoginAction>,
    j: int,
)
    requires
        mfa_login_trace(input, now, stages, events, actions),
        stages[0] is TokenLookup,
        0 <= j < stages.len(),
    ensures
        (stages[j] is Consume || stages[j] is SessionOpen || stages[j] is Announce) ==> exists|k: int|
            0 <= k < j && #[trigger] deletes_token(actions, k),
        (stages[j] is TokenLookup || stages[j] is SecretLookup || stages[j] is Recovery) ==> forall|k: int|
            0 <= k < j ==> !#[trigger] deletes_token(actions, k),
    decreases j,
{
    if j > 0 {
        let k = j - 1;
        lemma_mfa_history(input, now, stages, events, actions, k);
        assert(mfa_login_next(input, now, stages[k], events[k], stages[k + 1], actions[k]));
        if stages[j] is Consume {
            if !(stages[k] is Consume || stages[k] is SessionOpen || stages[k] is Announce) {
                assert(deletes_token(actions, k));
            }
        }
    }
}

/// The MFA-login token is consumed only once the second factor is
/// confirmed: every step that deletes it is one where the user's secret
/// accepted the submitted code at the exchange's instant, or where the code
/// was consumed as a recovery code; an exchange that answers success deleted
/// it; one that answers a wrong code never deleted it.
pub proof fn lemma_mfa_token_consumed_only_on_valid_code(
    input: VerifyMfaLogin,
    now: Timestamp,
    stages: Seq<MfaLoginStage>,
    events: Seq<MfaLoginEvent>,
    actions: Seq<MfaLoginAction>,
)
    requires
        mfa_login_trace(input, now, stages, events, actions),
        stages[0] is TokenLookup,
        events.len() > 0,
    ensures
        forall|k: int|
            0 <= k < events.len() && #[trigger] deletes_token(actions, k) ==> confirms_factor(input, now, events[k]),
        actions.last() matches MfaLoginAction::Reply(Ok(VerifyMfaLoginResult::Success(_))) ==> exists|k: int|
            0 <= k < events.len() && #[trigger] deletes_token(actions, k),
        actions.last() == MfaLoginAction::Reply(Ok(VerifyMfaLoginResult::InvalidCode)) ==> forall|k: int|
            0 <= k < events.len() ==> !#[trigger] deletes_token(actions, k),
{
    assert forall|k: int| 0 <= k < events.len() && #[trigger] deletes_token(actions, k) implies confirms_factor(
        input,
        now,
        events[k],
    ) by {
        assert(mfa_login_next(input, now, stages[k], events[k], stages[k + 1], actions[k]));
    }
    let k = events.len() - 1;
    assert(mfa_login_next(input, now, stages[k], events[k], stages[k + 1], actions[k]));
    lemma_mfa_history(input, now, stages, events, actions, k);
}

fn mfa_panic() -> (r: (MfaLoginStage, MfaLoginAction))
    ensures
        mfa_unexpected(r.0, r.1),
{
    (
        MfaLoginStage::Done,
        MfaLoginAction::Reply(Err(ServiceError::BusinessPanic(String::from_str("unexpected mfa login event")))),
    )
}

/// What follows the TOTP check of the submitted code for a token.
pub fn after_secret_check(token: MfaLoginToken, input: &VerifyMfaLogin, accepted: bool) -> (r: (
    MfaLoginStage,
    MfaLoginAction,
))
    ensures
        after_totp_check(*input, token, accepted, r.0, r.1),
{
    if accepted {
        let key = mfa_login_token_key(&input.mfa_token);
        (MfaLoginStage::Consume { token }, MfaLoginAction::DeleteToken(key))
    } else {
        let user_id = token.user_id;
        let code_hash = hash_recovery_code(input.code.as_str());
        (MfaLoginStage::Recovery { token }, MfaLoginAction::ConsumeRecoveryCode { user_id, code_hash })
    }
}

impl MfaLoginFlow {
    /// Begin an exchange whose codes are checked at `now`: read the token record.
    pub fn start(input: VerifyMfaLogin, now: Timestamp) -> (r: (MfaLoginFlow, MfaLoginAction))
        ensures
            r.0.input == input,
            r.0.now == now,
            r.0.stage is TokenLookup,
            r.1 matches MfaLoginAction::ReadToken(k) && k@ == token_key(input),
    {
        let key = mfa_login_token_key(&input.mfa_token);
        (MfaLoginFlow { input, now, stage: MfaLoginStage::TokenLookup }, MfaLoginAction::ReadToken(key))
    }

    /// Advance the exchange with what the last action produced.
    pub fn step(self, event: MfaLoginEvent) -> (r: (MfaLoginFlow, MfaLoginAction))
        ensures
            r.0.input == self.input,
            r.0.now == self.now,
            mfa_login_next(self.input, self.now, self.stage, event, r.0.stage, r.1),
    {
        let input = self.input;
        let now = self.now;
        let (stage, action) = match self.stage {
            MfaLoginStage::TokenLookup => match event {
                MfaLoginEvent::TokenRead(None) => (
                    MfaLoginStage::Done,
                    MfaLoginAction::Reply(Ok(VerifyMfaLoginResult::InvalidToken)),
                ),
                MfaLoginEvent::TokenRead(Some(t)) => {
                    let user = t.user_id;
                    (MfaLoginStage::SecretLookup { token: t }, MfaLoginAction::FindSecret(user))
                },
                _ => mfa_panic(),
            },
            MfaLoginStage::SecretLookup { token } => match event {
                MfaLoginEvent::SecretFound(None) => (
                    MfaLoginStage::Done,
                    MfaLoginAction::Reply(Ok(VerifyMfaLoginResult::InvalidCode)),
                ),
                MfaLoginEvent::SecretFound(Some(s)) => {
                    let accepted = check_code_at(s.secret.as_slice(), input.code.as_str(), now);
                    after_secret_check(token, &input, accepted)
                },
                _ => mfa_panic(),
            },
            MfaLoginStage::Recovery { token } => match event {
                MfaLoginEvent::RecoveryConsumed(false) => (
                    MfaLoginStage::Done,
                    MfaLoginAction::Reply(Ok(VerifyMfaLoginResult::InvalidCode)),
                ),
                MfaLoginEvent::RecoveryConsumed(true) => {
                    let key = mfa_login_token_key(&input.mfa_token);
                    (MfaLoginStage::Consume { token }, MfaLoginAction::DeleteToken(key))
                },
                _ => mfa_panic(),
            },
            MfaLoginStage::Consume { token } => match event {
                MfaLoginEvent::TokenDeleted => {
                    let create = CreateSession {
                        user_id: AccountId(token.user_id),
                        ip: token.ip.clone(),
                        user_agent: token.user_agent.clone(),
                        security_option: crate::cache::security_from_u8(token.security_option),
                    };
                    (MfaLoginStage::SessionOpen { token }, MfaLoginAction::CreateSession(create))
                },
                _ => mfa_panic(),
            },
            MfaLoginStage::SessionOpen { token } => match event {
                MfaLoginEvent::SessionCreated(sid) => {
                    let announce = UserLoginEvent {
                        user_id: token.user_id,
                        ip: token.ip.clone(),
                        user_agent: token.user_agent.clone(),
                        at: to_unix(now_primitive()),
                    };
                    (MfaLoginStage::Announce { session_id: sid }, MfaLoginAction::SendLoginEvent(announce))
                },
                _ => mfa_panic(),
            },
            MfaLoginStage::Announce { session_id } => match event {
                MfaLoginEvent::EventSent => (
                    MfaLoginStage::Done,
                    MfaLoginAction::Reply(Ok(VerifyMfaLoginResult::Success(session_id))),
                ),
                _ => mfa_panic(),
            },
            MfaLoginStage::Done => mfa_panic(),
        };
        (MfaLoginFlow { input, now, stage }, action)
    }
}

} // verus!
