//! Administrative mutations as one state machine: resolve the caller's role,
//! enforce the operation's role table, perform its writes, record the audit
//! entry, answer. The caller performs each action and feeds back what it got.

use crate::admin::{
    audit_record, authorize, authorize_set_user_role, ban_record, check_config_value, config_role,
    free_slot, grant_expiry_ok, invalidate_step, invitation_role, moderation_role, plan_slot_grant,
    role_change_permitted, role_of_spec, unban_record, AdminOperation, AuditRecord, BanUser,
    GrantInvitations, InsertSuspense, InvalidateInvite, InvalidateStep, NewInvite, SetServerConfig,
    SetUserRole, SlotGrant, UnbanUser, ADMIN_GRANT_SOURCE,
};
use crate::datetime::Timestamp;
use crate::identity::ServiceError;
use crate::invitation::after_secs;
use crate::json::spec_json_valid;
use crate::model::{AccountId, InviteId, InviteStatus, MembershipEntity, SuspenseStatus};
use crate::roles::AdminRole;
use crate::session::TerminateAllSessions;
use vstd::prelude::*;
use vstd::string::StringExecFns;

verus! {

/// An administrative mutation.
pub enum AdminRequest {
    Ban(BanUser),
    Unban(UnbanUser),
    SetRole(SetUserRole),
    Grant(GrantInvitations),
    Invalidate(InvalidateInvite),
    SetConfig(SetServerConfig),
}

/// What a mutation answers on success.
#[derive(Debug, Clone, Copy, PartialEq, Eq, Structural)]
pub enum AdminReply {
    Done,
    /// The owner's number of usable free slots after a grant.
    FreeSlots(i64),
    /// Whether an invite was invalidated.
    Invalidated(bool),
}

/// A write an administrative mutation asks for.
pub enum AdminWrite {
    InsertSuspense(InsertSuspense),
    TerminateAllSessions(TerminateAllSessions),
    SetAdminRole { account: AccountId, role: Option<AdminRole> },
    CreateInvite(NewInvite),
    /// Invalidate an invite that is `Free` or `Pending`; report the status
    /// it had (nothing when it was in neither).
    InvalidateInvite(InviteId),
    ExpirePendingInvitationsByInvite(InviteId),
    SetConfigValue { key: String, value: String },
    AddAuditLog(AuditRecord),
}

/// What the caller is to do next.
pub enum AdminAction {
    FindMembership(AccountId),
    Write(AdminWrite),
    CountFreeInvites { owner: AccountId, now: Timestamp },
    Reply(Result<AdminReply, ServiceError>),
}

/// What the caller reports back.
pub enum AdminEvent {
    MembershipFound(Option<MembershipEntity>),
    Written,
    Invalidated(Option<InviteStatus>),
    Counted(i64),
}

/// What follows the audit entry.
#[derive(Debug, Clone, Copy, PartialEq, Eq, Structural)]
pub enum AfterAudit {
    Reply(AdminReply),
    CountFreeSlots,
}

/// Where a mutation stands.
pub enum AdminStage {
    /// Waiting for the caller's membership.
    Authorize,
    /// A ban's suspension row is being written.
    Suspending,
    /// The operation's last write is being performed.
    Writing,
    /// Free slots are being created; `left` more after this one.
    Minting { grant: SlotGrant, left: i32 },
    /// Waiting for the status the invalidated invite had.
    Invalidating,
    /// The invalidated invite's pending invitations are being expired.
    Expiring,
    /// The audit entry is being written.
    Auditing { after: AfterAudit },
    /// Waiting for the owner's free-slot count.
    Counting,
    /// Answered.
    Done,
}

/// A mutation in progress; `now` is the time it started.
pub struct AdminFlow {
    pub request: AdminRequest,
    pub now: Timestamp,
    pub stage: AdminStage,
}

/// The acting administrator of a request.
pub open spec fn actor_of(req: AdminRequest) -> AccountId {
    match req {
        AdminRequest::Ban(b) => b.actor,
        AdminRequest::Unban(u) => u.actor,
        AdminRequest::SetRole(r) => r.actor,
        AdminRequest::Grant(g) => g.actor,
        AdminRequest::Invalidate(i) => i.actor,
        AdminRequest::SetConfig(c) => c.actor,
    }
}

/// Whether a role may perform a request (for a role change, also whether
/// it may grant that role).
pub open spec fn request_allows(req: AdminRequest, role: AdminRole) -> bool {
    match req {
        AdminRequest::Ban(_) => moderation_role(role),
        AdminRequest::Unban(_) => moderation_role(role),
        AdminRequest::SetRole(r) => moderation_role(role) && role_change_permitted(role, r.role),
        AdminRequest::Grant(_) => invitation_role(role),
        AdminRequest::Invalidate(_) => invitation_role(role),
        AdminRequest::SetConfig(_) => config_role(role),
    }
}

/// Whether a membership authorizes a request.
pub open spec fn authorizes(req: AdminRequest, m: Option<MembershipEntity>) -> bool {
    role_of_spec(m) matches Some(role) && request_allows(req, role)
}

/// Whether an audit record is the one a request leaves.
pub open spec fn audits(req: AdminRequest, rec: AuditRecord) -> bool {
    &&& rec.admin == actor_of(req)
    &&& match req {
        AdminRequest::Ban(b) => rec.operation_name@ == BanUser::name() && rec.operation_content@ == b.content(),
        AdminRequest::Unban(u) => rec.operation_name@ == UnbanUser::name() && rec.operation_content@ == u.content(),
        AdminRequest::SetRole(r) => rec.operation_name@ == SetUserRole::name() && rec.operation_content@
            == r.content(),
        AdminRequest::Grant(g) => rec.operation_name@ == GrantInvitations::name() && rec.operation_content@
            == g.content(),
        AdminRequest::Invalidate(i) => rec.operation_name@ == InvalidateInvite::name()
            && rec.operation_content@ == i.content(),
        AdminRequest::SetConfig(c) => rec.operation_name@ == SetServerConfig::name()
            && rec.operation_content@ == c.content(),
    }
}

/// Whether the start time suits a request: the expiry of a grant of some
/// slots must be computable from it.
pub open spec fn start_ok(req: AdminRequest, now: Timestamp) -> bool {
    match req {
        AdminRequest::Grant(g) => g.count > 0 ==> grant_expiry_ok(now, g.expire_in_secs),
        _ => true,
    }
}

/// Whether a step can be taken: a membership that authorizes the request
/// leads to its first write, which for a grant of some slots needs its
/// expiry to be computable.
pub open spec fn step_ok(req: AdminRequest, now: Timestamp, stage: AdminStage, event: AdminEvent) -> bool {
    (stage is Authorize && (event matches AdminEvent::MembershipFound(m) && authorizes(req, m))) ==> start_ok(
        req,
        now,
    )
}

/// The slot grant of a grant request at `now`.
pub open spec fn grant_of(g: GrantInvitations, now: Timestamp) -> SlotGrant {
    SlotGrant {
        owner: g.target,
        count: g.count,
        will_expire_at: match g.expire_in_secs {
            Some(s) => Some(after_secs(now, s)),
            None => None,
        },
    }
}

/// Whether an invite row is a free slot of a grant.
pub open spec fn slot_of(inv: NewInvite, grant: SlotGrant) -> bool {
    &&& inv.owner == grant.owner
    &&& inv.status == InviteStatus::Free
    &&& inv.source@ == ADMIN_GRANT_SOURCE@
    &&& inv.will_expire_at == grant.will_expire_at
}

/// Whether an action ends the flow with a panic for an unexpected event.
pub open spec fn admin_unexpected(next: AdminStage, action: AdminAction) -> bool {
    next is Done && action matches AdminAction::Reply(Err(ServiceError::BusinessPanic(_)))
}

/// Whether the action writes the request's audit entry and the flow then
/// does `after`.
pub open spec fn audit_step(req: AdminRequest, after: AfterAudit, next: AdminStage, action: AdminAction) -> bool {
    next == (AdminStage::Auditing { after }) && (action matches AdminAction::Write(AdminWrite::AddAuditLog(rec))
        && audits(req, rec))
}

/// What an authorized request does first.
pub open spec fn first_write(req: AdminRequest, now: Timestamp, next: AdminStage, action: AdminAction) -> bool {
    match req {
        AdminRequest::Ban(b) => next is Suspending && (action matches AdminAction::Write(
            AdminWrite::InsertSuspense(s),
        ) && s.account_id == b.target && s.status == SuspenseStatus::Suspended && s.reason@ == b.reason@
            && s.operated_by == Some(b.actor)),
        AdminRequest::Unban(u) => next is Writing && (action matches AdminAction::Write(
            AdminWrite::InsertSuspense(s),
        ) && s.account_id == u.target && s.status == SuspenseStatus::Active && s.reason@.len() == 0
            && s.operated_by == Some(u.actor)),
        AdminRequest::SetRole(r) => next is Writing && action == AdminAction::Write(
            AdminWrite::SetAdminRole { account: r.target, role: r.role },
        ),
        AdminRequest::Grant(g) => if g.count <= 0 {
            next is Done && action matches AdminAction::Reply(Err(ServiceError::InvalidInput))
        } else {
            next == (AdminStage::Minting { grant: grant_of(g, now), left: (g.count - 1) as i32 }) && (
            action matches AdminAction::Write(AdminWrite::CreateInvite(inv)) && slot_of(inv, grant_of(g, now)))
        },
        AdminRequest::Invalidate(i) => next is Invalidating && action == AdminAction::Write(
            AdminWrite::InvalidateInvite(InviteId(i.invite_id)),
        ),
        AdminRequest::SetConfig(c) => if !spec_json_valid(c.value@) {
            next is Done && action matches AdminAction::Reply(Err(ServiceError::InvalidInput))
        } else {
            next is Writing && (action matches AdminAction::Write(AdminWrite::SetConfigValue { key, value })
                && key@ == c.key@ && value@ == c.value@)
        },
    }
}

/// One transition of an administrative mutation.
pub open spec fn admin_next(
    req: AdminRequest,
    now: Timestamp,
    stage: AdminStage,
    event: AdminEvent,
    next: AdminStage,
    action: AdminAction,
) -> bool {
    match stage {
        AdminStage::Authorize => match event {
            AdminEvent::MembershipFound(m) => if !authorizes(req, m) {
                next is Done && action matches AdminAction::Reply(Err(ServiceError::PermissionsDenied))
            } else {
                first_write(req, now, next, action)
            },
            _ => admin_unexpected(next, action),
        },
        AdminStage::Suspending => match (event, req) {
            (AdminEvent::Written, AdminRequest::Ban(b)) => next is Writing && action == AdminAction::Write(
                AdminWrite::TerminateAllSessions(TerminateAllSessions { user_id: b.target }),
            ),
            _ => admin_unexpected(next, action),
        },
        AdminStage::Writing => match event {
            AdminEvent::Written => audit_step(req, AfterAudit::Reply(AdminReply::Done), next, action),
            _ => admin_unexpected(next, action),
        },
        AdminStage::Minting { grant, left } => match event {
            AdminEvent::Written => if left > 0 {
                next == (AdminStage::Minting { grant, left: (left - 1) as i32 }) && (action matches AdminAction::Write(
                    AdminWrite::CreateInvite(inv),
                ) && slot_of(inv, grant))
            } else {
                audit_step(req, AfterAudit::CountFreeSlots, next, action)
            },
            _ => admin_unexpected(next, action),
        },
        AdminStage::Invalidating => match (event, req) {
            (AdminEvent::Invalidated(None), _) => next is Done && action == AdminAction::Reply(
                Ok(AdminReply::Invalidated(false)),
            ),
            (AdminEvent::Invalidated(Some(InviteStatus::Pending)), AdminRequest::Invalidate(i)) => next is Expiring
                && action == AdminAction::Write(AdminWrite::ExpirePendingInvitationsByInvite(InviteId(i.invite_id))),
            (AdminEvent::Invalidated(Some(InviteStatus::Pending)), _) => admin_unexpected(next, action),
            (AdminEvent::Invalidated(Some(_)), _) => audit_step(
                req,
                AfterAudit::Reply(AdminReply::Invalidated(true)),
                next,
                action,
            ),
            _ => admin_unexpected(next, action),
        },
        AdminStage::Expiring => match event {
            AdminEvent::Written => audit_step(req, AfterAudit::Reply(AdminReply::Invalidated(true)), next, action),
            _ => admin_unexpected(next, action),
        },
        AdminStage::Auditing { after } => match event {
            AdminEvent::Written => match after {
                AfterAudit::Reply(r) => next is Done && action == AdminAction::Reply(Ok(r)),
                AfterAudit::CountFreeSlots => match req {
                    AdminRequest::Grant(g) => next is Counting && action == (AdminAction::CountFreeInvites {
                        owner: g.target,
                        now,
                    }),
                    _ => admin_unexpected(next, action),
                },
            },
            _ => admin_unexpected(next, action),
        },
        AdminStage::Counting => match event {
            AdminEvent::Counted(n) => next is Done && action == AdminAction::Reply(Ok(AdminReply::FreeSlots(n))),
            _ => admin_unexpected(next, action),
        },
        AdminStage::Done => admin_unexpected(next, action),
    }
}

fn admin_panic() -> (r: (AdminStage, AdminAction))
    ensures
        admin_unexpected(r.0, r.1),
{
    (
        AdminStage::Done,
        AdminAction::Reply(Err(ServiceError::BusinessPanic(String::from_str("unexpected admin event")))),
    )
}

fn audit_of(req: &AdminRequest) -> (r: AuditRecord)
    ensures
        audits(*req, r),
{
    match req {
        AdminRequest::Ban(b) => audit_record(b, b.actor),
        AdminRequest::Unban(u) => audit_record(u, u.actor),
        AdminRequest::SetRole(r) => audit_record(r, r.actor),
        AdminRequest::Grant(g) => audit_record(g, g.actor),
        AdminRequest::Invalidate(i) => audit_record(i, i.actor),
        AdminRequest::SetConfig(c) => audit_record(c, c.actor),
    }
}

fn authorize_request(req: &AdminRequest, m: Option<MembershipEntity>) -> (r: bool)
    ensures
        r == authorizes(*req, m),
{
    match req {
        AdminRequest::Ban(_) => authorize::<BanUser>(m).is_ok(),
        AdminRequest::Unban(_) => authorize::<UnbanUser>(m).is_ok(),
        AdminRequest::SetRole(r) => authorize_set_user_role(m, r).is_ok(),
        AdminRequest::Grant(_) => authorize::<GrantInvitations>(m).is_ok(),
        AdminRequest::Invalidate(_) => authorize::<InvalidateInvite>(m).is_ok(),
        AdminRequest::SetConfig(_) => authorize::<SetServerConfig>(m).is_ok(),
    }
}

fn begin(req: &AdminRequest, now: Timestamp) -> (r: (AdminStage, AdminAction))
    requires
        start_ok(*req, now),
    ensures
        first_write(*req, now, r.0, r.1),
{
    match req {
        AdminRequest::Ban(b) => (AdminStage::Suspending, AdminAction::Write(AdminWrite::InsertSuspense(ban_record(b)))),
        AdminRequest::Unban(u) => (AdminStage::Writing, AdminAction::Write(AdminWrite::InsertSuspense(unban_record(u)))),
        AdminRequest::SetRole(r) => (
            AdminStage::Writing,
            AdminAction::Write(AdminWrite::SetAdminRole { account: r.target, role: r.role }),
        ),
        AdminRequest::Grant(g) => match plan_slot_grant(g.target, g.count, g.expire_in_secs, now) {
            Err(e) => (AdminStage::Done, AdminAction::Reply(Err(e))),
            Ok(grant) => {
                let slot = free_slot(&grant, ADMIN_GRANT_SOURCE);
                proof {
                    reveal_strlit("admin_grant");
                }
                (
                    AdminStage::Minting { grant, left: g.count - 1 },
                    AdminAction::Write(AdminWrite::CreateInvite(slot)),
                )
            },
        },
        AdminRequest::Invalidate(i) => (
            AdminStage::Invalidating,
            AdminAction::Write(AdminWrite::InvalidateInvite(InviteId(i.invite_id))),
        ),
        AdminRequest::SetConfig(c) => match check_config_value(c) {
            Err(e) => (AdminStage::Done, AdminAction::Reply(Err(e))),
            Ok(()) => (
                AdminStage::Writing,
                AdminAction::Write(AdminWrite::SetConfigValue { key: c.key.clone(), value: c.value.clone() }),
            ),
        },
    }
}

impl AdminFlow {
    /// Begin a mutation: look up the caller's membership.
    pub fn start(request: AdminRequest, now: Timestamp) -> (r: (AdminFlow, AdminAction))
        ensures
            r.0.request == request,
            r.0.now == now,
            r.0.stage is Authorize,
            r.1 == AdminAction::FindMembership(actor_of(request)),
    {
        let actor = match &request {
            AdminRequest::Ban(b) => b.actor,
            AdminRequest::Unban(u) => u.actor,
            AdminRequest::SetRole(r) => r.actor,
            AdminRequest::Grant(g) => g.actor,
            AdminRequest::Invalidate(i) => i.actor,
            AdminRequest::SetConfig(c) => c.actor,
        };
        (AdminFlow { request, now, stage: AdminStage::Authorize }, AdminAction::FindMembership(actor))
    }

    /// Advance the mutation with what the last action produced.
    pub fn step(self, event: AdminEvent) -> (r: (AdminFlow, AdminAction))
        requires
            step_ok(self.request, self.now, self.stage, event),
        ensures
            r.0.request == self.request,
            r.0.now == self.now,
            admin_next(self.request, self.now, self.stage, event, r.0.stage, r.1),
    {
        let request = self.request;
        let now = self.now;
        let (stage, action) = match self.stage {
            AdminStage::Authorize => match event {
                AdminEvent::MembershipFound(m) => {
                    if !authorize_request(&request, m) {
                        (AdminStage::Done, AdminAction::Reply(Err(ServiceError::PermissionsDenied)))
                    } else {
                        begin(&request, now)
                    }
                },
                _ => admin_panic(),
            },
            AdminStage::Suspending => match (event, &request) {
                (AdminEvent::Written, AdminRequest::Ban(b)) => (
                    AdminStage::Writing,
                    AdminAction::Write(AdminWrite::TerminateAllSessions(TerminateAllSessions { user_id: b.target })),
                ),
                _ => admin_panic(),
            },
            AdminStage::Writing => match event {
                AdminEvent::Written => (
                    AdminStage::Auditing { after: AfterAudit::Reply(AdminReply::Done) },
                    AdminAction::Write(AdminWrite::AddAuditLog(audit_of(&request))),
                ),
                _ => admin_panic(),
            },
            AdminStage::Minting { grant, left } => match event {
                AdminEvent::Written => {
                    if left > 0 {
                        let slot = free_slot(&grant, ADMIN_GRANT_SOURCE);
                        proof {
                            reveal_strlit("admin_grant");
                        }
                        (AdminStage::Minting { grant, left: left - 1 }, AdminAction::Write(AdminWrite::CreateInvite(slot)))
                    } else {
                        (
                            AdminStage::Auditing { after: AfterAudit::CountFreeSlots },
                            AdminAction::Write(AdminWrite::AddAuditLog(audit_of(&request))),
                        )
                    }
                },
                _ => admin_panic(),
            },
            AdminStage::Invalidating => match event {
                AdminEvent::Invalidated(previous) => match (invalidate_step(previous), &request) {
                    (InvalidateStep::Nothing, _) => (
                        AdminStage::Done,
                        AdminAction::Reply(Ok(AdminReply::Invalidated(false))),
                    ),
                    (InvalidateStep::Invalidated { expire_pending: true }, AdminRequest::Invalidate(i)) => (
                        AdminStage::Expiring,
                        AdminAction::Write(AdminWrite::ExpirePendingInvitationsByInvite(InviteId(i.invite_id))),
                    ),
                    (InvalidateStep::Invalidated { expire_pending: true }, _) => admin_panic(),
                    (InvalidateStep::Invalidated { expire_pending: false }, _) => (
                        AdminStage::Auditing { after: AfterAudit::Reply(AdminReply::Invalidated(true)) },
                        AdminAction::Write(AdminWrite::AddAuditLog(audit_of(&request))),
                    ),
                },
                _ => admin_panic(),
            },
            AdminStage::Expiring => match event {
                AdminEvent::Written => (
                    AdminStage::Auditing { after: AfterAudit::Reply(AdminReply::Invalidated(true)) },
                    AdminAction::Write(AdminWrite::AddAuditLog(audit_of(&request))),
                ),
                _ => admin_panic(),
            },
            AdminStage::Auditing { after } => match event {
                AdminEvent::Written => match after {
                    AfterAudit::Reply(r) => (AdminStage::Done, AdminAction::Reply(Ok(r))),
                    AfterAudit::CountFreeSlots => match &request {
                        AdminRequest::Grant(g) => (
                            AdminStage::Counting,
                            AdminAction::CountFreeInvites { owner: g.target, now },
                        ),
                        _ => admin_panic(),
                    },
                },
                _ => admin_panic(),
            },
            AdminStage::Counting => match event {
                AdminEvent::Counted(n) => (AdminStage::Done, AdminAction::Reply(Ok(AdminReply::FreeSlots(n)))),
                _ => admin_panic(),
            },
            AdminStage::Done => admin_panic(),
        };
        (AdminFlow { request, now, stage }, action)
    }
}


/// A run of a mutation: `stages[0]` and `actions[0]` are what `start`
/// gives, and step `i` takes `stages[i]` with `events[i]` to `stages[i + 1]`
/// and `actions[i + 1]`.
pub open spec fn admin_trace(
    req: AdminRequest,
    now: Timestamp,
    stages: Seq<AdminStage>,
    events: Seq<AdminEvent>,
    actions: Seq<AdminAction>,
) -> bool {
    &&& stages.len() == events.len() + 1
    &&& actions.len() == events.len() + 1
    &&& stages[0] is Authorize
    &&& actions[0] == AdminAction::FindMembership(actor_of(req))
    &&& forall|i: int|
        #![trigger events[i]]
        0 <= i < events.len() ==> admin_next(req, now, stages[i], events[i], stages[i + 1], actions[i + 1])
}

/// Whether the run's first report is a membership that authorizes the request.
pub open spec fn authorized_first(req: AdminRequest, events: Seq<AdminEvent>) -> bool {
    events.len() >= 1 && (events[0] matches AdminEvent::MembershipFound(m) && authorizes(req, m))
}

/// Whether an action writes the request's audit entry.
pub open spec fn audit_action(req: AdminRequest, a: AdminAction) -> bool {
    a matches AdminAction::Write(AdminWrite::AddAuditLog(rec)) && audits(req, rec)
}

/// How many invite slots a sequence of actions creates.
pub open spec fn created_slots(actions: Seq<AdminAction>) -> int
    decreases actions.len(),
{
    if actions.len() == 0 {
        0
    } else {
        created_slots(actions.drop_last()) + if actions.last() matches AdminAction::Write(
            AdminWrite::CreateInvite(_),
        ) {
            1int
        } else {
            0int
        }
    }
}

spec fn working(s: AdminStage) -> bool {
    !(s is Authorize) && !(s is Done)
}

spec fn after_ok(after: AfterAudit) -> bool {
    ||| after is CountFreeSlots
    ||| after == AfterAudit::Reply(AdminReply::Done)
    ||| after == AfterAudit::Reply(AdminReply::Invalidated(true))
}

/// What holds of a run at stage `j`.
spec fn admin_inv(
    req: AdminRequest,
    now: Timestamp,
    stages: Seq<AdminStage>,
    events: Seq<AdminEvent>,
    actions: Seq<AdminAction>,
    j: int,
) -> bool {
    &&& 1 <= j ==> !(stages[j] is Authorize)
    &&& 1 <= j && working(stages[j]) ==> authorized_first(req, events)
    &&& stages[j] matches AdminStage::Auditing { after } ==> audit_action(req, actions[j]) && after_ok(after)
    &&& stages[j] is Counting ==> 1 <= j && audit_action(req, actions[j - 1]) && req is Grant
    &&& stages[j] is Minting ==> req is Grant && stages[j]->left >= 0
    &&& req matches AdminRequest::Grant(g) ==> {
        &&& stages[j] matches AdminStage::Minting { grant, left } ==> grant == grant_of(g, now)
            && created_slots(actions.take(j + 1)) == g.count - left
        &&& stages[j] matches AdminStage::Auditing { after } ==> (after is CountFreeSlots ==> created_slots(
            actions.take(j + 1),
        ) == g.count)
        &&& stages[j] is Counting ==> created_slots(actions.take(j + 1)) == g.count
    }
}

proof fn lemma_admin_step(
    req: AdminRequest,
    now: Timestamp,
    stages: Seq<AdminStage>,
    events: Seq<AdminEvent>,
    actions: Seq<AdminAction>,
    j: int,
)
    requires
        admin_trace(req, now, stages, events, actions),
        0 <= j < events.len(),
        admin_inv(req, now, stages, events, actions, j),
    ensures
        admin_inv(req, now, stages, events, actions, j + 1),
{
    assert(admin_next(req, now, stages[j], events[j], stages[j + 1], actions[j + 1]));
    let before = actions.take(j + 1);
    let after = actions.take(j + 2);
    assert(after.drop_last() =~= before);
    assert(after.last() == actions[j + 1]);
    assert(created_slots(after) == created_slots(before) + if actions[j + 1] matches AdminAction::Write(
        AdminWrite::CreateInvite(_),
    ) {
        1int
    } else {
        0int
    });
    if stages[j + 1] is Auditing {
        assert(audit_action(req, actions[j + 1]));
        assert(created_slots(after) == created_slots(before));
        if stages[j + 1] == (AdminStage::Auditing { after: AfterAudit::CountFreeSlots }) {
            assert(stages[j] is Minting);
            assert(stages[j]->left == 0);
        }
    }
    if j == 0 {
        assert(before.drop_last() =~= Seq::<AdminAction>::empty());
        assert(before.last() == actions[0]);
        assert(created_slots(Seq::<AdminAction>::empty()) == 0);
        assert(created_slots(before) == 0);
    }
}

proof fn lemma_admin_inv(
    req: AdminRequest,
    now: Timestamp,
    stages: Seq<AdminStage>,
    events: Seq<AdminEvent>,
    actions: Seq<AdminAction>,
    j: int,
)
    requires
        admin_trace(req, now, stages, events, actions),
        0 <= j <= events.len(),
    ensures
        admin_inv(req, now, stages, events, actions, j),
    decreases j,
{
    if j > 0 {
        lemma_admin_inv(req, now, stages, events, actions, j - 1);
        lemma_admin_step(req, now, stages, events, actions, j - 1);
    }
}

/// Role enforcement: in every run, a write is asked for only after the
/// caller's membership was reported and found to authorize the request.
pub proof fn lemma_writes_need_authorization(
    req: AdminRequest,
    now: Timestamp,
    stages: Seq<AdminStage>,
    events: Seq<AdminEvent>,
    actions: Seq<AdminAction>,
    i: int,
)
    requires
        admin_trace(req, now, stages, events, actions),
        0 <= i < actions.len(),
        actions[i] is Write,
    ensures
        authorized_first(req, events),
{
    lemma_admin_inv(req, now, stages, events, actions, i - 1);
    assert(admin_next(req, now, stages[i - 1], events[i - 1], stages[i], actions[i]));
}

/// Auditing: a mutation that succeeds (other than an invalidation that
/// found nothing to invalidate) has written its audit entry first.
pub proof fn lemma_success_is_audited(
    req: AdminRequest,
    now: Timestamp,
    stages: Seq<AdminStage>,
    events: Seq<AdminEvent>,
    actions: Seq<AdminAction>,
    i: int,
    reply: AdminReply,
)
    requires
        admin_trace(req, now, stages, events, actions),
        0 <= i < actions.len(),
        actions[i] == AdminAction::Reply(Ok(reply)),
        reply != AdminReply::Invalidated(false),
    ensures
        exists|k: int| 0 <= k < i && #[trigger] audit_action(req, actions[k]),
{
    lemma_admin_inv(req, now, stages, events, actions, i - 1);
    assert(admin_next(req, now, stages[i - 1], events[i - 1], stages[i], actions[i]));
    if stages[i - 1] is Counting {
        assert(audit_action(req, actions[i - 2]));
    } else {
        assert(audit_action(req, actions[i - 1]));
    }
}

/// Grants: every invite slot a run creates is a free slot of the target
/// with the grant's expiry, and a grant that answers with the free-slot
/// count has created exactly the requested number of slots.
pub proof fn lemma_grant_creates_requested_slots(
    req: AdminRequest,
    now: Timestamp,
    stages: Seq<AdminStage>,
    events: Seq<AdminEvent>,
    actions: Seq<AdminAction>,
    i: int,
)
    requires
        admin_trace(req, now, stages, events, actions),
        0 <= i < actions.len(),
    ensures
        actions[i] matches AdminAction::Write(AdminWrite::CreateInvite(inv)) ==> (req matches AdminRequest::Grant(g)
            && slot_of(inv, grant_of(g, now))),
        actions[i] matches AdminAction::Reply(Ok(AdminReply::FreeSlots(_))) ==> (req matches AdminRequest::Grant(g)
            && created_slots(actions.take(i)) == g.count),
{
    if i > 0 {
        lemma_admin_inv(req, now, stages, events, actions, i - 1);
        assert(admin_next(req, now, stages[i - 1], events[i - 1], stages[i], actions[i]));
    }
}


/// Role enforcement in terms of the caller's membership: a member without an
/// administrative role is refused every mutation; a ban or an unban is
/// authorized for exactly the site owner, maintainers and moderators; a role
/// change for those, as far as the role being granted permits; an invitation
/// grant or invalidation for exactly the site owner and moderators; a
/// settings change for exactly the site owner and maintainers.
pub proof fn lemma_request_role_table(req: AdminRequest, m: Option<MembershipEntity>)
    ensures
        (m is None || m->0.admin_privilege is None) ==> !authorizes(req, m),
        (m is Some && m->0.admin_privilege is Some) ==> (authorizes(req, m) <==> {
            let role = m->0.admin_privilege->0;
            match req {
            AdminRequest::Ban(_) => role != AdminRole::Assistant,
            AdminRequest::Unban(_) => role != AdminRole::Assistant,
            AdminRequest::SetRole(r) => role != AdminRole::Assistant && role_change_permitted(role, r.role),
            AdminRequest::Grant(_) => role == AdminRole::SiteOwner || role == AdminRole::Moderator,
            AdminRequest::Invalidate(_) => role == AdminRole::SiteOwner || role == AdminRole::Moderator,
            AdminRequest::SetConfig(_) => role == AdminRole::SiteOwner || role == AdminRole::Maintainer,
            }
        }),
{
    if let Some(mm) = m {
        if let Some(role) = mm.admin_privilege {
            assert(role_of_spec(m) == Some(role));
            match role {
                AdminRole::SiteOwner => {},
                AdminRole::Maintainer => {},
                AdminRole::Moderator => {},
                AdminRole::Assistant => {},
            }
        }
    }
}

} // verus!
