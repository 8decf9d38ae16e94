//! Self-service reads: profile, credit balance, and invitation counts.

use crate::decimal::Amount;
use crate::identity::ServiceError;
use crate::model::{AccountEntity, AccountId, CreditEntity, InviteEntity, InviteStatus, MembershipEntity};
use vstd::prelude::*;

verus! {

/// An account together with its membership (if any).
pub struct ProfileData {
    pub account: AccountEntity,
    pub membership: Option<MembershipEntity>,
}

/// A user's invitation availability and usage summary.
#[derive(Debug, Clone, Copy, PartialEq, Eq, Structural)]
pub struct InvitationSummary {
    pub available_count: i32,
    pub sent_count: u32,
}

/// A user's invitations grouped by lifecycle status, alongside the number of
/// invitations they may still send.
#[derive(Debug, Clone, Copy, PartialEq, Eq, Structural)]
pub struct InvitationGrouping {
    pub available_count: i32,
    pub accepted: u32,
    pub expired: u32,
    pub invalid: u32,
    pub pending: u32,
    pub free: u32,
}

/// Fetch the caller's own profile.
pub struct GetMyProfile {
    pub user_id: AccountId,
}

/// Fetch another user's public profile.
pub struct GetPublicProfile {
    pub user_id: AccountId,
}

/// Fetch the caller's credit balance (zeroed when absent).
pub struct GetMyCredit {
    pub user_id: AccountId,
}

/// Fetch a page of the caller's credit history.
pub struct GetMyCreditLog {
    pub user_id: AccountId,
    pub limit: i64,
    pub offset: i64,
}

/// Fetch the caller's invitation summary.
pub struct GetMyInvitationSummary {
    pub user_id: AccountId,
}

/// Fetch the caller's invitations grouped by status.
pub struct GetMyInvitationGrouping {
    pub user_id: AccountId,
}

/// A profile from the loaded rows: a missing account is not found.
pub fn load_profile(account: Option<AccountEntity>, membership: Option<MembershipEntity>) -> (r: Result<
    ProfileData,
    ServiceError,
>)
    ensures
        account is None ==> r matches Err(ServiceError::NotFound),
        account matches Some(a) ==> (r matches Ok(p) && p.account == a && p.membership == membership),
{
    match account {
        None => Err(ServiceError::NotFound),
        Some(a) => Ok(ProfileData { account: a, membership }),
    }
}

/// The caller's credit row, or a zero balance when there is none.
pub fn credit_or_zero(user_id: AccountId, found: Option<CreditEntity>) -> (r: CreditEntity)
    ensures
        found matches Some(c) ==> r == c,
        found is None ==> r == (CreditEntity {
            account: user_id,
            total_amount: Amount { mantissa: 0, scale: 0 },
            frozen_amount: Amount { mantissa: 0, scale: 0 },
        }),
{
    match found {
        Some(c) => c,
        None => CreditEntity { account: user_id, total_amount: Amount::zero(), frozen_amount: Amount::zero() },
    }
}

/// How many invites among `invites` have status `s`.
pub open spec fn count_status(invites: Seq<InviteEntity>, s: InviteStatus) -> nat
    decreases invites.len(),
{
    if invites.len() == 0 {
        0
    } else {
        count_status(invites.drop_last(), s) + if invites.last().status == s {
            1nat
        } else {
            0nat
        }
    }
}

/// The invitations a member may still send: their membership's count, 0 without one.
pub open spec fn available_of(membership: Option<MembershipEntity>) -> i32 {
    match membership {
        Some(m) => m.available_invitation_count,
        None => 0,
    }
}

/// A count as a bucket: saturated at `u32::MAX`.
pub open spec fn saturated(n: nat) -> u32 {
    if n > u32::MAX {
        u32::MAX
    } else {
        n as u32
    }
}

proof fn lemma_count_step(invites: Seq<InviteEntity>, i: int, s: InviteStatus)
    requires
        0 <= i < invites.len(),
    ensures
        count_status(invites.subrange(0, i + 1), s) == count_status(invites.subrange(0, i), s) + if invites[i].status
            == s {
            1nat
        } else {
            0nat
        },
{
    assert(invites.subrange(0, i + 1).drop_last() =~= invites.subrange(0, i));
}

proof fn lemma_count_bound(invites: Seq<InviteEntity>, s: InviteStatus)
    ensures
        count_status(invites, s) <= invites.len(),
    decreases invites.len(),
{
    if invites.len() > 0 {
        lemma_count_bound(invites.drop_last(), s);
    }
}

/// The summary: the available count, and how many invites were sent (every
/// invite that is not `Free`), that number kept modulo 2^32.
pub fn invitation_summary(membership: Option<MembershipEntity>, invites: &Vec<InviteEntity>) -> (r:
    InvitationSummary)
    ensures
        r.available_count == available_of(membership),
        r.sent_count == (invites@.len() - count_status(invites@, InviteStatus::Free)) % 0x1_0000_0000,
{
    let available_count = match &membership {
        Some(m) => m.available_invitation_count,
        None => 0,
    };
    let n = invites.len();
    let mut sent: u64 = 0;
    let mut i: usize = 0;
    while i < n
        invariant
            n == invites@.len(),
            i <= n,
            sent == i - count_status(invites@.subrange(0, i as int), InviteStatus::Free),
        decreases n - i,
    {
        proof {
            lemma_count_step(invites@, i as int, InviteStatus::Free);
            lemma_count_bound(invites@.subrange(0, i as int), InviteStatus::Free);
        }
        let free = match invites[i].status {
            InviteStatus::Free => true,
            _ => false,
        };
        if !free {
            sent = sent + 1;
        }
        i = i + 1;
    }
    assert(invites@.subrange(0, n as int) =~= invites@);
    InvitationSummary { available_count, sent_count: (sent % 0x1_0000_0000) as u32 }
}

/// The grouping: the available count, and per status the number of invites
/// with it, each saturated at `u32::MAX`.
pub fn invitation_grouping(membership: Option<MembershipEntity>, invites: &Vec<InviteEntity>) -> (r:
    InvitationGrouping)
    ensures
        r.available_count == available_of(membership),
        r.accepted == saturated(count_status(invites@, InviteStatus::Accepted)),
        r.expired == saturated(count_status(invites@, InviteStatus::Expired)),
        r.invalid == saturated(count_status(invites@, InviteStatus::Invalid)),
        r.pending == saturated(count_status(invites@, InviteStatus::Pending)),
        r.free == saturated(count_status(invites@, InviteStatus::Free)),
{
    let available_count = match &membership {
        Some(m) => m.available_invitation_count,
        None => 0,
    };
    let mut g = InvitationGrouping { available_count, accepted: 0, expired: 0, invalid: 0, pending: 0, free: 0 };
    let n = invites.len();
    let mut i: usize = 0;
    while i < n
        invariant
            n == invites@.len(),
            i <= n,
            g.available_count == available_count,
            g.accepted == saturated(count_status(invites@.subrange(0, i as int), InviteStatus::Accepted)),
            g.expired == saturated(count_status(invites@.subrange(0, i as int), InviteStatus::Expired)),
            g.invalid == saturated(count_status(invites@.subrange(0, i as int), InviteStatus::Invalid)),
            g.pending == saturated(count_status(invites@.subrange(0, i as int), InviteStatus::Pending)),
            g.free == saturated(count_status(invites@.subrange(0, i as int), InviteStatus::Free)),
        decreases n - i,
    {
        proof {
            lemma_count_step(invites@, i as int, InviteStatus::Accepted);
            lemma_count_step(invites@, i as int, InviteStatus::Expired);
            lemma_count_step(invites@, i as int, InviteStatus::Invalid);
            lemma_count_step(invites@, i as int, InviteStatus::Pending);
            lemma_count_step(invites@, i as int, InviteStatus::Free);
        }
        match invites[i].status {
            InviteStatus::Accepted => {
                g.accepted = g.accepted.saturating_add(1);
            },
            InviteStatus::Expired => {
                g.expired = g.expired.saturating_add(1);
            },
            InviteStatus::Invalid => {
                g.invalid = g.invalid.saturating_add(1);
            },
            InviteStatus::Pending => {
                g.pending = g.pending.saturating_add(1);
            },
            InviteStatus::Free => {
                g.free = g.free.saturating_add(1);
            },
        }
        i = i + 1;
    }
    assert(invites@.subrange(0, n as int) =~= invites@);
    g
}

/// The five status counts of a list add up to its length.
pub proof fn lemma_status_counts_partition(invites: Seq<InviteEntity>)
    ensures
        count_status(invites, InviteStatus::Accepted) + count_status(invites, InviteStatus::Expired)
            + count_status(invites, InviteStatus::Invalid) + count_status(invites, InviteStatus::Pending)
            + count_status(invites, InviteStatus::Free) == invites.len(),
    decreases invites.len(),
{
    if invites.len() > 0 {
        lemma_status_counts_partition(invites.drop_last());
    }
}

/// The buckets of a grouping add up to the number of invites, and the
/// summary's sent count is that number less the free ones, whenever no
/// count exceeds `u32::MAX`.
pub proof fn lemma_grouping_matches_summary(
    membership: Option<MembershipEntity>,
    invites: Seq<InviteEntity>,
    g: InvitationGrouping,
    s: InvitationSummary,
)
    requires
        invites.len() <= u32::MAX,
        g.available_count == available_of(membership),
        g.accepted == saturated(count_status(invites, InviteStatus::Accepted)),
        g.expired == saturated(count_status(invites, InviteStatus::Expired)),
        g.invalid == saturated(count_status(invites, InviteStatus::Invalid)),
        g.pending == saturated(count_status(invites, InviteStatus::Pending)),
        g.free == saturated(count_status(invites, InviteStatus::Free)),
        s.available_count == available_of(membership),
        s.sent_count == (invites.len() - count_status(invites, InviteStatus::Free)) % 0x1_0000_0000,
    ensures
        g.accepted + g.expired + g.invalid + g.pending + g.free == invites.len(),
        s.sent_count == g.accepted + g.expired + g.invalid + g.pending,
        s.available_count == g.available_count,
{
    lemma_status_counts_partition(invites);
    lemma_count_bound(invites, InviteStatus::Accepted);
    lemma_count_bound(invites, InviteStatus::Expired);
    lemma_count_bound(invites, InviteStatus::Invalid);
    lemma_count_bound(invites, InviteStatus::Pending);
    lemma_count_bound(invites, InviteStatus::Free);
}

} // verus!
