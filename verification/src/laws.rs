//! What holds of the operations taken together.

use vstd::prelude::*;
use crate::constants::{MAX_APPROVALS_PER_REQUIRED, MAX_SCHEDULE_DELAY, MIN_SCHEDULE_DELAY};
use crate::contexts::admin::{owner_gate, ManageAdmin};
use crate::enums::ContentStatus;
use crate::errors::HelmError;
use crate::instructions::admin::remove_allowed;
use crate::keys::PublicKey;
use crate::state::admin_list::admin_removable;
use crate::state::content::{
    legal_transition,
    schedule_ahead,
    schedule_ok,
    terminal,
    within_schedule_bounds,
    ContentModel,
};

verus! {

/// The record after the identities of `approvers` have asked to approve it,
/// one after another, at time `now`. A request that is refused leaves the
/// record as it is.
pub open spec fn approved_by_each(
    record: ContentModel,
    approvers: Seq<PublicKey>,
    required_approvals: u8,
    now: i64,
) -> ContentModel
    decreases approvers.len(),
{
    if approvers.len() == 0 {
        record
    } else {
        let before = approved_by_each(record, approvers.drop_last(), required_approvals, now);
        match before.approve(approvers.last(), required_approvals, now) {
            Ok(after) => after,
            Err(_) => before,
        }
    }
}

/// The threshold decides, and nothing else does. Take a record that waits
/// for approval with fewer approvals than required, and let distinct
/// identities that have not approved it ask to approve it one after another
/// while its schedule still lies ahead. Then the record ends up `Approved`
/// exactly when the approvals it held and the new ones together reach the
/// threshold; until then it keeps waiting and counts every one of them; and
/// it counts none beyond the one that reached the threshold.
pub proof fn lemma_threshold_decides(
    record: ContentModel,
    approvers: Seq<PublicKey>,
    required_approvals: u8,
    now: i64,
)
    requires
        record.status == ContentStatus::PendingApproval,
        record.approvals.len() < required_approvals,
        approvers.no_duplicates(),
        forall|i: int| 0 <= i < approvers.len() ==> !record.approvals.contains(approvers[i]),
        schedule_ahead(record.scheduled_for, now),
    ensures
        ({
            let end = approved_by_each(record, approvers, required_approvals, now);
            let total = record.approvals.len() + approvers.len();
            let missing = required_approvals - record.approvals.len();
            &&& end.status == (if total >= required_approvals {
                ContentStatus::Approved
            } else {
                ContentStatus::PendingApproval
            })
            &&& end.approvals == record.approvals + approvers.take(
                if total >= required_approvals {
                    missing
                } else {
                    approvers.len() as int
                },
            )
            &&& end.scheduled_for == record.scheduled_for
        }),
    decreases approvers.len(),
{
    let end = approved_by_each(record, approvers, required_approvals, now);
    let missing = required_approvals - record.approvals.len();
    if approvers.len() == 0 {
        assert(approvers.take(0) =~= Seq::<PublicKey>::empty());
        assert(record.approvals + Seq::<PublicKey>::empty() =~= record.approvals);
    } else {
        let front = approvers.drop_last();
        let last = approvers.last();
        lemma_threshold_decides(record, front, required_approvals, now);
        let before = approved_by_each(record, front, required_approvals, now);
        if record.approvals.len() + front.len() >= required_approvals {
            assert(before.approve(last, required_approvals, now) is Err);
            assert(end == before);
            assert(front.take(missing) =~= approvers.take(missing));
        } else {
            assert(front.take(front.len() as int) =~= front);
            assert(before.approvals == record.approvals + front);
            assert(!before.approvals.contains(last)) by {
                if before.approvals.contains(last) {
                    let i = choose|i: int| 0 <= i < before.approvals.len() && before.approvals[i] == last;
                    if i < record.approvals.len() {
                        assert(record.approvals[i] == last);
                        assert(record.approvals.contains(approvers[approvers.len() - 1]));
                    } else {
                        let j = i - record.approvals.len();
                        assert(approvers[j] == approvers[approvers.len() - 1]);
                    }
                }
            }
            assert(end.approvals =~= record.approvals + approvers.take(approvers.len() as int));
            if record.approvals.len() + approvers.len() >= required_approvals {
                assert(approvers.len() == missing);
            }
        }
    }
}

/// No identity is counted twice. Once an identity's approval has been
/// recorded, a second request by the same identity is refused, whatever the
/// threshold and the time: with `AlreadyApproved` while the record still
/// waits for approval, and with `InvalidContentStatus` once it does not.
pub proof fn lemma_no_double_counting(
    record: ContentModel,
    approver: PublicKey,
    required_approvals: u8,
    now: i64,
    required_later: u8,
    later: i64,
)
    requires
        record.approve(approver, required_approvals, now) is Ok,
    ensures
        ({
            let after = record.approve(approver, required_approvals, now)->Ok_0;
            &&& after.approvals.len() == record.approvals.len() + 1
            &&& after.approve(approver, required_later, later) == Err::<ContentModel, HelmError>(
                if after.status == ContentStatus::PendingApproval {
                    HelmError::AlreadyApproved
                } else {
                    HelmError::InvalidContentStatus
                },
            )
        }),
{
    let after = record.approve(approver, required_approvals, now)->Ok_0;
    assert(after.approvals == record.approvals.push(approver));
    assert(after.approvals[after.approvals.len() - 1] == approver);
}

/// The approvals never run away. A record that was just submitted or
/// approved holds at most `MAX_APPROVALS_PER_REQUIRED` approvals for each
/// approval required: after an approval whatever the record held before,
/// after the submission of a well-formed draft wherever at least one approval
/// is required. And a waiting record that holds that many takes no further
/// approval, whatever the time: a new approver gets the status error, one who
/// has approved already `AlreadyApproved`.
pub proof fn lemma_approvals_capped(
    record: ContentModel,
    who: PublicKey,
    required_approvals: u8,
    now: i64,
)
    ensures
        record.approve(who, required_approvals, now) is Ok ==> record.approve(
            who,
            required_approvals,
            now,
        )->Ok_0.approvals.len() <= MAX_APPROVALS_PER_REQUIRED * required_approvals,
        record.wf() && required_approvals >= 1 && record.submit(who, required_approvals, now) is Ok
            ==> record.submit(who, required_approvals, now)->Ok_0.approvals.len()
            <= MAX_APPROVALS_PER_REQUIRED * required_approvals,
        record.status == ContentStatus::PendingApproval && record.approvals.len()
            >= MAX_APPROVALS_PER_REQUIRED * required_approvals ==> record.approve(
            who,
            required_approvals,
            now,
        ) == Err::<ContentModel, HelmError>(
            if record.approvals.contains(who) {
                HelmError::AlreadyApproved
            } else {
                HelmError::InvalidContentStatus
            },
        ),
{
}

/// The table of legal moves is closed: a move that it does not list is
/// refused with `InvalidStateTransition`, whatever else the record holds, and
/// a move that it lists goes through.
pub proof fn lemma_transition_closure(record: ContentModel, to: ContentStatus, now: i64)
    ensures
        !legal_transition(record.status, to) ==> record.transition(to, now) == Err::<
            ContentModel,
            HelmError,
        >(HelmError::InvalidStateTransition),
        legal_transition(record.status, to) ==> record.transition(to, now) is Ok
            && record.transition(to, now)->Ok_0.status == to,
        legal_transition(record.status, to) <==> ({
            ||| (record.status == ContentStatus::Draft && to == ContentStatus::PendingApproval)
            ||| (record.status == ContentStatus::Draft && to == ContentStatus::Canceled)
            ||| (record.status == ContentStatus::PendingApproval && to == ContentStatus::Approved)
            ||| (record.status == ContentStatus::PendingApproval && to == ContentStatus::Rejected)
            ||| (record.status == ContentStatus::PendingApproval && to == ContentStatus::Canceled)
            ||| (record.status == ContentStatus::Approved && to == ContentStatus::Published)
            ||| (record.status == ContentStatus::Approved && to == ContentStatus::Failed)
            ||| (record.status == ContentStatus::Approved && to == ContentStatus::Canceled)
            ||| (record.status == ContentStatus::Rejected && to == ContentStatus::Draft)
            ||| (record.status == ContentStatus::Failed && to == ContentStatus::Draft)
        }),
{
}

/// A finished record stays as it is. A published or canceled record admits no
/// move at all; a failed one admits only the retry that makes it a draft
/// again; and no finished record can be submitted, approved, rejected or
/// canceled.
pub proof fn lemma_terminal_is_final(
    record: ContentModel,
    to: ContentStatus,
    who: PublicKey,
    required_approvals: u8,
    reason: Seq<char>,
    now: i64,
)
    requires
        terminal(record.status),
    ensures
        record.transition(to, now) is Ok ==> record.status == ContentStatus::Failed && to
            == ContentStatus::Draft,
        record.submit(who, required_approvals, now) is Err,
        record.approve(who, required_approvals, now) is Err,
        record.reject(reason, now) is Err,
        record.cancel(now) == Err::<ContentModel, HelmError>(HelmError::ContentInTerminalState),
{
}

/// The last administrator stays. Where a list holds exactly one
/// administrator, the request to remove that one is refused with
/// `CannotRemoveLastAdmin`, on the list itself and, for a caller whom the
/// owner's admission check admits, as an operation.
pub proof fn lemma_last_admin_floor(ctx: ManageAdmin, admin: PublicKey)
    requires
        ctx.admin_list.admins@.len() == 1,
        ctx.admin_list.admins@.contains(admin),
    ensures
        admin_removable(ctx.admin_list.admins@, admin) == Err::<(), HelmError>(
            HelmError::CannotRemoveLastAdmin,
        ),
        owner_gate(ctx.twitter_account, ctx.owner) is Ok ==> remove_allowed(ctx, admin) == Err::<
            (),
            HelmError,
        >(HelmError::CannotRemoveLastAdmin),
{
}

/// The schedule window. Seen from `now`, a time `MIN_SCHEDULE_DELAY` ahead or
/// less is refused; so is a time more than `MAX_SCHEDULE_DELAY` ahead; and
/// every time in between, the end of the window included, is accepted where
/// it is within the schedule bounds.
pub proof fn lemma_schedule_window(now: i64, at: i64)
    ensures
        at <= now + MIN_SCHEDULE_DELAY ==> !schedule_ok(Some(at), now),
        at > now + MAX_SCHEDULE_DELAY ==> !schedule_ok(Some(at), now),
        now + MIN_SCHEDULE_DELAY < at <= now + MAX_SCHEDULE_DELAY && within_schedule_bounds(at)
            ==> schedule_ok(Some(at), now),
        schedule_ok(None, now),
{
}

/// A sole administrator's submission approves itself. Where one approval is
/// required, the submission of a draft whose schedule, if it has one, is
/// acceptable goes from `Draft` through `PendingApproval` to `Approved` in the
/// one operation, whether or not the submitter was among the approvals
/// before; and a draft without approvals ends with the submitter as its only
/// approver.
pub proof fn lemma_single_approval_submit(record: ContentModel, authority: PublicKey, now: i64)
    requires
        record.status == ContentStatus::Draft,
        schedule_ahead(record.scheduled_for, now),
        schedule_ok(record.scheduled_for, now),
    ensures
        record.submit(authority, 1, now) is Ok,
        record.submit(authority, 1, now)->Ok_0.status == ContentStatus::Approved,
        record.submit(authority, 1, now)->Ok_0.approvals.contains(authority),
        record.approvals.len() == 0 ==> record.submit(authority, 1, now)->Ok_0.approvals
            == seq![authority],
{
    let pending = record.moved_to(ContentStatus::PendingApproval, now);
    let listed = pending.listing(authority);
    if pending.approvals.contains(authority) {
        let i = choose|i: int| 0 <= i < pending.approvals.len() && pending.approvals[i] == authority;
        assert(listed.approvals.len() >= 1);
    } else {
        assert(listed.approvals[listed.approvals.len() - 1] == authority);
    }
    if record.approvals.len() == 0 {
        assert(!pending.approvals.contains(authority));
        assert(pending.approvals.push(authority) =~= seq![authority]);
    }
}

/// On submission, too, the threshold decides. A submission that goes through
/// leaves the record `Approved` exactly when the approvals it then holds,
/// the submitter counted once, are as many as required or more; otherwise
/// the record waits for approval.
pub proof fn lemma_submission_settles(
    record: ContentModel,
    authority: PublicKey,
    required_approvals: u8,
    now: i64,
)
    requires
        record.submit(authority, required_approvals, now) is Ok,
    ensures
        ({
            let after = record.submit(authority, required_approvals, now)->Ok_0;
            &&& after.approvals == record.listing(authority).approvals
            &&& after.status == (if after.approvals.len() >= required_approvals {
                ContentStatus::Approved
            } else {
                ContentStatus::PendingApproval
            })
        }),
{
}

} // verus!
