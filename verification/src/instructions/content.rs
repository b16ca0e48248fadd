//! Submitting, approving, rejecting and canceling content.

use vstd::prelude::*;
use crate::clock::unix_timestamp;
use crate::contexts::content::{ContentAction, SubmitContentAction};
use crate::errors::{both, ensure, HelmError, OpError};
use crate::state::content::{
    agrees,
    agrees_at_some_time,
    refused_early,
    rule_report,
    schedule_ahead,
    ContentModel,
};

verus! {

/// Nothing but the content record differs between `before` and `after`.
pub open spec fn only_content_differs(before: ContentAction, after: ContentAction) -> bool {
    &&& after.twitter_account_key == before.twitter_account_key
    &&& after.twitter_account == before.twitter_account
    &&& after.admin_list == before.admin_list
    &&& after.authority == before.authority
}

/// Nothing but the content record differs between `before` and `after`.
pub open spec fn only_submitted_differs(before: SubmitContentAction, after: SubmitContentAction)
    -> bool {
    &&& after.twitter_account_key == before.twitter_account_key
    &&& after.twitter_account == before.twitter_account
    &&& after.admin_list == before.admin_list
    &&& after.authority == before.authority
}

/// The `outcome` of an operation whose caller has to be `admitted` first.
pub open spec fn gated(admitted: Result<(), HelmError>, outcome: Result<ContentModel, HelmError>)
    -> Result<ContentModel, HelmError> {
    match admitted {
        Err(e) => Err(e),
        Ok(()) => outcome,
    }
}

/// Whether the request to submit is admitted, whatever the time: the caller
/// must be admitted to submissions, and the record must be submittable.
pub open spec fn submission_admitted(ctx: SubmitContentAction) -> Result<(), HelmError> {
    both(ctx.gate(), ctx.content@.submittable())
}

/// What becomes of the record of `ctx` when the caller submits it at time
/// `now`: the caller must be admitted to submissions; the rest is the
/// submission by the caller under the threshold of the identity record.
pub open spec fn submitted(ctx: SubmitContentAction, now: i64) -> Result<ContentModel, HelmError> {
    gated(
        ctx.gate(),
        ctx.content@.submit(ctx.authority, ctx.twitter_account.required_approvals, now),
    )
}

/// Whether the request to approve is admitted, whatever the time: the caller
/// must be admitted to the record, and the record must wait for the caller's
/// approval.
pub open spec fn approval_admitted(ctx: ContentAction) -> Result<(), HelmError> {
    both(ctx.gate(), ctx.content@.awaits(ctx.authority))
}

/// What becomes of the record of `ctx` when the caller approves it at time
/// `now`: the request must be admitted; the schedule, if set, must still lie
/// after `now` (`ScheduleTimeInPast`), however many approvals the record
/// holds; the rest is the approval by the caller under the threshold of the
/// identity record.
pub open spec fn approved(ctx: ContentAction, now: i64) -> Result<ContentModel, HelmError> {
    match approval_admitted(ctx) {
        Err(e) => Err(e),
        Ok(()) => if !schedule_ahead(ctx.content.scheduled_for, now) {
            Err(HelmError::ScheduleTimeInPast)
        } else {
            ctx.content@.approve(ctx.authority, ctx.twitter_account.required_approvals, now)
        },
    }
}

/// Whether the request to reject for `reason` is admitted, whatever the
/// time: the caller must be admitted to the record, and the record must be
/// rejectable for `reason`.
pub open spec fn rejection_admitted(ctx: ContentAction, reason: Seq<char>) -> Result<
    (),
    HelmError,
> {
    both(ctx.gate(), ctx.content@.rejectable(reason))
}

/// What becomes of the record of `ctx` when the caller rejects it for
/// `reason` at time `now`: the caller must be admitted to the record; the
/// rest is the rejection.
pub open spec fn rejected(ctx: ContentAction, reason: Seq<char>, now: i64) -> Result<
    ContentModel,
    HelmError,
> {
    gated(ctx.gate(), ctx.content@.reject(reason, now))
}

/// Whether the request to cancel is admitted, whatever the time: the caller
/// must be admitted to the record, and the record must be cancelable.
pub open spec fn cancellation_admitted(ctx: ContentAction) -> Result<(), HelmError> {
    both(ctx.gate(), ctx.content@.cancelable())
}

/// What becomes of the record of `ctx` when the caller cancels it at time
/// `now`: the caller must be admitted to the record; the rest is the
/// cancellation.
pub open spec fn canceled(ctx: ContentAction, now: i64) -> Result<ContentModel, HelmError> {
    gated(ctx.gate(), ctx.content@.cancel(now))
}

/// Whether the request to submit is admitted.
pub fn admit_submission(ctx: &SubmitContentAction) -> (r: Result<(), HelmError>)
    ensures
        r == submission_admitted(*ctx),
{
    ctx.authorize()?;
    ctx.content.can_submit()
}

/// Whether the request to approve is admitted.
pub fn admit_approval(ctx: &ContentAction) -> (r: Result<(), HelmError>)
    ensures
        r == approval_admitted(*ctx),
{
    ctx.authorize()?;
    ctx.content.awaits_approval_of(&ctx.authority)
}

/// Whether the request to reject for `reason` is admitted.
pub fn admit_rejection(ctx: &ContentAction, reason: &str) -> (r: Result<(), HelmError>)
    ensures
        r == rejection_admitted(*ctx, reason@),
{
    ctx.authorize()?;
    ctx.content.can_reject(reason)
}

/// Whether the request to cancel is admitted.
pub fn admit_cancellation(ctx: &ContentAction) -> (r: Result<(), HelmError>)
    ensures
        r == cancellation_admitted(*ctx),
{
    ctx.authorize()?;
    ctx.content.can_cancel()
}

/// Submits the record for approval at time `now`, as `submitted` describes.
/// On failure nothing changes.
pub fn submit_for_approval_at(ctx: &mut SubmitContentAction, now: i64) -> (r: Result<(), HelmError>)
    ensures
        agrees(r, old(ctx).content, final(ctx).content, submitted(*old(ctx), now)),
        only_submitted_differs(*old(ctx), *final(ctx)),
        old(ctx).content@.wf() ==> final(ctx).content@.wf(),
{
    ctx.authorize()?;
    ctx.content.submit_at(ctx.authority, ctx.twitter_account.required_approvals, now)
}

/// Records the caller's approval at time `now`, as `approved` describes. On
/// failure nothing changes.
pub fn approve_content_at(ctx: &mut ContentAction, now: i64) -> (r: Result<(), HelmError>)
    ensures
        agrees(r, old(ctx).content, final(ctx).content, approved(*old(ctx), now)),
        only_content_differs(*old(ctx), *final(ctx)),
        old(ctx).content@.wf() ==> final(ctx).content@.wf(),
{
    ctx.authorize()?;
    ctx.content.awaits_approval_of(&ctx.authority)?;
    ensure(ctx.content.schedule_lies_ahead(now), HelmError::ScheduleTimeInPast)?;
    ctx.content.approve_at(ctx.authority, ctx.twitter_account.required_approvals, now)
}

/// Rejects the record for `reason` at time `now`, as `rejected` describes.
/// On failure nothing changes.
pub fn reject_content_at(ctx: &mut ContentAction, reason: String, now: i64) -> (r: Result<
    (),
    HelmError,
>)
    ensures
        agrees(r, old(ctx).content, final(ctx).content, rejected(*old(ctx), reason@, now)),
        only_content_differs(*old(ctx), *final(ctx)),
        old(ctx).content@.wf() ==> final(ctx).content@.wf(),
{
    ctx.authorize()?;
    ctx.content.reject_at(reason, now)
}

/// Cancels the record at time `now`, as `canceled` describes. On failure
/// nothing changes.
pub fn cancel_content_at(ctx: &mut ContentAction, now: i64) -> (r: Result<(), HelmError>)
    ensures
        agrees(r, old(ctx).content, final(ctx).content, canceled(*old(ctx), now)),
        only_content_differs(*old(ctx), *final(ctx)),
        old(ctx).content@.wf() ==> final(ctx).content@.wf(),
{
    ctx.authorize()?;
    ctx.content.cancel_at(now)
}

/// Submits the record for approval, as `submit_for_approval_at` does, at the
/// time that the clock gives. A request that is not admitted is refused before
/// the clock is read.
pub fn submit_for_approval(ctx: &mut SubmitContentAction) -> (r: Result<(), OpError>)
    ensures
        agrees_at_some_time(
            r,
            old(ctx).content,
            final(ctx).content,
            |now: i64| submitted(*old(ctx), now),
        ),
        refused_early(r, submission_admitted(*old(ctx))),
        only_submitted_differs(*old(ctx), *final(ctx)),
        old(ctx).content@.wf() ==> final(ctx).content@.wf(),
{
    let ghost expected = |now: i64| submitted(*old(ctx), now);
    proof {
        let now = 0i64;
        assert(expected(now) == submitted(*old(ctx), now));
    }
    rule_report(admit_submission(ctx))?;
    match unix_timestamp() {
        Ok(now) => {
            let r = rule_report(submit_for_approval_at(ctx, now));
            proof {
                assert(expected(now) == submitted(*old(ctx), now));
            }
            r
        },
        Err(e) => Err(OpError::Clock(e)),
    }
}

/// Records the caller's approval, as `approve_content_at` does, at the time
/// that the clock gives. A request that is not admitted is refused before the
/// clock is read.
pub fn approve_content(ctx: &mut ContentAction) -> (r: Result<(), OpError>)
    ensures
        agrees_at_some_time(
            r,
            old(ctx).content,
            final(ctx).content,
            |now: i64| approved(*old(ctx), now),
        ),
        refused_early(r, approval_admitted(*old(ctx))),
        only_content_differs(*old(ctx), *final(ctx)),
        old(ctx).content@.wf() ==> final(ctx).content@.wf(),
{
    let ghost expected = |now: i64| approved(*old(ctx), now);
    proof {
        let now = 0i64;
        assert(expected(now) == approved(*old(ctx), now));
    }
    rule_report(admit_approval(ctx))?;
    match unix_timestamp() {
        Ok(now) => {
            let r = rule_report(approve_content_at(ctx, now));
            proof {
                assert(expected(now) == approved(*old(ctx), now));
            }
            r
        },
        Err(e) => Err(OpError::Clock(e)),
    }
}

/// Rejects the record for `reason`, as `reject_content_at` does, at the time
/// that the clock gives. A request that is not admitted is refused before the
/// clock is read.
pub fn reject_content(ctx: &mut ContentAction, reason: String) -> (r: Result<(), OpError>)
    ensures
        agrees_at_some_time(
            r,
            old(ctx).content,
            final(ctx).content,
            |now: i64| rejected(*old(ctx), reason@, now),
        ),
        refused_early(r, rejection_admitted(*old(ctx), reason@)),
        only_content_differs(*old(ctx), *final(ctx)),
        old(ctx).content@.wf() ==> final(ctx).content@.wf(),
{
    let ghost expected = |now: i64| rejected(*old(ctx), reason@, now);
    proof {
        let now = 0i64;
        assert(expected(now) == rejected(*old(ctx), reason@, now));
    }
    rule_report(admit_rejection(ctx, reason.as_str()))?;
    match unix_timestamp() {
        Ok(now) => {
            let r = rule_report(reject_content_at(ctx, reason, now));
            proof {
                assert(expected(now) == rejected(*old(ctx), reason@, now));
            }
            r
        },
        Err(e) => Err(OpError::Clock(e)),
    }
}

/// Cancels the record, as `cancel_content_at` does, at the time that the clock
/// gives. A request that is not admitted is refused before the clock is
/// read.
pub fn cancel_content(ctx: &mut ContentAction) -> (r: Result<(), OpError>)
    ensures
        agrees_at_some_time(
            r,
            old(ctx).content,
            final(ctx).content,
            |now: i64| canceled(*old(ctx), now),
        ),
        refused_early(r, cancellation_admitted(*old(ctx))),
        only_content_differs(*old(ctx), *final(ctx)),
        old(ctx).content@.wf() ==> final(ctx).content@.wf(),
{
    let ghost expected = |now: i64| canceled(*old(ctx), now);
    proof {
        let now = 0i64;
        assert(expected(now) == canceled(*old(ctx), now));
    }
    rule_report(admit_cancellation(ctx))?;
    match unix_timestamp() {
        Ok(now) => {
            let r = rule_report(cancel_content_at(ctx, now));
            proof {
                assert(expected(now) == canceled(*old(ctx), now));
            }
            r
        },
        Err(e) => Err(OpError::Clock(e)),
    }
}

} // verus!
