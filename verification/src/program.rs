//! The two operations that are a whole request each: the submission of new
//! content, from nothing to a record that waits for approval or is approved,
//! and the verification of an identity.

use vstd::prelude::*;
use crate::contexts::content::SubmitContentAction;
use crate::contexts::twitter::VerifyTwitterAccount;
use crate::enums::ContentType;
use crate::clock::unix_timestamp;
use crate::errors::{both, check, HelmError, OpError};
use crate::instructions::content::{gated, only_submitted_differs};
use crate::state::content::{
    agrees,
    agrees_at_some_time,
    refused_early,
    rule_report,
    Content,
    ContentModel,
};
use crate::state::twitter_account::TwitterAccount;

verus! {

/// Whether the request to submit new content of kind `content_type` is
/// admitted, whatever the time: the caller must be admitted to submissions,
/// and a thread must stay within the bound (`ThreadTooLong`).
pub open spec fn new_content_admitted(ctx: SubmitContentAction, content_type: ContentType)
    -> Result<(), HelmError> {
    both(ctx.gate(), check(content_type.within_bounds(), HelmError::ThreadTooLong))
}

/// Whether the request to submit new content of kind `content_type` is
/// admitted.
pub fn admit_new_content(ctx: &SubmitContentAction, content_type: ContentType) -> (r: Result<
    (),
    HelmError,
>)
    ensures
        r == new_content_admitted(*ctx, content_type),
{
    ctx.authorize()?;
    content_type.validate()
}

/// What becomes of a new piece of content that the caller of `ctx` submits at
/// time `now`: the admission check of a submission first; then `ThreadTooLong`
/// for a thread over the bound; then the submission of a new draft that
/// belongs to the identity record of `ctx` and has the caller as its author.
pub open spec fn submission(
    ctx: SubmitContentAction,
    content_type: ContentType,
    content_hash: [u8; 32],
    scheduled_for: Option<i64>,
    bump: u8,
    now: i64,
) -> Result<ContentModel, HelmError> {
    gated(
        ctx.gate(),
        if !content_type.within_bounds() {
            Err(HelmError::ThreadTooLong)
        } else {
            ContentModel::draft(
                ctx.twitter_account_key,
                ctx.authority,
                content_type,
                content_hash,
                scheduled_for,
                bump,
                now,
            ).submit(ctx.authority, ctx.twitter_account.required_approvals, now)
        },
    )
}

/// Makes the content record of `ctx` a new draft and submits it for approval
/// at time `now`, as `submission` describes. On failure nothing changes.
pub fn submit_for_approval_at(
    ctx: &mut SubmitContentAction,
    content_type: ContentType,
    content_hash: [u8; 32],
    scheduled_for: Option<i64>,
    bump: u8,
    now: i64,
) -> (r: Result<(), HelmError>)
    ensures
        agrees(
            r,
            old(ctx).content,
            final(ctx).content,
            submission(*old(ctx), content_type, content_hash, scheduled_for, bump, now),
        ),
        only_submitted_differs(*old(ctx), *final(ctx)),
        r is Ok ==> final(ctx).content@.wf(),
{
    ctx.authorize()?;
    content_type.validate()?;
    let mut content = Content::new(
        ctx.twitter_account_key,
        ctx.authority,
        content_type,
        content_hash,
        scheduled_for,
        bump,
        now,
    );
    match content.submit_at(ctx.authority, ctx.twitter_account.required_approvals, now) {
        Ok(()) => {
            ctx.content = content;
            Ok(())
        },
        Err(e) => Err(e),
    }
}

/// Makes the content record of `ctx` a new draft and submits it for approval,
/// as `submit_for_approval_at` does, at the time that the clock gives. A
/// request that is not admitted is refused before the clock is read.
pub fn submit_for_approval(
    ctx: &mut SubmitContentAction,
    content_type: ContentType,
    content_hash: [u8; 32],
    scheduled_for: Option<i64>,
    bump: u8,
) -> (r: Result<(), OpError>)
    ensures
        agrees_at_some_time(
            r,
            old(ctx).content,
            final(ctx).content,
            |now: i64| submission(*old(ctx), content_type, content_hash, scheduled_for, bump, now),
        ),
        refused_early(r, new_content_admitted(*old(ctx), content_type)),
        only_submitted_differs(*old(ctx), *final(ctx)),
        r is Ok ==> final(ctx).content@.wf(),
{
    let ghost expected = |now: i64|
        submission(*old(ctx), content_type, content_hash, scheduled_for, bump, now);
    proof {
        let now = 0i64;
        assert(expected(now) == submission(
            *old(ctx),
            content_type,
            content_hash,
            scheduled_for,
            bump,
            now,
        ));
    }
    rule_report(admit_new_content(ctx, content_type))?;
    match unix_timestamp() {
        Ok(now) => {
            let r = rule_report(
                submit_for_approval_at(ctx, content_type, content_hash, scheduled_for, bump, now),
            );
            proof {
                assert(expected(now) == submission(
                    *old(ctx),
                    content_type,
                    content_hash,
                    scheduled_for,
                    bump,
                    now,
                ));
            }
            r
        },
        Err(e) => Err(OpError::Clock(e)),
    }
}

/// Marks the identity record as verified where the caller owns it;
/// otherwise reports `Unauthorized` and changes nothing.
pub fn verify_twitter_account(ctx: &mut VerifyTwitterAccount) -> (r: Result<(), HelmError>)
    ensures
        r == old(ctx).gate(),
        r is Ok ==> *final(ctx) == (VerifyTwitterAccount {
            twitter_account: TwitterAccount { is_verified: true, ..old(ctx).twitter_account },
            owner: old(ctx).owner,
        }),
        r is Err ==> *final(ctx) == *old(ctx),
{
    ctx.authorize()?;
    ctx.twitter_account.is_verified = true;
    Ok(())
}

} // verus!
