//! Registering and verifying an identity.

use vstd::prelude::*;
use crate::constants::DEFAULT_REQUIRED_APPROVALS;
use crate::contexts::twitter::{
    valid_handle,
    valid_id,
    RegisterTwitterAccount,
    TwitterAccountValidator,
};
use crate::clock::unix_timestamp;
use crate::errors::{HelmError, OpError};
use crate::keys::PublicKey;
use crate::state::content::{refused_early, rule_report};
use crate::state::twitter_account::TwitterAccount;

verus! {

/// Whether a registration under `twitter_id` and `twitter_handle` goes
/// through: `InvalidTwitterHandle` unless the handle is well formed, then
/// `InvalidTwitterId` unless the identifier is.
pub open spec fn register_allowed(twitter_id: Seq<char>, twitter_handle: Seq<char>) -> Result<
    (),
    HelmError,
> {
    if !valid_handle(twitter_handle) {
        Err(HelmError::InvalidTwitterHandle)
    } else if !valid_id(twitter_id) {
        Err(HelmError::InvalidTwitterId)
    } else {
        Ok(())
    }
}

/// The records `after` a registration made at time `now` from the request
/// `before`: the identity record is a new one for the caller, unverified and
/// with the default threshold; the caller is the only administrator; there
/// are no creators; and the caller is the authority of both lists.
pub open spec fn registered(
    before: RegisterTwitterAccount,
    after: RegisterTwitterAccount,
    twitter_id: String,
    twitter_handle: String,
    now: i64,
) -> bool {
    &&& after.twitter_account == (TwitterAccount {
        owner: before.owner,
        twitter_id,
        twitter_handle,
        required_approvals: DEFAULT_REQUIRED_APPROVALS,
        is_verified: false,
        created_at: now,
        bump: before.twitter_account_bump,
    })
    &&& after.admin_list.twitter_account == before.twitter_account_key
    &&& after.admin_list.admins@ == seq![before.owner]
    &&& after.admin_list.authority == before.owner
    &&& after.admin_list.bump == before.admin_list_bump
    &&& after.creator_list.twitter_account == before.twitter_account_key
    &&& after.creator_list.creators@ == Seq::<PublicKey>::empty()
    &&& after.creator_list.authority == before.owner
    &&& after.creator_list.bump == before.creator_list_bump
    &&& after.twitter_account.wf()
    &&& after.admin_list.wf()
    &&& after.creator_list.wf()
}

/// What a registration never changes: the caller, the address of the
/// identity record and the parts of the derived addresses.
pub open spec fn same_request(before: RegisterTwitterAccount, after: RegisterTwitterAccount)
    -> bool {
    &&& after.owner == before.owner
    &&& after.twitter_account_key == before.twitter_account_key
    &&& after.twitter_account_bump == before.twitter_account_bump
    &&& after.admin_list_bump == before.admin_list_bump
    &&& after.creator_list_bump == before.creator_list_bump
}

/// Registers an identity at time `now`. Where `register_allowed` lets it
/// through, the records are as `registered` says. Otherwise nothing changes.
pub fn register_at(
    ctx: &mut RegisterTwitterAccount,
    twitter_id: String,
    twitter_handle: String,
    now: i64,
) -> (r: Result<(), HelmError>)
    ensures
        r == register_allowed(twitter_id@, twitter_handle@),
        r is Err ==> *final(ctx) == *old(ctx),
        r is Ok ==> registered(*old(ctx), *final(ctx), twitter_id, twitter_handle, now),
        same_request(*old(ctx), *final(ctx)),
{
    admit_registration(ctx, twitter_id.as_str(), twitter_handle.as_str())?;
    ctx.twitter_account.initialize(
        ctx.owner,
        twitter_id,
        twitter_handle,
        now,
        ctx.twitter_account_bump,
    );
    let _ = ctx.admin_list.initialize(ctx.twitter_account_key, ctx.owner, ctx.admin_list_bump);
    ctx.creator_list.twitter_account = ctx.twitter_account_key;
    ctx.creator_list.creators = Vec::new();
    ctx.creator_list.authority = ctx.owner;
    ctx.creator_list.bump = ctx.creator_list_bump;
    Ok(())
}

/// Whether a registration under `twitter_id` and `twitter_handle` goes
/// through, as `register_allowed` says.
pub fn admit_registration(ctx: &RegisterTwitterAccount, twitter_id: &str, twitter_handle: &str)
    -> (r: Result<(), HelmError>)
    ensures
        r == register_allowed(twitter_id@, twitter_handle@),
{
    ctx.validate_handle_format(twitter_handle)?;
    ctx.validate_id_format(twitter_id)
}

/// Registers an identity as `register_at` does, at the time that the clock
/// gives. A registration that `register_allowed` refuses is refused before
/// the clock is read.
pub fn register(ctx: &mut RegisterTwitterAccount, twitter_id: String, twitter_handle: String) -> (r:
    Result<(), OpError>)
    ensures
        match r {
            Ok(()) => exists|now: i64| #[trigger]
                registered(*old(ctx), *final(ctx), twitter_id, twitter_handle, now),
            Err(OpError::Rule(e)) => *final(ctx) == *old(ctx) && register_allowed(
                twitter_id@,
                twitter_handle@,
            ) == Err::<(), HelmError>(e),
            Err(OpError::Clock(_)) => *final(ctx) == *old(ctx),
        },
        refused_early(r, register_allowed(twitter_id@, twitter_handle@)),
        same_request(*old(ctx), *final(ctx)),
{
    rule_report(admit_registration(ctx, twitter_id.as_str(), twitter_handle.as_str()))?;
    match unix_timestamp() {
        Ok(now) => rule_report(register_at(ctx, twitter_id, twitter_handle, now)),
        Err(e) => Err(OpError::Clock(e)),
    }
}

} // verus!
