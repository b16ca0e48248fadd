//! Adding and removing creators.

use vstd::prelude::*;
use crate::contexts::creator::{CreatorValidator, ManageCreator};
use crate::errors::HelmError;
use crate::keys::{without, PublicKey};
use crate::state::creator_list::{creator_addable, creator_removable};

verus! {

/// Nothing but the creators differs between `before` and `after`.
pub open spec fn only_creators_differ(before: ManageCreator, after: ManageCreator) -> bool {
    &&& after.twitter_account == before.twitter_account
    &&& after.twitter_account_key == before.twitter_account_key
    &&& after.owner == before.owner
    &&& after.creator_list.twitter_account == before.creator_list.twitter_account
    &&& after.creator_list.authority == before.creator_list.authority
    &&& after.creator_list.bump == before.creator_list.bump
}

/// Whether the owner's request to add `creator` goes through: the admission
/// check first, then `creator_addable`.
pub open spec fn add_allowed(ctx: ManageCreator, creator: PublicKey) -> Result<(), HelmError> {
    match ctx.gate() {
        Err(e) => Err(e),
        Ok(()) => creator_addable(ctx.creator_list.creators@, creator),
    }
}

/// Whether the owner's request to remove `creator` goes through: the admission
/// check first, then `creator_removable`.
pub open spec fn remove_allowed(ctx: ManageCreator, creator: PublicKey) -> Result<(), HelmError> {
    match ctx.gate() {
        Err(e) => Err(e),
        Ok(()) => creator_removable(ctx.creator_list.creators@, creator),
    }
}

/// Adds `creator` to the creators where `add_allowed` lets it through;
/// otherwise reports why not and changes nothing.
pub fn add(ctx: &mut ManageCreator, creator: PublicKey) -> (r: Result<(), HelmError>)
    ensures
        r == add_allowed(*old(ctx), creator),
        r is Ok ==> final(ctx).creator_list.creators@ == old(ctx).creator_list.creators@.push(
            creator,
        ),
        r is Err ==> final(ctx).creator_list.creators@ == old(ctx).creator_list.creators@,
        only_creators_differ(*old(ctx), *final(ctx)),
        old(ctx).creator_list.wf() ==> final(ctx).creator_list.wf(),
{
    ctx.authorize()?;
    ctx.validate_creator_authority()?;
    ctx.validate_creator_uniqueness(&creator)?;
    ctx.validate_creator_limit()?;
    ctx.creator_list.add_creator(creator)
}

/// Takes `creator` out of the creators where `remove_allowed` lets it
/// through; otherwise reports why not and changes nothing.
pub fn remove(ctx: &mut ManageCreator, creator: PublicKey) -> (r: Result<(), HelmError>)
    ensures
        r == remove_allowed(*old(ctx), creator),
        r is Ok ==> final(ctx).creator_list.creators@ == without(
            old(ctx).creator_list.creators@,
            creator,
        ),
        r is Err ==> final(ctx).creator_list.creators@ == old(ctx).creator_list.creators@,
        only_creators_differ(*old(ctx), *final(ctx)),
        old(ctx).creator_list.wf() ==> final(ctx).creator_list.wf(),
{
    ctx.authorize()?;
    ctx.validate_creator_authority()?;
    ctx.validate_creator_exists(&creator)?;
    ctx.creator_list.remove_creator(&creator)
}

} // verus!
