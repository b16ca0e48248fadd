//! Adding and removing administrators.

use vstd::prelude::*;
use crate::constants::MAX_ADMINS;
use crate::contexts::admin::{owner_gate, AdminValidator, ManageAdmin};
use crate::errors::HelmError;
use crate::keys::{contains_key, lemma_without, remove_key, without, PublicKey};
use crate::state::admin_list::{admin_addable, lemma_push_keeps_distinct};

verus! {

/// Nothing but the administrators differs between `before` and `after`.
pub open spec fn only_admins_differ(before: ManageAdmin, after: ManageAdmin) -> bool {
    &&& after.twitter_account == before.twitter_account
    &&& after.owner == before.owner
    &&& after.admin_list.twitter_account == before.admin_list.twitter_account
    &&& after.admin_list.authority == before.admin_list.authority
    &&& after.admin_list.bump == before.admin_list.bump
}

/// Whether the owner's request to add `admin` goes through: the owner's
/// admission check first, then `admin_addable`.
pub open spec fn add_allowed(ctx: ManageAdmin, admin: PublicKey) -> Result<(), HelmError> {
    match owner_gate(ctx.twitter_account, ctx.owner) {
        Err(e) => Err(e),
        Ok(()) => admin_addable(ctx.admin_list.admins@, admin),
    }
}

/// Whether the owner's request to remove `admin` goes through: the owner's
/// admission check first; then `AdminDoesNotExist` unless `admin` is in the
/// list; then `CannotRemoveLastAdmin` if it is the only one, or if it is the
/// owner of the identity record, who appears in the list once at most and so
/// would lose the place for good.
pub open spec fn remove_allowed(ctx: ManageAdmin, admin: PublicKey) -> Result<(), HelmError> {
    match owner_gate(ctx.twitter_account, ctx.owner) {
        Err(e) => Err(e),
        Ok(()) => if !ctx.admin_list.admins@.contains(admin) {
            Err(HelmError::AdminDoesNotExist)
        } else if ctx.admin_list.admins@.len() <= 1 {
            Err(HelmError::CannotRemoveLastAdmin)
        } else if admin == ctx.twitter_account.owner {
            Err(HelmError::CannotRemoveLastAdmin)
        } else {
            Ok(())
        },
    }
}

/// Adds `admin` to the administrators where `add_allowed` lets it through;
/// otherwise reports why not and changes nothing.
pub fn add(ctx: &mut ManageAdmin, admin: PublicKey) -> (r: Result<(), HelmError>)
    ensures
        r == add_allowed(*old(ctx), admin),
        r is Ok ==> final(ctx).admin_list.admins@ == old(ctx).admin_list.admins@.push(admin),
        r is Err ==> final(ctx).admin_list.admins@ == old(ctx).admin_list.admins@,
        only_admins_differ(*old(ctx), *final(ctx)),
        old(ctx).admin_list.wf() ==> final(ctx).admin_list.wf(),
{
    ctx.authorize()?;
    ctx.validate_admin_authority()?;
    ctx.validate_twitter_verified()?;
    if contains_key(&ctx.admin_list.admins, &admin) {
        return Err(HelmError::AdminAlreadyExists);
    }
    if !(ctx.admin_list.admins.len() < MAX_ADMINS) {
        return Err(HelmError::MaxAdminsReached);
    }
    ctx.admin_list.admins.push(admin);
    proof {
        if old(ctx).admin_list.wf() {
            lemma_push_keeps_distinct(old(ctx).admin_list.admins@, admin);
        }
    }
    Ok(())
}

/// Takes `admin` out of the administrators where `remove_allowed` lets it
/// through; otherwise reports why not and changes nothing.
pub fn remove(ctx: &mut ManageAdmin, admin: PublicKey) -> (r: Result<(), HelmError>)
    ensures
        r == remove_allowed(*old(ctx), admin),
        r is Ok ==> final(ctx).admin_list.admins@ == without(old(ctx).admin_list.admins@, admin),
        r is Err ==> final(ctx).admin_list.admins@ == old(ctx).admin_list.admins@,
        only_admins_differ(*old(ctx), *final(ctx)),
        old(ctx).admin_list.wf() ==> final(ctx).admin_list.wf(),
        r is Ok && old(ctx).admin_list.wf() ==> final(ctx).admin_list.admins@.contains(
            old(ctx).twitter_account.owner,
        ) == old(ctx).admin_list.admins@.contains(old(ctx).twitter_account.owner),
{
    ctx.authorize()?;
    ctx.validate_admin_authority()?;
    if !contains_key(&ctx.admin_list.admins, &admin) {
        return Err(HelmError::AdminDoesNotExist);
    }
    if !(ctx.admin_list.admins.len() > 1) {
        return Err(HelmError::CannotRemoveLastAdmin);
    }
    if admin == ctx.twitter_account.owner {
        return Err(HelmError::CannotRemoveLastAdmin);
    }
    remove_key(&mut ctx.admin_list.admins, &admin);
    proof {
        lemma_without(old(ctx).admin_list.admins@, admin);
    }
    Ok(())
}

} // verus!
