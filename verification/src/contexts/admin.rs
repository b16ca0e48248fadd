//! Who may change the administrators.

use vstd::prelude::*;
use crate::errors::{check, ensure, HelmError};
use crate::keys::PublicKey;
use crate::state::admin_list::AdminList;
use crate::state::twitter_account::TwitterAccount;

verus! {

/// The checks of an operation on the administrators.
pub trait AdminValidator {
    fn validate_admin_count(&self) -> (r: Result<(), HelmError>);

    fn validate_admin_authority(&self) -> (r: Result<(), HelmError>);

    fn validate_twitter_verified(&self) -> (r: Result<(), HelmError>);
}

/// An operation on the administrators of `twitter_account`, asked for by
/// `owner`.
#[derive(Clone, Debug, PartialEq, Eq)]
pub struct ManageAdmin {
    pub admin_list: AdminList,
    pub twitter_account: TwitterAccount,
    /// The authenticated caller.
    pub owner: PublicKey,
}

/// The admission check of an owner's operation on `account`, asked for by
/// `caller`: `Unauthorized` unless the caller owns the record, then
/// `TwitterAccountNotVerified` unless the record is verified.
pub open spec fn owner_gate(account: TwitterAccount, caller: PublicKey) -> Result<(), HelmError> {
    if account.owner != caller {
        Err(HelmError::Unauthorized)
    } else if !account.is_verified {
        Err(HelmError::TwitterAccountNotVerified)
    } else {
        Ok(())
    }
}

/// Checks `caller` against `owner_gate`.
pub fn pass_owner_gate(account: &TwitterAccount, caller: &PublicKey) -> (r: Result<(), HelmError>)
    ensures
        r == owner_gate(*account, *caller),
{
    if !(account.owner == *caller) {
        return Err(HelmError::Unauthorized);
    }
    ensure(account.is_verified, HelmError::TwitterAccountNotVerified)
}

impl ManageAdmin {
    /// Admits the caller as `owner_gate` says.
    pub fn authorize(&self) -> (r: Result<(), HelmError>)
        ensures
            r == owner_gate(self.twitter_account, self.owner),
    {
        pass_owner_gate(&self.twitter_account, &self.owner)
    }
}

impl AdminValidator for ManageAdmin {
    /// `CannotRemoveLastAdmin` unless the list holds more than one
    /// administrator.
    fn validate_admin_count(&self) -> (r: Result<(), HelmError>)
        ensures
            r == check(self.admin_list.admins@.len() > 1, HelmError::CannotRemoveLastAdmin),
    {
        ensure(self.admin_list.admins.len() > 1, HelmError::CannotRemoveLastAdmin)
    }

    /// `Unauthorized` unless the caller owns the identity record.
    fn validate_admin_authority(&self) -> (r: Result<(), HelmError>)
        ensures
            r == check(self.twitter_account.owner == self.owner, HelmError::Unauthorized),
    {
        ensure(self.twitter_account.owner == self.owner, HelmError::Unauthorized)
    }

    /// `TwitterAccountNotVerified` unless the identity record is verified.
    fn validate_twitter_verified(&self) -> (r: Result<(), HelmError>)
        ensures
            r == check(self.twitter_account.is_verified, HelmError::TwitterAccountNotVerified),
    {
        ensure(self.twitter_account.is_verified, HelmError::TwitterAccountNotVerified)
    }
}

} // verus!
