//! Who may act on content.

use vstd::prelude::*;
use crate::errors::{check, ensure, HelmError};
use crate::keys::{contains_key, PublicKey};
use crate::state::admin_list::AdminList;
use crate::state::content::{terminal, Content};
use crate::state::twitter_account::TwitterAccount;

verus! {

/// The checks of an operation on a content record.
pub trait ContentValidator {
    fn validate_authority(&self) -> (r: Result<(), HelmError>);

    fn validate_content_status(&self) -> (r: Result<(), HelmError>);

    fn validate_admin_authority(&self) -> (r: Result<(), HelmError>);

    fn validate_content_uniqueness(&self) -> (r: Result<(), HelmError>);
}

/// The admission check of an administrator's operation under `account`, asked
/// for by `caller`: `TwitterAccountNotVerified` unless the record is verified,
/// then `Unauthorized` unless the caller is one of `admins`.
pub open spec fn admin_gate(account: TwitterAccount, admins: Seq<PublicKey>, caller: PublicKey)
    -> Result<(), HelmError> {
    if !account.is_verified {
        Err(HelmError::TwitterAccountNotVerified)
    } else if !admins.contains(caller) {
        Err(HelmError::Unauthorized)
    } else {
        Ok(())
    }
}

/// Checks `caller` against `admin_gate`.
pub fn pass_admin_gate(account: &TwitterAccount, admin_list: &AdminList, caller: &PublicKey) -> (r:
    Result<(), HelmError>)
    ensures
        r == admin_gate(*account, admin_list.admins@, *caller),
{
    if !account.is_verified {
        return Err(HelmError::TwitterAccountNotVerified);
    }
    ensure(contains_key(&admin_list.admins, caller), HelmError::Unauthorized)
}

/// The submission of `content` under `twitter_account`, asked for by
/// `authority`.
#[derive(Clone, Debug, PartialEq, Eq)]
pub struct SubmitContentAction {
    pub content: Content,
    /// The address under which `twitter_account` is stored.
    pub twitter_account_key: PublicKey,
    pub twitter_account: TwitterAccount,
    pub admin_list: AdminList,
    /// The authenticated caller.
    pub authority: PublicKey,
}

impl SubmitContentAction {
    /// The admission check of a submission: `admin_gate`. Submission is open
    /// to the administrators, not to the creators.
    pub open spec fn gate(&self) -> Result<(), HelmError> {
        admin_gate(self.twitter_account, self.admin_list.admins@, self.authority)
    }

    /// Admits the caller as `gate` says.
    pub fn authorize(&self) -> (r: Result<(), HelmError>)
        ensures
            r == self.gate(),
    {
        pass_admin_gate(&self.twitter_account, &self.admin_list, &self.authority)
    }
}

/// An operation on the existing record `content` under `twitter_account`,
/// asked for by `authority`.
#[derive(Clone, Debug, PartialEq, Eq)]
pub struct ContentAction {
    pub content: Content,
    /// The address under which `twitter_account` is stored.
    pub twitter_account_key: PublicKey,
    pub twitter_account: TwitterAccount,
    pub admin_list: AdminList,
    /// The authenticated caller.
    pub authority: PublicKey,
}

impl ContentAction {
    /// The admission check of an operation on an existing record:
    /// `ContentInTerminalState` if the record is finished, then
    /// `InvalidTwitterAccount` unless the record belongs to the identity
    /// record, then `admin_gate`.
    pub open spec fn gate(&self) -> Result<(), HelmError> {
        if terminal(self.content.status) {
            Err(HelmError::ContentInTerminalState)
        } else if self.content.twitter_account != self.twitter_account_key {
            Err(HelmError::InvalidTwitterAccount)
        } else {
            admin_gate(self.twitter_account, self.admin_list.admins@, self.authority)
        }
    }

    /// Admits the caller as `gate` says.
    pub fn authorize(&self) -> (r: Result<(), HelmError>)
        ensures
            r == self.gate(),
    {
        if self.content.is_terminal() {
            return Err(HelmError::ContentInTerminalState);
        }
        if !(self.content.twitter_account == self.twitter_account_key) {
            return Err(HelmError::InvalidTwitterAccount);
        }
        pass_admin_gate(&self.twitter_account, &self.admin_list, &self.authority)
    }
}

impl ContentValidator for ContentAction {
    /// `Unauthorized` unless the caller is an administrator.
    fn validate_authority(&self) -> (r: Result<(), HelmError>)
        ensures
            r == check(self.admin_list.admins@.contains(self.authority), HelmError::Unauthorized),
    {
        ensure(contains_key(&self.admin_list.admins, &self.authority), HelmError::Unauthorized)
    }

    /// `ContentInTerminalState` if the record is finished.
    fn validate_content_status(&self) -> (r: Result<(), HelmError>)
        ensures
            r == check(!terminal(self.content.status), HelmError::ContentInTerminalState),
    {
        ensure(!self.content.is_terminal(), HelmError::ContentInTerminalState)
    }

    /// `TwitterAccountNotVerified` unless the identity record is verified.
    fn validate_admin_authority(&self) -> (r: Result<(), HelmError>)
        ensures
            r == check(self.twitter_account.is_verified, HelmError::TwitterAccountNotVerified),
    {
        ensure(self.twitter_account.is_verified, HelmError::TwitterAccountNotVerified)
    }

    /// Always fine: the address of a record already tells it from every
    /// other.
    fn validate_content_uniqueness(&self) -> (r: Result<(), HelmError>)
        ensures
            r is Ok,
    {
        Ok(())
    }
}

} // verus!
