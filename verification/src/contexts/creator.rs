//! Who may change the creators.

use vstd::prelude::*;
use crate::constants::MAX_CREATORS;
use crate::contexts::admin::{owner_gate, pass_owner_gate};
use crate::errors::{check, ensure, HelmError};
use crate::keys::{contains_key, PublicKey};
use crate::state::creator_list::CreatorList;
use crate::state::twitter_account::TwitterAccount;

verus! {

/// The checks of an operation on the creators.
pub trait CreatorValidator {
    fn validate_creator_limit(&self) -> (r: Result<(), HelmError>);

    fn validate_creator_authority(&self) -> (r: Result<(), HelmError>);

    fn validate_creator_uniqueness(&self, creator: &PublicKey) -> (r: Result<(), HelmError>);

    fn validate_creator_exists(&self, creator: &PublicKey) -> (r: Result<(), HelmError>);
}

/// An operation on the creators of `twitter_account`, asked for by `owner`.
#[derive(Clone, Debug, PartialEq, Eq)]
pub struct ManageCreator {
    pub creator_list: CreatorList,
    /// The address under which `twitter_account` is stored.
    pub twitter_account_key: PublicKey,
    pub twitter_account: TwitterAccount,
    /// The authenticated caller.
    pub owner: PublicKey,
}

impl ManageCreator {
    /// The admission check of an operation on the creators:
    /// `InvalidTwitterAccount` unless the list belongs to the identity record,
    /// then `owner_gate`.
    pub open spec fn gate(&self) -> Result<(), HelmError> {
        if self.creator_list.twitter_account != self.twitter_account_key {
            Err(HelmError::InvalidTwitterAccount)
        } else {
            owner_gate(self.twitter_account, self.owner)
        }
    }

    /// Admits the caller as `gate` says.
    pub fn authorize(&self) -> (r: Result<(), HelmError>)
        ensures
            r == self.gate(),
    {
        if !(self.creator_list.twitter_account == self.twitter_account_key) {
            return Err(HelmError::InvalidTwitterAccount);
        }
        pass_owner_gate(&self.twitter_account, &self.owner)
    }
}

impl CreatorValidator for ManageCreator {
    /// `MaxCreatorsReached` unless the list has room.
    fn validate_creator_limit(&self) -> (r: Result<(), HelmError>)
        ensures
            r == check(
                self.creator_list.creators@.len() < MAX_CREATORS,
                HelmError::MaxCreatorsReached,
            ),
    {
        ensure(self.creator_list.creators.len() < MAX_CREATORS, HelmError::MaxCreatorsReached)
    }

    /// `Unauthorized` unless the caller owns the identity record.
    fn validate_creator_authority(&self) -> (r: Result<(), HelmError>)
        ensures
            r == check(self.twitter_account.owner == self.owner, HelmError::Unauthorized),
    {
        ensure(self.twitter_account.owner == self.owner, HelmError::Unauthorized)
    }

    /// `CreatorAlreadyExists` if `creator` is in the list.
    fn validate_creator_uniqueness(&self, creator: &PublicKey) -> (r: Result<(), HelmError>)
        ensures
            r == check(
                !self.creator_list.creators@.contains(*creator),
                HelmError::CreatorAlreadyExists,
            ),
    {
        ensure(!contains_key(&self.creator_list.creators, creator), HelmError::CreatorAlreadyExists)
    }

    /// `CreatorDoesNotExist` unless `creator` is in the list.
    fn validate_creator_exists(&self, creator: &PublicKey) -> (r: Result<(), HelmError>)
        ensures
            r == check(
                self.creator_list.creators@.contains(*creator),
                HelmError::CreatorDoesNotExist,
            ),
    {
        ensure(contains_key(&self.creator_list.creators, creator), HelmError::CreatorDoesNotExist)
    }
}

} // verus!
