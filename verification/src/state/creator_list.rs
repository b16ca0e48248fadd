//! The creators of an identity.

use vstd::prelude::*;
use crate::constants::{CREATOR_LIST_SEED, MAX_CREATORS};
use crate::errors::HelmError;
use crate::keys::{contains_key, copy_bytes, lemma_without, remove_key, without, PublicKey};
use crate::state::admin_list::lemma_push_keeps_distinct;

verus! {

/// The identities that may create content under one identity record.
#[derive(Clone, Debug, PartialEq, Eq)]
pub struct CreatorList {
    /// The identity record this list belongs to.
    pub twitter_account: PublicKey,
    /// The creators, in the order in which they were added.
    pub creators: Vec<PublicKey>,
    /// The owner of the identity record at the time this list was made. It
    /// is a record of that time only: it does not follow a later change of
    /// owner, and the operations admit the identity record's owner.
    pub authority: PublicKey,
    /// Part of the record's derived address.
    pub bump: u8,
}

/// Whether `creator` can join `creators`: `CreatorAlreadyExists` if it is
/// there already, `MaxCreatorsReached` if the list is full.
pub open spec fn creator_addable(creators: Seq<PublicKey>, creator: PublicKey) -> Result<
    (),
    HelmError,
> {
    if creators.contains(creator) {
        Err(HelmError::CreatorAlreadyExists)
    } else if creators.len() >= MAX_CREATORS {
        Err(HelmError::MaxCreatorsReached)
    } else {
        Ok(())
    }
}

/// Whether `creator` can leave `creators`: `CreatorDoesNotExist` if it is not
/// among them.
pub open spec fn creator_removable(creators: Seq<PublicKey>, creator: PublicKey) -> Result<
    (),
    HelmError,
> {
    if !creators.contains(creator) {
        Err(HelmError::CreatorDoesNotExist)
    } else {
        Ok(())
    }
}

impl CreatorList {
    /// What holds of every list that the operations produce: at most
    /// `MAX_CREATORS` creators, none of them twice.
    pub open spec fn wf(&self) -> bool {
        &&& self.creators@.len() <= MAX_CREATORS
        &&& self.creators@.no_duplicates()
    }

    /// The key from which the address of a creator list derives: the
    /// creator-list tag, then the identifier of the outside account.
    pub fn seeds(twitter_id: &[u8]) -> (seeds: Vec<Vec<u8>>)
        ensures
            seeds@.len() == 2,
            seeds@[0]@ == CREATOR_LIST_SEED@,
            seeds@[1]@ == twitter_id@,
    {
        let mut seeds: Vec<Vec<u8>> = Vec::new();
        seeds.push(copy_bytes(CREATOR_LIST_SEED.as_slice()));
        seeds.push(copy_bytes(twitter_id));
        seeds
    }

    /// The empty list of a new identity record, which `authority` may change.
    pub fn new(twitter_account: PublicKey, authority: PublicKey, bump: u8) -> (list: CreatorList)
        ensures
            list.twitter_account == twitter_account,
            list.creators@ == Seq::<PublicKey>::empty(),
            list.authority == authority,
            list.bump == bump,
            list.wf(),
    {
        CreatorList { twitter_account, creators: Vec::new(), authority, bump }
    }

    /// Appends `creator` where `creator_addable` allows it; otherwise reports
    /// why not and leaves the list as it was.
    pub fn add_creator(&mut self, creator: PublicKey) -> (r: Result<(), HelmError>)
        ensures
            r == creator_addable(old(self).creators@, creator),
            r is Ok ==> final(self).creators@ == old(self).creators@.push(creator),
            r is Err ==> final(self).creators@ == old(self).creators@,
            final(self).twitter_account == old(self).twitter_account,
            final(self).authority == old(self).authority,
            final(self).bump == old(self).bump,
            old(self).wf() ==> final(self).wf(),
    {
        if contains_key(&self.creators, &creator) {
            return Err(HelmError::CreatorAlreadyExists);
        }
        if !(self.creators.len() < MAX_CREATORS) {
            return Err(HelmError::MaxCreatorsReached);
        }
        self.creators.push(creator);
        proof {
            if old(self).wf() {
                lemma_push_keeps_distinct(old(self).creators@, creator);
            }
        }
        Ok(())
    }

    /// Takes `creator` out where `creator_removable` allows it; otherwise
    /// reports why not and leaves the list as it was.
    pub fn remove_creator(&mut self, creator: &PublicKey) -> (r: Result<(), HelmError>)
        ensures
            r == creator_removable(old(self).creators@, *creator),
            r is Ok ==> final(self).creators@ == without(old(self).creators@, *creator),
            r is Err ==> final(self).creators@ == old(self).creators@,
            final(self).twitter_account == old(self).twitter_account,
            final(self).authority == old(self).authority,
            final(self).bump == old(self).bump,
            old(self).wf() ==> final(self).wf(),
    {
        if !contains_key(&self.creators, creator) {
            return Err(HelmError::CreatorDoesNotExist);
        }
        remove_key(&mut self.creators, creator);
        proof {
            lemma_without(old(self).creators@, *creator);
        }
        Ok(())
    }
}

} // verus!
