//! The administrators of an identity.

use vstd::prelude::*;
use crate::constants::MAX_ADMINS;
use crate::errors::HelmError;
use crate::keys::{contains_key, lemma_without, remove_key, without, PublicKey};

verus! {

/// The identities that may approve content under one identity record.
#[derive(Clone, Debug, PartialEq, Eq)]
pub struct AdminList {
    /// The identity record this list belongs to.
    pub twitter_account: PublicKey,
    /// The administrators, in the order in which they were added.
    pub admins: Vec<PublicKey>,
    /// The owner of the identity record at the time this list was made. It
    /// is a record of that time only: it does not follow a later change of
    /// owner, and the operations admit the identity record's owner.
    pub authority: PublicKey,
    /// Part of the record's derived address.
    pub bump: u8,
}

/// Whether `admin` can join `admins`: `AdminAlreadyExists` if it is there
/// already, `MaxAdminsReached` if the list is full.
pub open spec fn admin_addable(admins: Seq<PublicKey>, admin: PublicKey) -> Result<(), HelmError> {
    if admins.contains(admin) {
        Err(HelmError::AdminAlreadyExists)
    } else if admins.len() >= MAX_ADMINS {
        Err(HelmError::MaxAdminsReached)
    } else {
        Ok(())
    }
}

/// Whether `admin` can leave `admins`: `AdminDoesNotExist` if `admin` is not
/// among them, `CannotRemoveLastAdmin` if it is the only one.
pub open spec fn admin_removable(admins: Seq<PublicKey>, admin: PublicKey) -> Result<
    (),
    HelmError,
> {
    if !admins.contains(admin) {
        Err(HelmError::AdminDoesNotExist)
    } else if admins.len() <= 1 {
        Err(HelmError::CannotRemoveLastAdmin)
    } else {
        Ok(())
    }
}

impl AdminList {
    /// What holds of every list that the operations produce: at least one
    /// administrator, at most `MAX_ADMINS`, none of them twice.
    pub open spec fn wf(&self) -> bool {
        &&& 1 <= self.admins@.len() <= MAX_ADMINS
        &&& self.admins@.no_duplicates()
    }

    /// The list of a new identity record: `authority` is its only
    /// administrator and the one who may change it.
    pub fn new(twitter_account: PublicKey, authority: PublicKey, bump: u8) -> (list: AdminList)
        ensures
            list.twitter_account == twitter_account,
            list.admins@ == seq![authority],
            list.authority == authority,
            list.bump == bump,
            list.wf(),
    {
        let mut admins: Vec<PublicKey> = Vec::with_capacity(MAX_ADMINS);
        admins.push(authority);
        assert(admins@ =~= seq![authority]);
        AdminList { twitter_account, admins, authority, bump }
    }

    /// Makes this list the list of a new identity record, whatever it held
    /// before: `authority` is its only administrator. Always succeeds.
    pub fn initialize(&mut self, twitter_account: PublicKey, authority: PublicKey, bump: u8) -> (r:
        Result<(), HelmError>)
        ensures
            r is Ok,
            final(self).twitter_account == twitter_account,
            final(self).admins@ == seq![authority],
            final(self).authority == authority,
            final(self).bump == bump,
            final(self).wf(),
    {
        if !(MAX_ADMINS > 0) {
            return Err(HelmError::MaxAdminsReached);
        }
        self.admins = Vec::with_capacity(MAX_ADMINS);
        self.admins.push(authority);
        self.twitter_account = twitter_account;
        self.authority = authority;
        self.bump = bump;
        assert(self.admins@ =~= seq![authority]);
        Ok(())
    }

    /// Whether `admin` can be added, as `admin_addable` says.
    pub fn can_add_admin(&self, admin: &PublicKey) -> (r: Result<(), HelmError>)
        ensures
            r == admin_addable(self.admins@, *admin),
    {
        if contains_key(&self.admins, admin) {
            return Err(HelmError::AdminAlreadyExists);
        }
        if !(self.admins.len() < MAX_ADMINS) {
            return Err(HelmError::MaxAdminsReached);
        }
        Ok(())
    }

    /// Whether `admin` can be removed, as `admin_removable` says.
    pub fn can_remove_admin(&self, admin: &PublicKey) -> (r: Result<(), HelmError>)
        ensures
            r == admin_removable(self.admins@, *admin),
    {
        if !contains_key(&self.admins, admin) {
            return Err(HelmError::AdminDoesNotExist);
        }
        if !(self.admins.len() > 1) {
            return Err(HelmError::CannotRemoveLastAdmin);
        }
        Ok(())
    }

    /// Appends `admin` where `admin_addable` allows it; otherwise reports
    /// why not and leaves the list as it was.
    pub fn add_admin(&mut self, admin: PublicKey) -> (r: Result<(), HelmError>)
        ensures
            r == admin_addable(old(self).admins@, admin),
            r is Ok ==> final(self).admins@ == old(self).admins@.push(admin),
            r is Err ==> final(self).admins@ == old(self).admins@,
            final(self).twitter_account == old(self).twitter_account,
            final(self).authority == old(self).authority,
            final(self).bump == old(self).bump,
            old(self).wf() ==> final(self).wf(),
    {
        self.can_add_admin(&admin)?;
        self.admins.push(admin);
        proof {
            if old(self).wf() {
                lemma_push_keeps_distinct(old(self).admins@, admin);
            }
        }
        Ok(())
    }

    /// Takes `admin` out where `admin_removable` allows it; otherwise reports
    /// why not and leaves the list as it was.
    pub fn remove_admin(&mut self, admin: &PublicKey) -> (r: Result<(), HelmError>)
        ensures
            r == admin_removable(old(self).admins@, *admin),
            r is Ok ==> final(self).admins@ == without(old(self).admins@, *admin),
            r is Err ==> final(self).admins@ == old(self).admins@,
            final(self).twitter_account == old(self).twitter_account,
            final(self).authority == old(self).authority,
            final(self).bump == old(self).bump,
            old(self).wf() ==> final(self).wf(),
    {
        self.can_remove_admin(admin)?;
        remove_key(&mut self.admins, admin);
        proof {
            lemma_without(old(self).admins@, *admin);
        }
        Ok(())
    }
}

/// A list of distinct identities stays one when an identity that it does not
/// hold is appended.
pub proof fn lemma_push_keeps_distinct(list: Seq<PublicKey>, key: PublicKey)
    requires
        list.no_duplicates(),
        !list.contains(key),
    ensures
        list.push(key).no_duplicates(),
{
    let out = list.push(key);
    assert forall|i: int, j: int| 0 <= i < out.len() && 0 <= j < out.len() && i != j implies out[i]
        != out[j] by {
        if i < list.len() && j < list.len() {
            assert(list[i] != list[j]);
        } else if i < list.len() {
            assert(list.contains(list[i]));
        } else {
            assert(list.contains(list[j]));
        }
    }
}

} // verus!
