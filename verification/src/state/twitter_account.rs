//! The identity record.

use vstd::prelude::*;
use crate::constants::{DEFAULT_REQUIRED_APPROVALS, MAX_REQUIRED_APPROVALS, MIN_REQUIRED_APPROVALS};
use crate::errors::HelmError;
use crate::keys::PublicKey;

verus! {

/// The binding of an outside account to its owner, with the approval
/// threshold for content published under it.
#[derive(Clone, Debug, PartialEq, Eq)]
pub struct TwitterAccount {
    /// Who controls this record and its lists.
    pub owner: PublicKey,
    /// The outside account's identifier.
    pub twitter_id: String,
    /// The outside account's handle.
    pub twitter_handle: String,
    /// How many distinct approvals content needs.
    pub required_approvals: u8,
    /// Whether the outside account was verified.
    pub is_verified: bool,
    /// When the record was made.
    pub created_at: i64,
    /// Part of the record's derived address.
    pub bump: u8,
}

/// A threshold that an identity record may have.
pub open spec fn valid_threshold(value: u8) -> bool {
    MIN_REQUIRED_APPROVALS <= value <= MAX_REQUIRED_APPROVALS
}

impl TwitterAccount {
    /// What holds of every record that the operations produce: its threshold
    /// is a valid one.
    pub open spec fn wf(&self) -> bool {
        valid_threshold(self.required_approvals)
    }

    /// A new record for `owner`, made at `timestamp`: not yet verified, with
    /// the default threshold.
    pub fn new(
        owner: PublicKey,
        twitter_id: String,
        twitter_handle: String,
        timestamp: i64,
        bump: u8,
    ) -> (account: TwitterAccount)
        ensures
            account.owner == owner,
            account.twitter_id == twitter_id,
            account.twitter_handle == twitter_handle,
            account.required_approvals == DEFAULT_REQUIRED_APPROVALS,
            !account.is_verified,
            account.created_at == timestamp,
            account.bump == bump,
            account.wf(),
    {
        TwitterAccount {
            owner,
            twitter_id,
            twitter_handle,
            required_approvals: DEFAULT_REQUIRED_APPROVALS,
            is_verified: false,
            created_at: timestamp,
            bump,
        }
    }

    /// Makes this record a new one for `owner`, whatever it held before.
    pub fn initialize(
        &mut self,
        owner: PublicKey,
        twitter_id: String,
        twitter_handle: String,
        timestamp: i64,
        bump: u8,
    )
        ensures
            final(self).owner == owner,
            final(self).twitter_id == twitter_id,
            final(self).twitter_handle == twitter_handle,
            final(self).required_approvals == DEFAULT_REQUIRED_APPROVALS,
            !final(self).is_verified,
            final(self).created_at == timestamp,
            final(self).bump == bump,
            final(self).wf(),
    {
        self.owner = owner;
        self.twitter_id = twitter_id;
        self.twitter_handle = twitter_handle;
        self.required_approvals = DEFAULT_REQUIRED_APPROVALS;
        self.is_verified = false;
        self.created_at = timestamp;
        self.bump = bump;
    }

    /// Sets the threshold to `new_value` where that is a valid threshold;
    /// otherwise reports `InvalidRequiredApprovals` and leaves the record as
    /// it was.
    pub fn update_required_approvals(&mut self, new_value: u8) -> (r: Result<(), HelmError>)
        ensures
            r == (if valid_threshold(new_value) {
                Ok::<(), HelmError>(())
            } else {
                Err(HelmError::InvalidRequiredApprovals)
            }),
            r is Ok ==> *final(self) == (TwitterAccount {
                required_approvals: new_value,
                ..*old(self)
            }),
            r is Err ==> *final(self) == *old(self),
            old(self).wf() ==> final(self).wf(),
    {
        if !(new_value > 0 && new_value <= MAX_REQUIRED_APPROVALS) {
            return Err(HelmError::InvalidRequiredApprovals);
        }
        self.required_approvals = new_value;
        Ok(())
    }
}

} // verus!
