//! Registering and verifying an identity.

use vstd::prelude::*;
use crate::constants::{MAX_HANDLE_CHARS, MAX_TWITTER_HANDLE_LENGTH, MAX_TWITTER_ID_LENGTH};
use crate::errors::{check, ensure, HelmError};
use crate::keys::PublicKey;
use crate::state::admin_list::AdminList;
use crate::state::creator_list::CreatorList;
use crate::state::twitter_account::TwitterAccount;
use crate::text::{stored_len, within_bytes, within_chars};

verus! {

/// Whether `char::is_alphanumeric` of the standard library holds of `c`.
pub uninterp spec fn alphanumeric(c: char) -> bool;

/// Whether `char::is_numeric` of the standard library holds of `c`.
pub uninterp spec fn numeric(c: char) -> bool;

/// Calls `char::is_alphanumeric`, which tells by the character alone whether
/// it is a letter or a number; the result is named `alphanumeric`.
#[verifier::external_body]
fn is_alphanumeric(c: char) -> (r: bool)
    ensures
        r == alphanumeric(c),
{
    c.is_alphanumeric()
}

/// Calls `char::is_numeric`, which tells by the character alone whether it
/// is a number; the result is named `numeric`.
#[verifier::external_body]
fn is_numeric(c: char) -> (r: bool)
    ensures
        r == numeric(c),
{
    c.is_numeric()
}

/// A character that a handle may hold: a letter, a number or an underscore.
pub open spec fn handle_char(c: char) -> bool {
    alphanumeric(c) || c == '_'
}

/// A well-formed handle: at most `MAX_HANDLE_CHARS` characters, which take
/// at most `MAX_TWITTER_HANDLE_LENGTH` bytes when stored, handle characters
/// only.
pub open spec fn valid_handle(handle: Seq<char>) -> bool {
    &&& handle.len() <= MAX_HANDLE_CHARS
    &&& stored_len(handle) <= MAX_TWITTER_HANDLE_LENGTH
    &&& forall|i: int| 0 <= i < handle.len() ==> handle_char(#[trigger] handle[i])
}

/// A well-formed identifier: at most `MAX_TWITTER_ID_LENGTH` bytes, of
/// numbers only.
pub open spec fn valid_id(id: Seq<char>) -> bool {
    &&& stored_len(id) <= MAX_TWITTER_ID_LENGTH
    &&& forall|i: int| 0 <= i < id.len() ==> numeric(#[trigger] id[i])
}

/// Whether a handle may hold `c`, given whether `c` is a letter or a number:
/// it may where that is so, and where `c` is an underscore.
pub fn allowed_in_handle(c: char, letter_or_number: bool) -> (allowed: bool)
    ensures
        allowed == (letter_or_number || c == '_'),
{
    letter_or_number || c == '_'
}

/// Whether every character of `text` is a handle character.
pub fn all_handle_chars(text: &str) -> (all: bool)
    ensures
        all == forall|i: int| 0 <= i < text@.len() ==> handle_char(#[trigger] text@[i]),
{
    let mut all = true;
    for c in it: text.chars()
        invariant
            it.seq() == text@,
            all == forall|i: int| 0 <= i < it.index() ==> handle_char(#[trigger] text@[i]),
    {
        let fine = allowed_in_handle(c, is_alphanumeric(c));
        all = all && fine;
    }
    all
}

/// Whether every character of `text` is a number.
pub fn all_numeric_chars(text: &str) -> (all: bool)
    ensures
        all == forall|i: int| 0 <= i < text@.len() ==> numeric(#[trigger] text@[i]),
{
    let mut all = true;
    for c in it: text.chars()
        invariant
            it.seq() == text@,
            all == forall|i: int| 0 <= i < it.index() ==> numeric(#[trigger] text@[i]),
    {
        let fine = is_numeric(c);
        all = all && fine;
    }
    all
}

/// The format checks of a registration.
pub trait TwitterAccountValidator {
    fn validate_handle_format(&self, handle: &str) -> (r: Result<(), HelmError>);

    fn validate_id_format(&self, id: &str) -> (r: Result<(), HelmError>);
}

/// The registration of an identity by `owner`: the three records to fill,
/// and the parts of their derived addresses.
#[derive(Clone, Debug, PartialEq, Eq)]
pub struct RegisterTwitterAccount {
    pub twitter_account: TwitterAccount,
    /// The address under which `twitter_account` is stored.
    pub twitter_account_key: PublicKey,
    pub admin_list: AdminList,
    pub creator_list: CreatorList,
    /// The authenticated caller.
    pub owner: PublicKey,
    pub twitter_account_bump: u8,
    pub admin_list_bump: u8,
    pub creator_list_bump: u8,
}

impl TwitterAccountValidator for RegisterTwitterAccount {
    /// `InvalidTwitterHandle` unless `handle` is a well-formed handle.
    fn validate_handle_format(&self, handle: &str) -> (r: Result<(), HelmError>)
        ensures
            r == check(valid_handle(handle@), HelmError::InvalidTwitterHandle),
    {
        if !within_chars(handle, MAX_HANDLE_CHARS) {
            return Err(HelmError::InvalidTwitterHandle);
        }
        if !within_bytes(handle, MAX_TWITTER_HANDLE_LENGTH) {
            return Err(HelmError::InvalidTwitterHandle);
        }
        ensure(all_handle_chars(handle), HelmError::InvalidTwitterHandle)
    }

    /// `InvalidTwitterId` unless `id` is a well-formed identifier.
    fn validate_id_format(&self, id: &str) -> (r: Result<(), HelmError>)
        ensures
            r == check(valid_id(id@), HelmError::InvalidTwitterId),
    {
        if !within_bytes(id, MAX_TWITTER_ID_LENGTH) {
            return Err(HelmError::InvalidTwitterId);
        }
        ensure(all_numeric_chars(id), HelmError::InvalidTwitterId)
    }
}

/// The verification of `twitter_account`, asked for by `owner`.
#[derive(Clone, Debug, PartialEq, Eq)]
pub struct VerifyTwitterAccount {
    pub twitter_account: TwitterAccount,
    /// The authenticated caller.
    pub owner: PublicKey,
}

impl VerifyTwitterAccount {
    /// The admission check of a verification: `Unauthorized` unless the caller
    /// owns the record.
    pub open spec fn gate(&self) -> Result<(), HelmError> {
        check(self.twitter_account.owner == self.owner, HelmError::Unauthorized)
    }

    /// Admits the caller as `gate` says.
    pub fn authorize(&self) -> (r: Result<(), HelmError>)
        ensures
            r == self.gate(),
    {
        ensure(self.twitter_account.owner == self.owner, HelmError::Unauthorized)
    }
}

} // verus!
