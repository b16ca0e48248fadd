//! Capacity limits, record sizes and time windows.

use vstd::prelude::*;

verus! {

/// Most administrators one list can hold.
pub const MAX_ADMINS: usize = 10;

/// Most creators one list can hold.
pub const MAX_CREATORS: usize = 10;

/// Bytes of the tag that starts every stored record.
pub const ANCHOR_DISCRIMINATOR: usize = 8;

/// Most bytes the identifier of an outside account may take.
pub const MAX_TWITTER_ID_LENGTH: usize = 64;

/// Most bytes the handle of an outside account may take.
pub const MAX_TWITTER_HANDLE_LENGTH: usize = 32;

/// Most characters a handle may have.
pub const MAX_HANDLE_CHARS: usize = 15;

/// Most characters a rejection reason may have.
pub const MAX_REJECTION_REASON_LENGTH: usize = 256;

/// Most characters a failure reason may have.
pub const MAX_FAILURE_REASON_LENGTH: usize = 256;

/// The least approval threshold.
pub const MIN_REQUIRED_APPROVALS: u8 = 1;

/// The greatest approval threshold.
pub const MAX_REQUIRED_APPROVALS: u8 = 10;

/// How many approvals a record may hold for each approval required.
pub const MAX_APPROVALS_PER_REQUIRED: usize = 2;

/// Most tweets one thread may carry.
pub const MAX_THREAD_LENGTH: u8 = 50;

/// Stored size of an identity record.
pub const TWITTER_ACCOUNT_SIZE: usize = ANCHOR_DISCRIMINATOR + 32 + 4 + MAX_TWITTER_ID_LENGTH + 4
    + MAX_TWITTER_HANDLE_LENGTH + 1 + 1 + 8 + 1;

/// Stored size of an administrator list.
pub const ADMIN_LIST_SIZE: usize = ANCHOR_DISCRIMINATOR + 32 + 4 + 32 * MAX_ADMINS + 32 + 1;

/// Stored size of a creator list.
pub const CREATOR_LIST_SIZE: usize = ANCHOR_DISCRIMINATOR + 32 + 4 + 32 * MAX_CREATORS + 32 + 1;

/// Stored size of a content record.
pub const BASE_CONTENT_SIZE: usize = ANCHOR_DISCRIMINATOR + 32 + 32 + 2 + 32 + 9 + 2 + 4 + 32
    * MAX_ADMINS + 4 + MAX_REJECTION_REASON_LENGTH + 4 + MAX_FAILURE_REASON_LENGTH + 8 + 8 + 1;

/// Tag in the address of an identity record: the bytes of `twitter-account`.
pub const TWITTER_ACCOUNT_SEED: [u8; 15] = [116, 119, 105, 116, 116, 101, 114, 45, 97, 99, 99, 111, 117, 110, 116];

/// Tag in the address of an administrator list: the bytes of `admin-list`.
pub const ADMIN_LIST_SEED: [u8; 10] = [97, 100, 109, 105, 110, 45, 108, 105, 115, 116];

/// Tag in the address of a creator list: the bytes of `creator-list`.
pub const CREATOR_LIST_SEED: [u8; 12] = [99, 114, 101, 97, 116, 111, 114, 45, 108, 105, 115, 116];

/// Tag in the address of a content record: the bytes of `content`.
pub const CONTENT_SEED: [u8; 7] = [99, 111, 110, 116, 101, 110, 116];

/// Least number of seconds between now and a scheduled publication.
pub const MIN_SCHEDULE_DELAY: i64 = 300;

/// Most seconds a publication may be scheduled ahead: thirty days.
pub const MAX_SCHEDULE_DELAY: i64 = 30 * 24 * 60 * 60;

/// The approval threshold a new identity record starts with.
pub const DEFAULT_REQUIRED_APPROVALS: u8 = 3;

} // verus!
