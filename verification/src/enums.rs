//! What a piece of content is, and where it stands in its life.

use vstd::prelude::*;
use crate::constants::MAX_THREAD_LENGTH;
use crate::errors::HelmError;

verus! {

/// A single tweet, or a thread of several.
#[derive(Clone, Copy, Debug, PartialEq, Eq, Structural)]
pub enum ContentType {
    Tweet,
    Thread { tweet_count: u8 },
}

impl ContentType {
    /// Whether a thread stays within the longest thread allowed. A single
    /// tweet always does.
    pub open spec fn within_bounds(self) -> bool {
        match self {
            ContentType::Tweet => true,
            ContentType::Thread { tweet_count } => tweet_count <= MAX_THREAD_LENGTH,
        }
    }

    /// Accepts a single tweet and any thread of at most `MAX_THREAD_LENGTH`
    /// tweets; a longer thread is `ThreadTooLong`.
    pub fn validate(&self) -> (r: Result<(), HelmError>)
        ensures
            r == (if self.within_bounds() {
                Ok::<(), HelmError>(())
            } else {
                Err(HelmError::ThreadTooLong)
            }),
    {
        match *self {
            ContentType::Tweet => Ok(()),
            ContentType::Thread { tweet_count } => {
                if tweet_count <= MAX_THREAD_LENGTH {
                    Ok(())
                } else {
                    Err(HelmError::ThreadTooLong)
                }
            },
        }
    }
}

/// The states of the approval state machine.
#[derive(Clone, Copy, Debug, PartialEq, Eq, Structural)]
pub enum ContentStatus {
    Draft,
    PendingApproval,
    Approved,
    Rejected,
    Published,
    Failed,
    Canceled,
}

} // verus!
