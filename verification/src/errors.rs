//! The failures an operation can report.

use vstd::prelude::*;
use anchor_lang::prelude::ProgramError;

verus! {

/// Every way an operation can be refused. Each kind is distinct, so a caller
/// can tell them apart.
#[derive(Clone, Copy, Debug, PartialEq, Eq, Structural)]
pub enum HelmError {
    /// Twitter account not verified.
    TwitterAccountNotVerified,
    /// Twitter account already verified.
    AlreadyVerified,
    /// Invalid Twitter handle format.
    InvalidTwitterHandle,
    /// Invalid Twitter ID format.
    InvalidTwitterId,
    /// Invalid content status for operation.
    InvalidContentStatus,
    /// Content is in terminal state.
    ContentInTerminalState,
    /// Content not active.
    ContentNotActive,
    /// Invalid state transition.
    InvalidStateTransition,
    /// Content already submitted for approval.
    AlreadySubmitted,
    /// Content already approved by this admin.
    AlreadyApproved,
    /// Insufficient approvals.
    InsufficientApprovals,
    /// Invalid minimum required approvals.
    InvalidRequiredApprovals,
    /// Admin already exists.
    AdminAlreadyExists,
    /// Admin does not exist.
    AdminDoesNotExist,
    /// Cannot remove last admin.
    CannotRemoveLastAdmin,
    /// Maximum number of admins reached.
    MaxAdminsReached,
    /// Creator already exists.
    CreatorAlreadyExists,
    /// Creator does not exist.
    CreatorDoesNotExist,
    /// Maximum number of creators reached.
    MaxCreatorsReached,
    /// Invalid scheduling time.
    InvalidScheduleTime,
    /// Schedule time required.
    ScheduleTimeRequired,
    /// Schedule time in past.
    ScheduleTimeInPast,
    /// Not authorized.
    Unauthorized,
    /// Invalid Twitter account.
    InvalidTwitterAccount,
    /// Invalid content hash.
    InvalidContentHash,
    /// Content too long.
    ContentTooLong,
    /// Thread too long.
    ThreadTooLong,
    /// Too many requests.
    TooManyRequests,
}

/// The outcome of one check: fine where `holds`, else the failure `error`.
pub open spec fn check(holds: bool, error: HelmError) -> Result<(), HelmError> {
    if holds {
        Ok(())
    } else {
        Err(error)
    }
}

/// The outcome of two checks in a row: the refusal of the first, else the
/// outcome of the second.
pub open spec fn both(first: Result<(), HelmError>, second: Result<(), HelmError>) -> Result<
    (),
    HelmError,
> {
    match first {
        Err(e) => Err(e),
        Ok(()) => second,
    }
}

/// Reports `error` unless `holds`.
pub fn ensure(holds: bool, error: HelmError) -> (r: Result<(), HelmError>)
    ensures
        r == check(holds, error),
{
    if holds {
        Ok(())
    } else {
        Err(error)
    }
}

/// Why an operation that reads the ledger's clock did not go through.
#[derive(Debug)]
pub enum OpError {
    /// A rule of this library refused the operation.
    Rule(HelmError),
    /// The clock could not be read; the ledger's error says why.
    Clock(ProgramError),
}

/// The first code of this library's failures; the kinds are numbered from it in
/// the order in which they are declared.
pub const ERROR_CODE_OFFSET: u32 = 6000;

impl HelmError {
    /// The place of this kind in the declaration, counted from zero.
    pub open spec fn index(self) -> nat {
        match self {
            HelmError::TwitterAccountNotVerified => 0,
            HelmError::AlreadyVerified => 1,
            HelmError::InvalidTwitterHandle => 2,
            HelmError::InvalidTwitterId => 3,
            HelmError::InvalidContentStatus => 4,
            HelmError::ContentInTerminalState => 5,
            HelmError::ContentNotActive => 6,
            HelmError::InvalidStateTransition => 7,
            HelmError::AlreadySubmitted => 8,
            HelmError::AlreadyApproved => 9,
            HelmError::InsufficientApprovals => 10,
            HelmError::InvalidRequiredApprovals => 11,
            HelmError::AdminAlreadyExists => 12,
            HelmError::AdminDoesNotExist => 13,
            HelmError::CannotRemoveLastAdmin => 14,
            HelmError::MaxAdminsReached => 15,
            HelmError::CreatorAlreadyExists => 16,
            HelmError::CreatorDoesNotExist => 17,
            HelmError::MaxCreatorsReached => 18,
            HelmError::InvalidScheduleTime => 19,
            HelmError::ScheduleTimeRequired => 20,
            HelmError::ScheduleTimeInPast => 21,
            HelmError::Unauthorized => 22,
            HelmError::InvalidTwitterAccount => 23,
            HelmError::InvalidContentHash => 24,
            HelmError::ContentTooLong => 25,
            HelmError::ThreadTooLong => 26,
            HelmError::TooManyRequests => 27,
        }
    }

    /// The text that describes this kind.
    pub open spec fn message_text(self) -> Seq<char> {
        match self {
            HelmError::TwitterAccountNotVerified => "Twitter account not verified"@,
            HelmError::AlreadyVerified => "Twitter account already verified"@,
            HelmError::InvalidTwitterHandle => "Invalid Twitter handle format"@,
            HelmError::InvalidTwitterId => "Invalid Twitter ID format"@,
            HelmError::InvalidContentStatus => "Invalid content status for operation"@,
            HelmError::ContentInTerminalState => "Content is in terminal state"@,
            HelmError::ContentNotActive => "Content not active"@,
            HelmError::InvalidStateTransition => "Invalid state transition"@,
            HelmError::AlreadySubmitted => "Content already submitted for approval"@,
            HelmError::AlreadyApproved => "Content already approved by this admin"@,
            HelmError::InsufficientApprovals => "Insufficient approvals"@,
            HelmError::InvalidRequiredApprovals => "Invalid minimum required approvals"@,
            HelmError::AdminAlreadyExists => "Admin already exists"@,
            HelmError::AdminDoesNotExist => "Admin does not exist"@,
            HelmError::CannotRemoveLastAdmin => "Cannot remove last admin"@,
            HelmError::MaxAdminsReached => "Maximum number of admins reached"@,
            HelmError::CreatorAlreadyExists => "Creator already exists"@,
            HelmError::CreatorDoesNotExist => "Creator does not exist"@,
            HelmError::MaxCreatorsReached => "Maximum number of creators reached"@,
            HelmError::InvalidScheduleTime => "Invalid scheduling time"@,
            HelmError::ScheduleTimeRequired => "Schedule time required"@,
            HelmError::ScheduleTimeInPast => "Schedule time in past"@,
            HelmError::Unauthorized => "Not authorized"@,
            HelmError::InvalidTwitterAccount => "Invalid Twitter account"@,
            HelmError::InvalidContentHash => "Invalid content hash"@,
            HelmError::ContentTooLong => "Content too long"@,
            HelmError::ThreadTooLong => "Thread too long"@,
            HelmError::TooManyRequests => "Too many requests"@,
        }
    }

    /// The number under which this failure is reported: `ERROR_CODE_OFFSET`
    /// plus the kind's place in the declaration.
    pub fn code(&self) -> (code: u32)
        ensures
            code == ERROR_CODE_OFFSET + self.index(),
    {
        match *self {
            HelmError::TwitterAccountNotVerified => 6000,
            HelmError::AlreadyVerified => 6001,
            HelmError::InvalidTwitterHandle => 6002,
            HelmError::InvalidTwitterId => 6003,
            HelmError::InvalidContentStatus => 6004,
            HelmError::ContentInTerminalState => 6005,
            HelmError::ContentNotActive => 6006,
            HelmError::InvalidStateTransition => 6007,
            HelmError::AlreadySubmitted => 6008,
            HelmError::AlreadyApproved => 6009,
            HelmError::InsufficientApprovals => 6010,
            HelmError::InvalidRequiredApprovals => 6011,
            HelmError::AdminAlreadyExists => 6012,
            HelmError::AdminDoesNotExist => 6013,
            HelmError::CannotRemoveLastAdmin => 6014,
            HelmError::MaxAdminsReached => 6015,
            HelmError::CreatorAlreadyExists => 6016,
            HelmError::CreatorDoesNotExist => 6017,
            HelmError::MaxCreatorsReached => 6018,
            HelmError::InvalidScheduleTime => 6019,
            HelmError::ScheduleTimeRequired => 6020,
            HelmError::ScheduleTimeInPast => 6021,
            HelmError::Unauthorized => 6022,
            HelmError::InvalidTwitterAccount => 6023,
            HelmError::InvalidContentHash => 6024,
            HelmError::ContentTooLong => 6025,
            HelmError::ThreadTooLong => 6026,
            HelmError::TooManyRequests => 6027,
        }
    }

    /// The text that describes this failure.
    pub fn message(&self) -> (text: &'static str)
        ensures
            text@ == self.message_text(),
    {
        match *self {
            HelmError::TwitterAccountNotVerified => "Twitter account not verified",
            HelmError::AlreadyVerified => "Twitter account already verified",
            HelmError::InvalidTwitterHandle => "Invalid Twitter handle format",
            HelmError::InvalidTwitterId => "Invalid Twitter ID format",
            HelmError::InvalidContentStatus => "Invalid content status for operation",
            HelmError::ContentInTerminalState => "Content is in terminal state",
            HelmError::ContentNotActive => "Content not active",
            HelmError::InvalidStateTransition => "Invalid state transition",
            HelmError::AlreadySubmitted => "Content already submitted for approval",
            HelmError::AlreadyApproved => "Content already approved by this admin",
            HelmError::InsufficientApprovals => "Insufficient approvals",
            HelmError::InvalidRequiredApprovals => "Invalid minimum required approvals",
            HelmError::AdminAlreadyExists => "Admin already exists",
            HelmError::AdminDoesNotExist => "Admin does not exist",
            HelmError::CannotRemoveLastAdmin => "Cannot remove last admin",
            HelmError::MaxAdminsReached => "Maximum number of admins reached",
            HelmError::CreatorAlreadyExists => "Creator already exists",
            HelmError::CreatorDoesNotExist => "Creator does not exist",
            HelmError::MaxCreatorsReached => "Maximum number of creators reached",
            HelmError::InvalidScheduleTime => "Invalid scheduling time",
            HelmError::ScheduleTimeRequired => "Schedule time required",
            HelmError::ScheduleTimeInPast => "Schedule time in past",
            HelmError::Unauthorized => "Not authorized",
            HelmError::InvalidTwitterAccount => "Invalid Twitter account",
            HelmError::InvalidContentHash => "Invalid content hash",
            HelmError::ContentTooLong => "Content too long",
            HelmError::ThreadTooLong => "Thread too long",
            HelmError::TooManyRequests => "Too many requests",
        }
    }
}

} // verus!
