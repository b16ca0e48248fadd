//! The content record and its approval state machine.

use vstd::prelude::*;
use crate::constants::{
    CONTENT_SEED,
    MAX_APPROVALS_PER_REQUIRED,
    MAX_FAILURE_REASON_LENGTH,
    MAX_REJECTION_REASON_LENGTH,
    MAX_SCHEDULE_DELAY,
    MIN_SCHEDULE_DELAY,
};
use crate::enums::{ContentStatus, ContentType};
use crate::clock::unix_timestamp;
use crate::errors::{check, ensure, HelmError, OpError};
use crate::keys::{contains_key, copy_bytes, PublicKey};
use crate::text::within_chars;

verus! {

/// One piece of governed content.
#[derive(Clone, Debug, PartialEq, Eq)]
pub struct Content {
    /// The identity record this content belongs to.
    pub twitter_account: PublicKey,
    /// Who submitted the content.
    pub author: PublicKey,
    /// A single tweet or a thread.
    pub content_type: ContentType,
    /// Fingerprint of the content itself, which is kept elsewhere.
    pub content_hash: [u8; 32],
    /// When the content is to be published, if a time was set.
    pub scheduled_for: Option<i64>,
    /// Where the content stands.
    pub status: ContentStatus,
    /// Who has approved so far, each identity once.
    pub approvals: Vec<PublicKey>,
    /// Why the content was rejected, while it is rejected.
    pub rejection_reason: Option<String>,
    /// Why publication failed, if it did.
    pub failure_reason: Option<String>,
    /// When the record was made.
    pub created_at: i64,
    /// When the record was last changed.
    pub updated_at: i64,
    /// Part of the record's derived address.
    pub bump: u8,
}

/// A content record as a mathematical value: the approvals are a sequence of
/// identities, a reason is its sequence of characters.
pub struct ContentModel {
    pub twitter_account: PublicKey,
    pub author: PublicKey,
    pub content_type: ContentType,
    pub content_hash: [u8; 32],
    pub scheduled_for: Option<i64>,
    pub status: ContentStatus,
    pub approvals: Seq<PublicKey>,
    pub rejection_reason: Option<Seq<char>>,
    pub failure_reason: Option<Seq<char>>,
    pub created_at: i64,
    pub updated_at: i64,
    pub bump: u8,
}

/// The characters of an optional text.
pub open spec fn text_of(reason: Option<String>) -> Option<Seq<char>> {
    match reason {
        Some(text) => Some(text@),
        None => None,
    }
}

impl View for Content {
    type V = ContentModel;

    open spec fn view(&self) -> ContentModel {
        ContentModel {
            twitter_account: self.twitter_account,
            author: self.author,
            content_type: self.content_type,
            content_hash: self.content_hash,
            scheduled_for: self.scheduled_for,
            status: self.status,
            approvals: self.approvals@,
            rejection_reason: text_of(self.rejection_reason),
            failure_reason: text_of(self.failure_reason),
            created_at: self.created_at,
            updated_at: self.updated_at,
            bump: self.bump,
        }
    }
}

/// The table of legal moves: from `from`, the state machine may go to `to`.
pub open spec fn legal_transition(from: ContentStatus, to: ContentStatus) -> bool {
    match from {
        ContentStatus::Draft => to == ContentStatus::PendingApproval || to
            == ContentStatus::Canceled,
        ContentStatus::PendingApproval => to == ContentStatus::Approved || to
            == ContentStatus::Rejected || to == ContentStatus::Canceled,
        ContentStatus::Approved => to == ContentStatus::Published || to == ContentStatus::Failed
            || to == ContentStatus::Canceled,
        ContentStatus::Rejected => to == ContentStatus::Draft,
        ContentStatus::Failed => to == ContentStatus::Draft,
        ContentStatus::Published => false,
        ContentStatus::Canceled => false,
    }
}

/// The states in which a record is finished.
pub open spec fn terminal(status: ContentStatus) -> bool {
    status == ContentStatus::Published || status == ContentStatus::Failed || status
        == ContentStatus::Canceled
}

/// A timestamp is positive and leaves room for the longest schedule delay
/// below the largest timestamp.
pub open spec fn within_schedule_bounds(timestamp: i64) -> bool {
    timestamp > 0 && timestamp <= i64::MAX - MAX_SCHEDULE_DELAY
}

/// A schedule is acceptable at time `now`: either none is set, or the time
/// set lies more than `MIN_SCHEDULE_DELAY` and no more than
/// `MAX_SCHEDULE_DELAY` after `now`, the end of that window is itself a
/// timestamp, and the time set is within the schedule bounds.
pub open spec fn schedule_ok(scheduled_for: Option<i64>, now: i64) -> bool {
    match scheduled_for {
        None => true,
        Some(at) => {
            &&& now + MAX_SCHEDULE_DELAY <= i64::MAX
            &&& now + MIN_SCHEDULE_DELAY < at
            &&& at <= now + MAX_SCHEDULE_DELAY
            &&& within_schedule_bounds(at)
        },
    }
}

/// A schedule, if one is set, lies strictly after `now`.
pub open spec fn schedule_ahead(scheduled_for: Option<i64>, now: i64) -> bool {
    match scheduled_for {
        None => true,
        Some(at) => at > now,
    }
}

impl ContentModel {
    /// A new draft, made at `timestamp`: no approvals and no reasons.
    pub open spec fn draft(
        twitter_account: PublicKey,
        author: PublicKey,
        content_type: ContentType,
        content_hash: [u8; 32],
        scheduled_for: Option<i64>,
        bump: u8,
        timestamp: i64,
    ) -> ContentModel {
        ContentModel {
            twitter_account,
            author,
            content_type,
            content_hash,
            scheduled_for,
            status: ContentStatus::Draft,
            approvals: Seq::empty(),
            rejection_reason: None,
            failure_reason: None,
            created_at: timestamp,
            updated_at: timestamp,
            bump,
        }
    }

    /// What holds of every record that the operations produce: no identity
    /// approved twice, a draft carries no approvals and no reasons, only a
    /// rejected record carries a rejection reason, only a failed record
    /// carries a failure reason, and a reason fits the space kept for it.
    pub open spec fn wf(self) -> bool {
        &&& self.approvals.no_duplicates()
        &&& self.status == ContentStatus::Draft ==> self.approvals.len() == 0
            && self.rejection_reason is None && self.failure_reason is None
        &&& self.rejection_reason is Some ==> self.status == ContentStatus::Rejected
            && self.rejection_reason->0.len() <= MAX_REJECTION_REASON_LENGTH
        &&& self.failure_reason is Some ==> self.status == ContentStatus::Failed
            && self.failure_reason->0.len() <= MAX_FAILURE_REASON_LENGTH
    }

    /// The record after a move to `to` at time `now`. Entering `Draft` clears
    /// the approvals and both reasons; leaving `Rejected` clears the rejection
    /// reason; the change is stamped with `now`.
    pub open spec fn moved_to(self, to: ContentStatus, now: i64) -> ContentModel {
        ContentModel {
            status: to,
            approvals: if to == ContentStatus::Draft {
                Seq::empty()
            } else {
                self.approvals
            },
            rejection_reason: if to == ContentStatus::Draft || (self.status
                == ContentStatus::Rejected && to != ContentStatus::Rejected) {
                None
            } else {
                self.rejection_reason
            },
            failure_reason: if to == ContentStatus::Draft {
                None
            } else {
                self.failure_reason
            },
            updated_at: now,
            ..self
        }
    }

    /// A transition to `to` at time `now`: the moved record where the table
    /// allows the move, `InvalidStateTransition` where it does not.
    pub open spec fn transition(self, to: ContentStatus, now: i64) -> Result<
        ContentModel,
        HelmError,
    > {
        if legal_transition(self.status, to) {
            Ok(self.moved_to(to, now))
        } else {
            Err(HelmError::InvalidStateTransition)
        }
    }

    /// The record moved on to `Approved` where it holds `required_approvals`
    /// approvals or more, and as it is where it holds fewer.
    pub open spec fn settled(self, required_approvals: u8, now: i64) -> ContentModel {
        if self.approvals.len() >= required_approvals {
            self.moved_to(ContentStatus::Approved, now)
        } else {
            self
        }
    }

    /// The record with `who` among its approvals: appended where it was not
    /// there, nothing changed where it was.
    pub open spec fn listing(self, who: PublicKey) -> ContentModel {
        if self.approvals.contains(who) {
            self
        } else {
            ContentModel { approvals: self.approvals.push(who), ..self }
        }
    }

    /// The record with `approver` appended to its approvals and, where that
    /// brings the count to `required_approvals` or more, moved on to
    /// `Approved`.
    pub open spec fn counted(self, approver: PublicKey, required_approvals: u8, now: i64)
        -> ContentModel {
        (ContentModel { approvals: self.approvals.push(approver), ..self }).settled(
            required_approvals,
            now,
        )
    }

    /// Whether the record can be submitted, whatever the time: only a draft
    /// can (`InvalidContentStatus`).
    pub open spec fn submittable(self) -> Result<(), HelmError> {
        check(self.status == ContentStatus::Draft, HelmError::InvalidContentStatus)
    }

    /// Submission by `authority` at time `now`.
    ///
    /// The record must be submittable. A schedule, if set, must lie after
    /// `now` (`ScheduleTimeInPast`) and be acceptable at `now`
    /// (`InvalidScheduleTime`). The record then waits for approval with the
    /// submitter among its approvals, counted once, and is approved at once
    /// where its approvals are `required_approvals` or more.
    pub open spec fn submit(self, authority: PublicKey, required_approvals: u8, now: i64)
        -> Result<ContentModel, HelmError> {
        match self.submittable() {
            Err(e) => Err(e),
            Ok(()) => if !schedule_ahead(self.scheduled_for, now) {
                Err(HelmError::ScheduleTimeInPast)
            } else if !schedule_ok(self.scheduled_for, now) {
                Err(HelmError::InvalidScheduleTime)
            } else {
                Ok(
                    self.moved_to(ContentStatus::PendingApproval, now).listing(authority).settled(
                        required_approvals,
                        now,
                    ),
                )
            },
        }
    }

    /// Whether the record waits for the approval of `approver`: it must wait
    /// for approval (`InvalidContentStatus`) and `approver` must not have
    /// approved it yet (`AlreadyApproved`).
    pub open spec fn awaits(self, approver: PublicKey) -> Result<(), HelmError> {
        if self.status != ContentStatus::PendingApproval {
            Err(HelmError::InvalidContentStatus)
        } else if self.approvals.contains(approver) {
            Err(HelmError::AlreadyApproved)
        } else {
            Ok(())
        }
    }

    /// Whether `approver` can approve the record, whatever the time: the
    /// record must wait for the approval of `approver`, and it must hold
    /// fewer than `MAX_APPROVALS_PER_REQUIRED` times `required_approvals`
    /// approvals (`InvalidContentStatus`).
    pub open spec fn approvable(self, approver: PublicKey, required_approvals: u8) -> Result<
        (),
        HelmError,
    > {
        match self.awaits(approver) {
            Err(e) => Err(e),
            Ok(()) => check(
                self.approvals.len() < MAX_APPROVALS_PER_REQUIRED * required_approvals,
                HelmError::InvalidContentStatus,
            ),
        }
    }

    /// Approval by `approver` at time `now`.
    ///
    /// The record must be approvable by `approver`, and its schedule, if
    /// set, must still lie after `now` (`ScheduleTimeInPast`). The approver
    /// is then counted and the change is stamped with `now`.
    pub open spec fn approve(self, approver: PublicKey, required_approvals: u8, now: i64)
        -> Result<ContentModel, HelmError> {
        match self.approvable(approver, required_approvals) {
            Err(e) => Err(e),
            Ok(()) => if !schedule_ahead(self.scheduled_for, now) {
                Err(HelmError::ScheduleTimeInPast)
            } else {
                Ok(
                    ContentModel {
                        updated_at: now,
                        ..self.counted(approver, required_approvals, now)
                    },
                )
            },
        }
    }

    /// Whether the record can be rejected for `reason`, whatever the time:
    /// it must wait for approval (`InvalidContentStatus`), and the reason
    /// must have at most `MAX_REJECTION_REASON_LENGTH` characters
    /// (`ContentTooLong`).
    pub open spec fn rejectable(self, reason: Seq<char>) -> Result<(), HelmError> {
        if self.status != ContentStatus::PendingApproval {
            Err(HelmError::InvalidContentStatus)
        } else {
            check(reason.len() <= MAX_REJECTION_REASON_LENGTH, HelmError::ContentTooLong)
        }
    }

    /// Rejection for `reason` at time `now`: a rejectable record becomes
    /// `Rejected` and carries the reason.
    pub open spec fn reject(self, reason: Seq<char>, now: i64) -> Result<ContentModel, HelmError> {
        match self.rejectable(reason) {
            Err(e) => Err(e),
            Ok(()) => Ok(
                ContentModel {
                    rejection_reason: Some(reason),
                    ..self.moved_to(ContentStatus::Rejected, now)
                },
            ),
        }
    }

    /// Whether the record can be canceled, whatever the time: a finished
    /// record cannot (`ContentInTerminalState`), and of the others only those
    /// from which the table allows the move (`InvalidStateTransition`).
    pub open spec fn cancelable(self) -> Result<(), HelmError> {
        if terminal(self.status) {
            Err(HelmError::ContentInTerminalState)
        } else {
            check(
                legal_transition(self.status, ContentStatus::Canceled),
                HelmError::InvalidStateTransition,
            )
        }
    }

    /// Cancellation at time `now`: a cancelable record becomes `Canceled`.
    pub open spec fn cancel(self, now: i64) -> Result<ContentModel, HelmError> {
        match self.cancelable() {
            Err(e) => Err(e),
            Ok(()) => Ok(self.moved_to(ContentStatus::Canceled, now)),
        }
    }
}

/// An operation's report `r` and the record `after` it agree with the
/// `expected` outcome computed from the record `before`: on success the
/// record is the expected one, on failure the error is the expected one and
/// the record is as it was.
pub open spec fn agrees(
    r: Result<(), HelmError>,
    before: Content,
    after: Content,
    expected: Result<ContentModel, HelmError>,
) -> bool {
    match r {
        Ok(()) => expected == Ok::<ContentModel, HelmError>(after@),
        Err(e) => expected == Err::<ContentModel, HelmError>(e) && after == before,
    }
}

/// The report `r` of an operation that read the clock itself, and the record
/// `after` it, agree with what `expected` gives for some time: on success
/// the record is the one expected at that time; where a rule refused, the
/// error is the one expected at that time and the record is as it was; where
/// the clock could not be read, the record is as it was.
pub open spec fn agrees_at_some_time(
    r: Result<(), OpError>,
    before: Content,
    after: Content,
    expected: spec_fn(i64) -> Result<ContentModel, HelmError>,
) -> bool {
    match r {
        Ok(()) => exists|now: i64| #[trigger] expected(now) == Ok::<ContentModel, HelmError>(after@),
        Err(OpError::Rule(e)) => after == before && exists|now: i64| #[trigger]
            expected(now) == Err::<ContentModel, HelmError>(e),
        Err(OpError::Clock(_)) => after == before,
    }
}

/// A refusal that needs no time comes whether or not the clock can be read:
/// where `admitted` is a refusal, the report `r` is that refusal.
pub open spec fn refused_early(r: Result<(), OpError>, admitted: Result<(), HelmError>) -> bool {
    match admitted {
        Ok(()) => true,
        Err(e) => match r {
            Err(OpError::Rule(refusal)) => refusal == e,
            _ => false,
        },
    }
}

/// The report of an operation that was handed the time, as the report of one
/// that read the clock.
pub fn rule_report(r: Result<(), HelmError>) -> (report: Result<(), OpError>)
    ensures
        report == (match r {
            Ok(()) => Ok::<(), OpError>(()),
            Err(e) => Err(OpError::Rule(e)),
        }),
{
    match r {
        Ok(()) => Ok(()),
        Err(e) => Err(OpError::Rule(e)),
    }
}

impl Content {
    /// A new draft, made at `timestamp`, with no approvals and no reasons.
    pub fn new(
        twitter_account: PublicKey,
        author: PublicKey,
        content_type: ContentType,
        content_hash: [u8; 32],
        scheduled_for: Option<i64>,
        bump: u8,
        timestamp: i64,
    ) -> (content: Content)
        ensures
            content@ == ContentModel::draft(
                twitter_account,
                author,
                content_type,
                content_hash,
                scheduled_for,
                bump,
                timestamp,
            ),
            content@.wf(),
    {
        Content {
            twitter_account,
            author,
            content_type,
            content_hash,
            scheduled_for,
            status: ContentStatus::Draft,
            approvals: Vec::new(),
            rejection_reason: None,
            failure_reason: None,
            created_at: timestamp,
            updated_at: timestamp,
            bump,
        }
    }

    /// The key from which the address of a content record derives: the
    /// content tag, the identity record's address, the author and the
    /// content's fingerprint, in this order.
    pub fn seeds(twitter_account: &PublicKey, author: &PublicKey, content_hash: &[u8; 32]) -> (seeds:
        Vec<Vec<u8>>)
        ensures
            seeds@.len() == 4,
            seeds@[0]@ == CONTENT_SEED@,
            seeds@[1]@ == twitter_account.bytes@,
            seeds@[2]@ == author.bytes@,
            seeds@[3]@ == content_hash@,
    {
        let mut seeds: Vec<Vec<u8>> = Vec::new();
        seeds.push(copy_bytes(CONTENT_SEED.as_slice()));
        seeds.push(copy_bytes(twitter_account.bytes.as_slice()));
        seeds.push(copy_bytes(author.bytes.as_slice()));
        seeds.push(copy_bytes(content_hash.as_slice()));
        seeds
    }

    /// Makes this record a new draft, whatever it held before.
    pub fn initialize(
        &mut self,
        twitter_account: PublicKey,
        author: PublicKey,
        content_type: ContentType,
        content_hash: [u8; 32],
        scheduled_for: Option<i64>,
        bump: u8,
        timestamp: i64,
    )
        ensures
            final(self)@ == ContentModel::draft(
                twitter_account,
                author,
                content_type,
                content_hash,
                scheduled_for,
                bump,
                timestamp,
            ),
            final(self)@.wf(),
    {
        self.twitter_account = twitter_account;
        self.author = author;
        self.content_type = content_type;
        self.content_hash = content_hash;
        self.scheduled_for = scheduled_for;
        self.status = ContentStatus::Draft;
        self.approvals = Vec::new();
        self.rejection_reason = None;
        self.failure_reason = None;
        self.created_at = timestamp;
        self.updated_at = timestamp;
        self.bump = bump;
    }

    /// Whether the table of legal moves lets this record go to `new_status`.
    pub fn can_transition_to(&self, new_status: ContentStatus) -> (legal: bool)
        ensures
            legal == legal_transition(self.status, new_status),
    {
        match (self.status, new_status) {
            (ContentStatus::Draft, ContentStatus::PendingApproval) => true,
            (ContentStatus::Draft, ContentStatus::Canceled) => true,
            (ContentStatus::PendingApproval, ContentStatus::Approved) => true,
            (ContentStatus::PendingApproval, ContentStatus::Rejected) => true,
            (ContentStatus::PendingApproval, ContentStatus::Canceled) => true,
            (ContentStatus::Approved, ContentStatus::Published) => true,
            (ContentStatus::Approved, ContentStatus::Failed) => true,
            (ContentStatus::Approved, ContentStatus::Canceled) => true,
            (ContentStatus::Rejected, ContentStatus::Draft) => true,
            (ContentStatus::Failed, ContentStatus::Draft) => true,
            _ => false,
        }
    }

    /// Whether this record is finished.
    pub fn is_terminal(&self) -> (finished: bool)
        ensures
            finished == terminal(self.status),
    {
        match self.status {
            ContentStatus::Published | ContentStatus::Failed | ContentStatus::Canceled => true,
            _ => false,
        }
    }

    /// Whether `timestamp` is positive and leaves room for the longest
    /// schedule delay.
    pub fn is_within_schedule_bounds(timestamp: i64) -> (within: bool)
        ensures
            within == within_schedule_bounds(timestamp),
    {
        timestamp > 0 && timestamp <= i64::MAX - MAX_SCHEDULE_DELAY
    }

    /// Checks this record's schedule against the time `now`: `Ok` exactly
    /// when the schedule is acceptable at `now`, else `InvalidScheduleTime`.
    pub fn validate_scheduled_time(&self, now: i64) -> (r: Result<(), HelmError>)
        ensures
            r == (if schedule_ok(self.scheduled_for, now) {
                Ok::<(), HelmError>(())
            } else {
                Err(HelmError::InvalidScheduleTime)
            }),
    {
        if let Some(scheduled_time) = self.scheduled_for {
            let min_allowed_time: i64 = match now.checked_add(MIN_SCHEDULE_DELAY) {
                Some(time) => time,
                None => {
                    return Err(HelmError::InvalidScheduleTime);
                },
            };
            if !(scheduled_time > min_allowed_time) {
                return Err(HelmError::InvalidScheduleTime);
            }
            let max_allowed_time: i64 = match now.checked_add(MAX_SCHEDULE_DELAY) {
                Some(time) => time,
                None => {
                    return Err(HelmError::InvalidScheduleTime);
                },
            };
            if !(scheduled_time <= max_allowed_time) {
                return Err(HelmError::InvalidScheduleTime);
            }
            if !Content::is_within_schedule_bounds(scheduled_time) {
                return Err(HelmError::InvalidScheduleTime);
            }
        }
        Ok(())
    }

    /// Moves this record to `new_status` at time `now`, if the table of legal
    /// moves allows it; otherwise reports `InvalidStateTransition` and leaves
    /// the record as it was.
    pub fn transition_to_at(&mut self, new_status: ContentStatus, now: i64) -> (r: Result<
        (),
        HelmError,
    >)
        ensures
            agrees(r, *old(self), *final(self), old(self)@.transition(new_status, now)),
            old(self)@.wf() ==> final(self)@.wf(),
    {
        if !self.can_transition_to(new_status) {
            return Err(HelmError::InvalidStateTransition);
        }
        if new_status == ContentStatus::Draft {
            self.approvals.clear();
            self.rejection_reason = None;
            self.failure_reason = None;
        }
        if self.status == ContentStatus::Rejected && new_status != ContentStatus::Rejected {
            self.rejection_reason = None;
        }
        self.status = new_status;
        self.updated_at = now;
        proof {
            let expected = old(self)@.moved_to(new_status, now);
            assert(self@.approvals =~= expected.approvals);
            assert(self@ == expected);
        }
        Ok(())
    }

    /// Whether this record can be submitted, whatever the time.
    pub fn can_submit(&self) -> (r: Result<(), HelmError>)
        ensures
            r == self@.submittable(),
    {
        ensure(self.status == ContentStatus::Draft, HelmError::InvalidContentStatus)
    }

    /// Whether this record waits for the approval of `approver`.
    pub fn awaits_approval_of(&self, approver: &PublicKey) -> (r: Result<(), HelmError>)
        ensures
            r == self@.awaits(*approver),
    {
        if self.status != ContentStatus::PendingApproval {
            return Err(HelmError::InvalidContentStatus);
        }
        ensure(!contains_key(&self.approvals, approver), HelmError::AlreadyApproved)
    }

    /// Whether `approver` can approve this record under the threshold
    /// `required_approvals`, whatever the time.
    pub fn can_approve(&self, approver: &PublicKey, required_approvals: u8) -> (r: Result<
        (),
        HelmError,
    >)
        ensures
            r == self@.approvable(*approver, required_approvals),
    {
        self.awaits_approval_of(approver)?;
        ensure(
            self.approvals.len() < MAX_APPROVALS_PER_REQUIRED * (required_approvals as usize),
            HelmError::InvalidContentStatus,
        )
    }

    /// Whether this record can be rejected for `reason`, whatever the time.
    pub fn can_reject(&self, reason: &str) -> (r: Result<(), HelmError>)
        ensures
            r == self@.rejectable(reason@),
    {
        if self.status != ContentStatus::PendingApproval {
            return Err(HelmError::InvalidContentStatus);
        }
        ensure(within_chars(reason, MAX_REJECTION_REASON_LENGTH), HelmError::ContentTooLong)
    }

    /// Whether this record can be canceled, whatever the time.
    pub fn can_cancel(&self) -> (r: Result<(), HelmError>)
        ensures
            r == self@.cancelable(),
    {
        if self.is_terminal() {
            return Err(HelmError::ContentInTerminalState);
        }
        ensure(self.can_transition_to(ContentStatus::Canceled), HelmError::InvalidStateTransition)
    }

    /// Whether this record's schedule, if it has one, lies after `now`.
    pub fn schedule_lies_ahead(&self, now: i64) -> (ahead: bool)
        ensures
            ahead == schedule_ahead(self.scheduled_for, now),
    {
        match self.scheduled_for {
            Some(scheduled_time) => scheduled_time > now,
            None => true,
        }
    }

    /// Submits this draft for approval on behalf of `authority` at time
    /// `now`, as `ContentModel::submit` describes. On failure the record is
    /// left as it was. On success the record is `Approved` exactly when it
    /// holds at least `required_approvals` approvals, and waits for approval
    /// otherwise.
    pub fn submit_at(&mut self, authority: PublicKey, required_approvals: u8, now: i64) -> (r:
        Result<(), HelmError>)
        ensures
            agrees(
                r,
                *old(self),
                *final(self),
                old(self)@.submit(authority, required_approvals, now),
            ),
            old(self)@.wf() ==> final(self)@.wf(),
            r is Ok ==> final(self).approvals@ == old(self)@.listing(authority).approvals,
            r is Ok ==> final(self).status == (if final(self).approvals@.len()
                >= required_approvals {
                ContentStatus::Approved
            } else {
                ContentStatus::PendingApproval
            }),
            r is Ok && old(self)@.wf() ==> final(self).approvals@ == seq![authority],
    {
        self.can_submit()?;
        ensure(self.schedule_lies_ahead(now), HelmError::ScheduleTimeInPast)?;
        self.validate_scheduled_time(now)?;
        self.transition_to_at(ContentStatus::PendingApproval, now)?;
        if !contains_key(&self.approvals, &authority) {
            self.approvals.push(authority);
        }
        self.settle(required_approvals, now)?;
        proof {
            if old(self)@.wf() {
                assert(self.approvals@ =~= seq![authority]);
            }
        }
        Ok(())
    }

    /// Moves the record on to `Approved` where it holds `required_approvals`
    /// approvals or more. From a record that waits for approval this always
    /// goes through.
    fn settle(&mut self, required_approvals: u8, now: i64) -> (r: Result<(), HelmError>)
        requires
            old(self).status == ContentStatus::PendingApproval,
        ensures
            r is Ok,
            final(self)@ == old(self)@.settled(required_approvals, now),
    {
        if self.approvals.len() >= required_approvals as usize {
            self.transition_to_at(ContentStatus::Approved, now)?;
        }
        Ok(())
    }

    /// Records the approval of `approver` at time `now`, as
    /// `ContentModel::approve` describes. On failure the record is left as it
    /// was. On success the record holds at most `MAX_APPROVALS_PER_REQUIRED`
    /// times `required_approvals` approvals, and it is `Approved` exactly
    /// when it holds at least `required_approvals` of them.
    pub fn approve_at(&mut self, approver: PublicKey, required_approvals: u8, now: i64) -> (r:
        Result<(), HelmError>)
        ensures
            agrees(
                r,
                *old(self),
                *final(self),
                old(self)@.approve(approver, required_approvals, now),
            ),
            old(self)@.wf() ==> final(self)@.wf(),
            r is Ok ==> final(self).approvals@ == old(self).approvals@.push(approver),
            r is Ok ==> final(self).approvals@.len() <= MAX_APPROVALS_PER_REQUIRED
                * required_approvals,
            r is Ok ==> final(self).status == (if final(self).approvals@.len()
                >= required_approvals {
                ContentStatus::Approved
            } else {
                ContentStatus::PendingApproval
            }),
    {
        self.can_approve(&approver, required_approvals)?;
        ensure(self.schedule_lies_ahead(now), HelmError::ScheduleTimeInPast)?;
        self.approvals.push(approver);
        self.settle(required_approvals, now)?;
        self.updated_at = now;
        Ok(())
    }

    /// Rejects this record for `reason` at time `now`, as
    /// `ContentModel::reject` describes: the status and the reason change
    /// together or not at all.
    pub fn reject_at(&mut self, reason: String, now: i64) -> (r: Result<(), HelmError>)
        ensures
            agrees(r, *old(self), *final(self), old(self)@.reject(reason@, now)),
            old(self)@.wf() ==> final(self)@.wf(),
    {
        self.can_reject(reason.as_str())?;
        self.transition_to_at(ContentStatus::Rejected, now)?;
        self.rejection_reason = Some(reason);
        self.updated_at = now;
        Ok(())
    }

    /// Cancels this record at time `now`, as `ContentModel::cancel`
    /// describes.
    pub fn cancel_at(&mut self, now: i64) -> (r: Result<(), HelmError>)
        ensures
            agrees(r, *old(self), *final(self), old(self)@.cancel(now)),
            old(self)@.wf() ==> final(self)@.wf(),
    {
        self.can_cancel()?;
        self.transition_to_at(ContentStatus::Canceled, now)
    }

    /// Moves this record to `new_status` as `transition_to_at` does, at the
    /// time that the clock gives. A move that the table does not list is
    /// refused before the clock is read.
    pub fn transition_to(&mut self, new_status: ContentStatus) -> (r: Result<(), OpError>)
        ensures
            agrees_at_some_time(
                r,
                *old(self),
                *final(self),
                |now: i64| old(self)@.transition(new_status, now),
            ),
            refused_early(
                r,
                check(
                    legal_transition(old(self).status, new_status),
                    HelmError::InvalidStateTransition,
                ),
            ),
            old(self)@.wf() ==> final(self)@.wf(),
    {
        let ghost expected = |now: i64| old(self)@.transition(new_status, now);
        proof {
            let now = 0i64;
            assert(expected(now) == old(self)@.transition(new_status, now));
        }
        rule_report(
            ensure(self.can_transition_to(new_status), HelmError::InvalidStateTransition),
        )?;
        match unix_timestamp() {
            Ok(now) => {
                let r = rule_report(self.transition_to_at(new_status, now));
                proof {
                    assert(expected(now) == old(self)@.transition(new_status, now));
                }
                r
            },
            Err(e) => Err(OpError::Clock(e)),
        }
    }

    /// Submits this draft as `submit_at` does, at the time that the clock
    /// gives. A record that is not submittable is refused before the clock is
    /// read.
    pub fn submit(&mut self, authority: PublicKey, required_approvals: u8) -> (r: Result<(), OpError>)
        ensures
            agrees_at_some_time(
                r,
                *old(self),
                *final(self),
                |now: i64| old(self)@.submit(authority, required_approvals, now),
            ),
            refused_early(r, old(self)@.submittable()),
            old(self)@.wf() ==> final(self)@.wf(),
    {
        let ghost expected = |now: i64| old(self)@.submit(authority, required_approvals, now);
        proof {
            let now = 0i64;
            assert(expected(now) == old(self)@.submit(authority, required_approvals, now));
        }
        rule_report(self.can_submit())?;
        match unix_timestamp() {
            Ok(now) => {
                let r = rule_report(self.submit_at(authority, required_approvals, now));
                proof {
                    assert(expected(now) == old(self)@.submit(authority, required_approvals, now));
                }
                r
            },
            Err(e) => Err(OpError::Clock(e)),
        }
    }

    /// Records the approval of `approver` as `approve_at` does, at the time
    /// that the clock gives. A record that `approver` cannot approve is
    /// refused before the clock is read.
    pub fn approve(&mut self, approver: PublicKey, required_approvals: u8) -> (r: Result<(), OpError>)
        ensures
            agrees_at_some_time(
                r,
                *old(self),
                *final(self),
                |now: i64| old(self)@.approve(approver, required_approvals, now),
            ),
            refused_early(r, old(self)@.approvable(approver, required_approvals)),
            old(self)@.wf() ==> final(self)@.wf(),
    {
        let ghost expected = |now: i64| old(self)@.approve(approver, required_approvals, now);
        proof {
            let now = 0i64;
            assert(expected(now) == old(self)@.approve(approver, required_approvals, now));
        }
        rule_report(self.can_approve(&approver, required_approvals))?;
        match unix_timestamp() {
            Ok(now) => {
                let r = rule_report(self.approve_at(approver, required_approvals, now));
                proof {
                    assert(expected(now) == old(self)@.approve(approver, required_approvals, now));
                }
                r
            },
            Err(e) => Err(OpError::Clock(e)),
        }
    }

    /// Rejects this record for `reason` as `reject_at` does, at the time that
    /// the clock gives. A record that cannot be rejected for `reason` is
    /// refused before the clock is read.
    pub fn reject(&mut self, reason: String) -> (r: Result<(), OpError>)
        ensures
            agrees_at_some_time(
                r,
                *old(self),
                *final(self),
                |now: i64| old(self)@.reject(reason@, now),
            ),
            refused_early(r, old(self)@.rejectable(reason@)),
            old(self)@.wf() ==> final(self)@.wf(),
    {
        let ghost expected = |now: i64| old(self)@.reject(reason@, now);
        proof {
            let now = 0i64;
            assert(expected(now) == old(self)@.reject(reason@, now));
        }
        rule_report(self.can_reject(reason.as_str()))?;
        match unix_timestamp() {
            Ok(now) => {
                let r = rule_report(self.reject_at(reason, now));
                proof {
                    assert(expected(now) == old(self)@.reject(reason@, now));
                }
                r
            },
            Err(e) => Err(OpError::Clock(e)),
        }
    }
}

} // verus!
