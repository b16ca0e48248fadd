use helm::constants::{MAX_SCHEDULE_DELAY, MIN_SCHEDULE_DELAY};
use helm::enums::{ContentStatus, ContentType};
use helm::errors::{HelmError, OpError};
use helm::keys::PublicKey;
use helm::state::content::Content;

const NOW: i64 = 1_700_000_000;

fn key(n: u8) -> PublicKey {
    PublicKey::new([n; 32])
}

fn draft(scheduled_for: Option<i64>) -> Content {
    Content::new(key(100), key(1), ContentType::Tweet, [7u8; 32], scheduled_for, 254, NOW)
}

fn in_status(status: ContentStatus) -> Content {
    let mut content = draft(None);
    content.status = status;
    content
}

fn all_statuses() -> Vec<ContentStatus> {
    vec![
        ContentStatus::Draft,
        ContentStatus::PendingApproval,
        ContentStatus::Approved,
        ContentStatus::Rejected,
        ContentStatus::Published,
        ContentStatus::Failed,
        ContentStatus::Canceled,
    ]
}

fn in_table(from: ContentStatus, to: ContentStatus) -> bool {
    matches!(
        (from, to),
        (ContentStatus::Draft, ContentStatus::PendingApproval)
            | (ContentStatus::Draft, ContentStatus::Canceled)
            | (ContentStatus::PendingApproval, ContentStatus::Approved)
            | (ContentStatus::PendingApproval, ContentStatus::Rejected)
            | (ContentStatus::PendingApproval, ContentStatus::Canceled)
            | (ContentStatus::Approved, ContentStatus::Published)
            | (ContentStatus::Approved, ContentStatus::Failed)
            | (ContentStatus::Approved, ContentStatus::Canceled)
            | (ContentStatus::Rejected, ContentStatus::Draft)
            | (ContentStatus::Failed, ContentStatus::Draft)
    )
}

#[test]
fn new_content_is_an_empty_draft() {
    let content = draft(Some(NOW + 1000));
    assert_eq!(content.twitter_account, key(100));
    assert_eq!(content.author, key(1));
    assert_eq!(content.content_type, ContentType::Tweet);
    assert_eq!(content.content_hash, [7u8; 32]);
    assert_eq!(content.scheduled_for, Some(NOW + 1000));
    assert_eq!(content.status, ContentStatus::Draft);
    assert!(content.approvals.is_empty());
    assert_eq!(content.rejection_reason, None);
    assert_eq!(content.failure_reason, None);
    assert_eq!(content.created_at, NOW);
    assert_eq!(content.updated_at, NOW);
    assert_eq!(content.bump, 254);
}

#[test]
fn initialize_resets_a_used_record() {
    let mut content = draft(None);
    assert_eq!(content.submit_at(key(1), 2, NOW), Ok(()));
    assert_eq!(content.reject_at(String::from("no"), NOW + 1), Ok(()));
    content.initialize(
        key(101),
        key(2),
        ContentType::Thread { tweet_count: 3 },
        [9u8; 32],
        None,
        3,
        NOW + 5,
    );
    assert_eq!(content.twitter_account, key(101));
    assert_eq!(content.author, key(2));
    assert_eq!(content.content_type, ContentType::Thread { tweet_count: 3 });
    assert_eq!(content.content_hash, [9u8; 32]);
    assert_eq!(content.scheduled_for, None);
    assert_eq!(content.status, ContentStatus::Draft);
    assert!(content.approvals.is_empty());
    assert_eq!(content.rejection_reason, None);
    assert_eq!(content.created_at, NOW + 5);
    assert_eq!(content.updated_at, NOW + 5);
    assert_eq!(content.bump, 3);
}

#[test]
fn transition_table_is_closed() {
    for from in all_statuses() {
        for to in all_statuses() {
            let mut content = in_status(from);
            assert_eq!(content.can_transition_to(to), in_table(from, to));
            let r = content.transition_to_at(to, NOW + 9);
            if in_table(from, to) {
                assert_eq!(r, Ok(()));
                assert_eq!(content.status, to);
                assert_eq!(content.updated_at, NOW + 9);
            } else {
                assert_eq!(r, Err(HelmError::InvalidStateTransition));
                assert_eq!(content.status, from);
                assert_eq!(content.updated_at, NOW);
            }
        }
    }
}

#[test]
fn terminal_states_are_published_failed_canceled() {
    for status in all_statuses() {
        let expected = matches!(
            status,
            ContentStatus::Published | ContentStatus::Failed | ContentStatus::Canceled
        );
        assert_eq!(in_status(status).is_terminal(), expected);
    }
}

#[test]
fn schedule_bounds_at_the_minimum_delay() {
    assert_eq!(
        draft(Some(NOW + 299)).validate_scheduled_time(NOW),
        Err(HelmError::InvalidScheduleTime)
    );
    assert_eq!(
        draft(Some(NOW + 300)).validate_scheduled_time(NOW),
        Err(HelmError::InvalidScheduleTime)
    );
    assert_eq!(draft(Some(NOW + 300 + 1)).validate_scheduled_time(NOW), Ok(()));
    assert_eq!(MIN_SCHEDULE_DELAY, 300);
}

#[test]
fn schedule_bounds_at_the_maximum_horizon() {
    assert_eq!(MAX_SCHEDULE_DELAY, 2_592_000);
    assert_eq!(
        draft(Some(NOW + 30 * 24 * 3600 + 1)).validate_scheduled_time(NOW),
        Err(HelmError::InvalidScheduleTime)
    );
    assert_eq!(draft(Some(NOW + 30 * 24 * 3600)).validate_scheduled_time(NOW), Ok(()));
    assert_eq!(draft(Some(NOW + 30 * 24 * 3600 - 1)).validate_scheduled_time(NOW), Ok(()));
    assert_eq!(draft(Some(3_592_000)).validate_scheduled_time(1_000_000), Ok(()));
    assert_eq!(
        draft(Some(3_592_001)).validate_scheduled_time(1_000_000),
        Err(HelmError::InvalidScheduleTime)
    );
}

#[test]
fn schedule_without_a_time_is_fine() {
    assert_eq!(draft(None).validate_scheduled_time(NOW), Ok(()));
    assert_eq!(draft(None).validate_scheduled_time(i64::MAX), Ok(()));
}

#[test]
fn schedule_fails_closed_on_overflow() {
    assert_eq!(
        draft(Some(i64::MAX)).validate_scheduled_time(i64::MAX - 100),
        Err(HelmError::InvalidScheduleTime)
    );
    assert_eq!(
        draft(Some(i64::MAX)).validate_scheduled_time(i64::MAX - 1000),
        Err(HelmError::InvalidScheduleTime)
    );
    let late = i64::MAX - MAX_SCHEDULE_DELAY;
    assert_eq!(
        draft(Some(late + 1)).validate_scheduled_time(late - 1000),
        Err(HelmError::InvalidScheduleTime)
    );
    assert_eq!(draft(Some(late)).validate_scheduled_time(late - 1000), Ok(()));
}

#[test]
fn schedule_must_be_positive() {
    assert_eq!(
        draft(Some(0)).validate_scheduled_time(-1000),
        Err(HelmError::InvalidScheduleTime)
    );
    assert_eq!(draft(Some(1)).validate_scheduled_time(-1000), Ok(()));
}

#[test]
fn schedule_bounds_of_a_timestamp() {
    assert!(!Content::is_within_schedule_bounds(0));
    assert!(!Content::is_within_schedule_bounds(-5));
    assert!(Content::is_within_schedule_bounds(1));
    assert!(Content::is_within_schedule_bounds(i64::MAX - 2_592_000));
    assert!(!Content::is_within_schedule_bounds(i64::MAX - 2_592_000 + 1));
}

#[test]
fn submit_counts_the_submitter_and_waits() {
    let mut content = draft(None);
    assert_eq!(content.submit_at(key(1), 2, NOW + 10), Ok(()));
    assert_eq!(content.status, ContentStatus::PendingApproval);
    assert_eq!(content.approvals, vec![key(1)]);
    assert_eq!(content.updated_at, NOW + 10);
}

#[test]
fn submit_with_one_required_approval_approves_at_once() {
    let mut content = draft(Some(NOW + 3600));
    assert_eq!(content.submit_at(key(1), 1, NOW), Ok(()));
    assert_eq!(content.status, ContentStatus::Approved);
    assert_eq!(content.approvals, vec![key(1)]);
}

#[test]
fn submit_is_only_for_drafts() {
    for status in all_statuses() {
        if status == ContentStatus::Draft {
            continue;
        }
        let mut content = in_status(status);
        assert_eq!(content.submit_at(key(1), 2, NOW), Err(HelmError::InvalidContentStatus));
        assert_eq!(content.status, status);
        assert!(content.approvals.is_empty());
    }
}

#[test]
fn submit_refuses_a_schedule_in_the_past() {
    let mut content = draft(Some(NOW));
    assert_eq!(content.submit_at(key(1), 2, NOW), Err(HelmError::ScheduleTimeInPast));
    assert_eq!(content.status, ContentStatus::Draft);
    let mut content = draft(Some(NOW - 1));
    assert_eq!(content.submit_at(key(1), 2, NOW), Err(HelmError::ScheduleTimeInPast));
}

#[test]
fn submit_refuses_a_schedule_too_close_or_too_far() {
    let mut content = draft(Some(NOW + 299));
    assert_eq!(content.submit_at(key(1), 2, NOW), Err(HelmError::InvalidScheduleTime));
    assert_eq!(content.status, ContentStatus::Draft);
    assert!(content.approvals.is_empty());
    let mut content = draft(Some(NOW + 2_592_001));
    assert_eq!(content.submit_at(key(1), 2, NOW), Err(HelmError::InvalidScheduleTime));
    let mut content = draft(Some(NOW + 301));
    assert_eq!(content.submit_at(key(1), 2, NOW), Ok(()));
}

#[test]
fn approval_reaches_the_threshold_and_not_before() {
    let mut content = draft(None);
    assert_eq!(content.submit_at(key(1), 3, NOW), Ok(()));
    assert_eq!(content.status, ContentStatus::PendingApproval);
    assert_eq!(content.approve_at(key(2), 3, NOW + 1), Ok(()));
    assert_eq!(content.status, ContentStatus::PendingApproval);
    assert_eq!(content.approvals.len(), 2);
    assert_eq!(content.approve_at(key(3), 3, NOW + 2), Ok(()));
    assert_eq!(content.status, ContentStatus::Approved);
    assert_eq!(content.approvals, vec![key(1), key(2), key(3)]);
    assert_eq!(content.updated_at, NOW + 2);
}

#[test]
fn approving_twice_is_refused() {
    let mut content = draft(None);
    assert_eq!(content.submit_at(key(1), 3, NOW), Ok(()));
    assert_eq!(content.approve_at(key(2), 3, NOW + 1), Ok(()));
    assert_eq!(content.approvals.len(), 2);
    assert_eq!(content.approve_at(key(2), 3, NOW + 2), Err(HelmError::AlreadyApproved));
    assert_eq!(content.approvals.len(), 2);
    assert_eq!(content.updated_at, NOW + 1);
    assert_eq!(content.approve_at(key(1), 3, NOW + 2), Err(HelmError::AlreadyApproved));
    assert_eq!(content.approvals, vec![key(1), key(2)]);
    assert_eq!(content.status, ContentStatus::PendingApproval);
}

#[test]
fn approval_is_only_for_waiting_records() {
    for status in all_statuses() {
        if status == ContentStatus::PendingApproval {
            continue;
        }
        let mut content = in_status(status);
        assert_eq!(content.approve_at(key(2), 2, NOW), Err(HelmError::InvalidContentStatus));
        assert!(content.approvals.is_empty());
    }
}

#[test]
fn approval_stops_at_twice_the_threshold() {
    let mut content = draft(None);
    assert_eq!(content.submit_at(key(1), 5, NOW), Ok(()));
    assert_eq!(content.approve_at(key(2), 5, NOW), Ok(()));
    assert_eq!(content.status, ContentStatus::PendingApproval);
    assert_eq!(content.approve_at(key(3), 1, NOW), Err(HelmError::InvalidContentStatus));
    assert_eq!(content.approvals, vec![key(1), key(2)]);
    assert_eq!(content.approve_at(key(3), 0, NOW), Err(HelmError::InvalidContentStatus));
    assert_eq!(content.approve_at(key(3), 2, NOW), Ok(()));
    assert_eq!(content.status, ContentStatus::Approved);
    assert_eq!(content.approvals.len(), 3);
}

#[test]
fn approval_refuses_a_schedule_that_has_passed() {
    let mut content = draft(Some(NOW + 1000));
    assert_eq!(content.submit_at(key(1), 2, NOW), Ok(()));
    assert_eq!(content.approve_at(key(2), 2, NOW + 1000), Err(HelmError::ScheduleTimeInPast));
    assert_eq!(content.approvals, vec![key(1)]);
    assert_eq!(content.approve_at(key(2), 2, NOW + 999), Ok(()));
    assert_eq!(content.status, ContentStatus::Approved);
}

#[test]
fn two_admins_scenario() {
    let a = key(1);
    let b = key(2);
    let c = key(3);
    let mut content = draft(None);
    assert_eq!(content.submit_at(a, 2, NOW), Ok(()));
    assert_eq!(content.status, ContentStatus::PendingApproval);
    assert_eq!(content.approvals, vec![a]);
    assert_eq!(content.approve_at(b, 2, NOW + 1), Ok(()));
    assert_eq!(content.approvals, vec![a, b]);
    assert_eq!(content.status, ContentStatus::Approved);
    assert_eq!(content.approve_at(c, 2, NOW + 2), Err(HelmError::InvalidContentStatus));
    assert_eq!(content.approve_at(a, 2, NOW + 2), Err(HelmError::InvalidContentStatus));
    assert_eq!(content.approvals, vec![a, b]);
    assert_eq!(content.status, ContentStatus::Approved);
}

#[test]
fn rejected_content_cannot_be_canceled_but_can_be_retried() {
    let mut content = draft(None);
    assert_eq!(content.submit_at(key(1), 2, NOW), Ok(()));
    assert_eq!(content.reject_at(String::from("policy violation"), NOW + 1), Ok(()));
    assert_eq!(content.status, ContentStatus::Rejected);
    assert_eq!(content.rejection_reason, Some(String::from("policy violation")));
    assert_eq!(content.updated_at, NOW + 1);
    assert_eq!(content.cancel_at(NOW + 2), Err(HelmError::InvalidStateTransition));
    assert_eq!(content.status, ContentStatus::Rejected);
    assert_eq!(content.rejection_reason, Some(String::from("policy violation")));
    assert_eq!(content.transition_to_at(ContentStatus::Draft, NOW + 3), Ok(()));
    assert_eq!(content.status, ContentStatus::Draft);
    assert_eq!(content.rejection_reason, None);
    assert!(content.approvals.is_empty());
    assert_eq!(content.updated_at, NOW + 3);
}

#[test]
fn entering_draft_clears_approvals_and_reasons() {
    let mut content = in_status(ContentStatus::Failed);
    content.approvals = vec![key(1), key(2)];
    content.failure_reason = Some(String::from("network"));
    content.rejection_reason = Some(String::from("old"));
    assert_eq!(content.transition_to_at(ContentStatus::Draft, NOW + 1), Ok(()));
    assert!(content.approvals.is_empty());
    assert_eq!(content.failure_reason, None);
    assert_eq!(content.rejection_reason, None);
}

#[test]
fn other_moves_keep_approvals() {
    let mut content = draft(None);
    assert_eq!(content.submit_at(key(1), 1, NOW), Ok(()));
    assert_eq!(content.transition_to_at(ContentStatus::Published, NOW + 1), Ok(()));
    assert_eq!(content.approvals, vec![key(1)]);
    assert_eq!(content.status, ContentStatus::Published);
}

#[test]
fn reject_is_only_for_waiting_records() {
    for status in all_statuses() {
        if status == ContentStatus::PendingApproval {
            continue;
        }
        let mut content = in_status(status);
        assert_eq!(
            content.reject_at(String::from("no"), NOW),
            Err(HelmError::InvalidContentStatus)
        );
        assert_eq!(content.status, status);
        assert_eq!(content.rejection_reason, None);
    }
}

#[test]
fn reject_enforces_the_reason_bound() {
    let mut content = in_status(ContentStatus::PendingApproval);
    let too_long = "x".repeat(257);
    assert_eq!(content.reject_at(too_long, NOW + 1), Err(HelmError::ContentTooLong));
    assert_eq!(content.status, ContentStatus::PendingApproval);
    assert_eq!(content.rejection_reason, None);
    assert_eq!(content.updated_at, NOW);
    let longest = "x".repeat(256);
    assert_eq!(content.reject_at(longest.clone(), NOW + 1), Ok(()));
    assert_eq!(content.status, ContentStatus::Rejected);
    assert_eq!(content.rejection_reason, Some(longest));
}

#[test]
fn cancel_by_state() {
    for status in all_statuses() {
        let mut content = in_status(status);
        let r = content.cancel_at(NOW + 4);
        match status {
            ContentStatus::Draft | ContentStatus::PendingApproval | ContentStatus::Approved => {
                assert_eq!(r, Ok(()));
                assert_eq!(content.status, ContentStatus::Canceled);
                assert_eq!(content.updated_at, NOW + 4);
            },
            ContentStatus::Rejected => {
                assert_eq!(r, Err(HelmError::InvalidStateTransition));
                assert_eq!(content.status, status);
            },
            _ => {
                assert_eq!(r, Err(HelmError::ContentInTerminalState));
                assert_eq!(content.status, status);
            },
        }
    }
}

#[test]
fn approvals_outlive_membership() {
    let mut admins = helm::state::admin_list::AdminList::new(key(100), key(1), 1);
    assert_eq!(admins.add_admin(key(2)), Ok(()));
    let mut content = draft(None);
    assert_eq!(content.submit_at(key(2), 3, NOW), Ok(()));
    assert_eq!(admins.remove_admin(&key(2)), Ok(()));
    assert_eq!(content.approvals, vec![key(2)]);
    assert_eq!(content.approve_at(key(2), 3, NOW), Err(HelmError::AlreadyApproved));
}

#[test]
fn operations_that_read_the_clock_change_nothing_without_a_ledger() {
    let mut content = draft(None);
    assert!(matches!(content.submit(key(1), 2), Err(OpError::Clock(_))));
    assert_eq!(content.status, ContentStatus::Draft);
    assert!(content.approvals.is_empty());
    assert_eq!(content.updated_at, NOW);
    assert!(matches!(
        content.transition_to(ContentStatus::PendingApproval),
        Err(OpError::Clock(_))
    ));
    assert_eq!(content.status, ContentStatus::Draft);
    content.status = ContentStatus::PendingApproval;
    assert!(matches!(content.approve(key(2), 2), Err(OpError::Clock(_))));
    assert!(content.approvals.is_empty());
    assert!(matches!(content.reject(String::from("no")), Err(OpError::Clock(_))));
    assert_eq!(content.status, ContentStatus::PendingApproval);
    assert_eq!(content.rejection_reason, None);
}

#[test]
fn content_seeds_in_order() {
    let seeds = Content::seeds(&key(100), &key(1), &[7u8; 32]);
    assert_eq!(
        seeds,
        vec![b"content".to_vec(), vec![100u8; 32], vec![1u8; 32], vec![7u8; 32]]
    );
}

#[test]
fn thread_length_bound() {
    assert_eq!(ContentType::Tweet.validate(), Ok(()));
    assert_eq!(ContentType::Thread { tweet_count: 50 }.validate(), Ok(()));
    assert_eq!(
        ContentType::Thread { tweet_count: 51 }.validate(),
        Err(HelmError::ThreadTooLong)
    );
}

#[test]
fn reject_counts_characters() {
    let mut content = in_status(ContentStatus::PendingApproval);
    let accented = "\u{e9}".repeat(256);
    assert_eq!(accented.len(), 512);
    assert_eq!(content.reject_at(accented.clone(), NOW + 1), Ok(()));
    assert_eq!(content.rejection_reason, Some(accented));
    let mut content = in_status(ContentStatus::PendingApproval);
    assert_eq!(
        content.reject_at("\u{e9}".repeat(257), NOW + 1),
        Err(HelmError::ContentTooLong)
    );
    let mut content = in_status(ContentStatus::PendingApproval);
    assert_eq!(content.reject_at(String::new(), NOW + 1), Ok(()));
    assert_eq!(content.rejection_reason, Some(String::new()));
}

#[test]
fn refused_operations_leave_the_record_as_it_was() {
    let mut content = draft(Some(NOW + 1000));
    assert_eq!(content.submit_at(key(1), 3, NOW), Ok(()));
    assert_eq!(content.approve_at(key(2), 3, NOW + 1), Ok(()));
    let before = content.clone();
    assert_eq!(content.submit_at(key(3), 3, NOW + 2), Err(HelmError::InvalidContentStatus));
    assert_eq!(content, before);
    assert_eq!(content.approve_at(key(2), 3, NOW + 2), Err(HelmError::AlreadyApproved));
    assert_eq!(content, before);
    assert_eq!(content.approve_at(key(3), 3, NOW + 1000), Err(HelmError::ScheduleTimeInPast));
    assert_eq!(content, before);
    assert_eq!(content.approve_at(key(3), 1, NOW + 2), Err(HelmError::InvalidContentStatus));
    assert_eq!(content, before);
    assert_eq!(content.reject_at("r".repeat(300), NOW + 2), Err(HelmError::ContentTooLong));
    assert_eq!(content, before);
    assert_eq!(
        content.transition_to_at(ContentStatus::Published, NOW + 2),
        Err(HelmError::InvalidStateTransition)
    );
    assert_eq!(content, before);
    assert!(matches!(content.approve(key(3), 3), Err(OpError::Clock(_))));
    assert_eq!(content, before);
}

#[test]
fn text_lengths() {
    assert!(helm::text::within_chars("", 0));
    assert!(!helm::text::within_chars("a", 0));
    assert!(helm::text::within_chars("abc", 3));
    assert!(!helm::text::within_chars("abcd", 3));
    assert!(helm::text::within_chars("\u{e9}\u{e9}\u{e9}", 3));
    assert!(helm::text::within_chars("abc", usize::MAX));
    assert!(helm::text::within_bytes("abc", 3));
    assert!(!helm::text::within_bytes("\u{e9}\u{e9}", 3));
    assert!(helm::text::within_bytes("\u{e9}\u{e9}", 4));
}

#[test]
fn submit_counts_a_listed_submitter_once_and_settles() {
    let mut content = draft(None);
    content.approvals = vec![key(1)];
    assert_eq!(content.submit_at(key(1), 1, NOW + 1), Ok(()));
    assert_eq!(content.approvals, vec![key(1)]);
    assert_eq!(content.status, ContentStatus::Approved);
    assert_eq!(content.updated_at, NOW + 1);
    let mut content = draft(None);
    content.approvals = vec![key(1), key(2)];
    assert_eq!(content.submit_at(key(2), 3, NOW + 1), Ok(()));
    assert_eq!(content.approvals, vec![key(1), key(2)]);
    assert_eq!(content.status, ContentStatus::PendingApproval);
    let mut content = draft(None);
    content.approvals = vec![key(1)];
    assert_eq!(content.submit_at(key(2), 2, NOW + 1), Ok(()));
    assert_eq!(content.approvals, vec![key(1), key(2)]);
    assert_eq!(content.status, ContentStatus::Approved);
}

#[test]
fn submit_at_the_horizon() {
    let mut content = draft(Some(NOW + 2_592_000));
    assert_eq!(content.submit_at(key(1), 2, NOW), Ok(()));
    assert_eq!(content.status, ContentStatus::PendingApproval);
}

#[test]
fn approval_at_the_cap_is_a_status_error_whatever_the_schedule() {
    let mut content = draft(Some(NOW + 1000));
    content.status = ContentStatus::PendingApproval;
    content.approvals = vec![key(1), key(2)];
    let before = content.clone();
    assert_eq!(content.approve_at(key(3), 1, NOW + 2000), Err(HelmError::InvalidContentStatus));
    assert_eq!(content.approve_at(key(3), 1, NOW), Err(HelmError::InvalidContentStatus));
    assert_eq!(content.approve_at(key(2), 1, NOW + 2000), Err(HelmError::AlreadyApproved));
    assert_eq!(content.approve_at(key(3), 2, NOW + 2000), Err(HelmError::ScheduleTimeInPast));
    assert_eq!(content, before);
}

#[test]
fn checks_that_need_no_time() {
    let mut content = draft(None);
    assert_eq!(content.can_submit(), Ok(()));
    assert_eq!(content.can_cancel(), Ok(()));
    assert_eq!(content.can_reject("no"), Err(HelmError::InvalidContentStatus));
    assert_eq!(content.awaits_approval_of(&key(1)), Err(HelmError::InvalidContentStatus));
    assert_eq!(content.can_approve(&key(1), 2), Err(HelmError::InvalidContentStatus));
    content.status = ContentStatus::PendingApproval;
    content.approvals = vec![key(1), key(2)];
    assert_eq!(content.can_submit(), Err(HelmError::InvalidContentStatus));
    assert_eq!(content.awaits_approval_of(&key(1)), Err(HelmError::AlreadyApproved));
    assert_eq!(content.awaits_approval_of(&key(3)), Ok(()));
    assert_eq!(content.can_approve(&key(1), 1), Err(HelmError::AlreadyApproved));
    assert_eq!(content.can_approve(&key(3), 1), Err(HelmError::InvalidContentStatus));
    assert_eq!(content.can_approve(&key(3), 2), Ok(()));
    assert_eq!(content.can_reject("no"), Ok(()));
    assert_eq!(content.can_reject(&"x".repeat(257)), Err(HelmError::ContentTooLong));
    content.status = ContentStatus::Rejected;
    assert_eq!(content.can_cancel(), Err(HelmError::InvalidStateTransition));
    content.status = ContentStatus::Published;
    assert_eq!(content.can_cancel(), Err(HelmError::ContentInTerminalState));
    content.scheduled_for = Some(NOW);
    assert!(!content.schedule_lies_ahead(NOW));
    assert!(content.schedule_lies_ahead(NOW - 1));
    content.scheduled_for = None;
    assert!(content.schedule_lies_ahead(i64::MAX));
}

#[test]
fn refusals_that_need_no_time_come_without_a_ledger() {
    let mut content = draft(None);
    assert!(matches!(
        content.transition_to(ContentStatus::Approved),
        Err(OpError::Rule(HelmError::InvalidStateTransition))
    ));
    assert!(matches!(
        content.approve(key(1), 2),
        Err(OpError::Rule(HelmError::InvalidContentStatus))
    ));
    assert!(matches!(
        content.reject(String::from("no")),
        Err(OpError::Rule(HelmError::InvalidContentStatus))
    ));
    content.status = ContentStatus::PendingApproval;
    content.approvals = vec![key(1), key(2)];
    let before = content.clone();
    assert!(matches!(
        content.submit(key(1), 2),
        Err(OpError::Rule(HelmError::InvalidContentStatus))
    ));
    assert!(matches!(
        content.approve(key(1), 2),
        Err(OpError::Rule(HelmError::AlreadyApproved))
    ));
    assert!(matches!(
        content.approve(key(3), 1),
        Err(OpError::Rule(HelmError::InvalidContentStatus))
    ));
    assert!(matches!(
        content.reject("x".repeat(257)),
        Err(OpError::Rule(HelmError::ContentTooLong))
    ));
    assert_eq!(content, before);
}
