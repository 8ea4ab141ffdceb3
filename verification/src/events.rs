//! The event store: the life of a stored event.

use vstd::prelude::*;
use chrono::Timelike;
use crate::repo_error::{Error as RepoError, ErrorKind};
use crate::time::Timestamp;

verus! {

/// Where a stored event stands.
#[derive(Clone, Copy, Debug, PartialEq, Eq, Structural, Hash)]
pub enum EventStatus {
    Pending,
    InProgress,
    Completed,
    Failed,
}

/// `r` is an internal repository error.
pub open spec fn internal_repo_error<T>(r: Result<T, RepoError>) -> bool {
    r matches Err(e) && e.kind is Internal && e.source is None
}

fn internal_error() -> (e: RepoError)
    ensures
        e.kind is Internal,
        e.source is None,
{
    RepoError { kind: ErrorKind::Internal, source: None }
}

/// The status a failed or stuck event gets: failed for good once it has
/// been tried `max_processing_attempts` times (read as an `i32`), else
/// pending again.
pub open spec fn status_after_failure(attempt_count: i32, max_processing_attempts: u32) -> EventStatus {
    if attempt_count >= max_processing_attempts as i32 {
        EventStatus::Failed
    } else {
        EventStatus::Pending
    }
}

/// The status of an event that is completed: only an event in progress
/// can be completed.
pub fn complete_event_status(current: EventStatus) -> (r: Result<EventStatus, RepoError>)
    ensures
        current == EventStatus::InProgress ==> r == Ok::<EventStatus, RepoError>(EventStatus::Completed),
        current != EventStatus::InProgress ==> internal_repo_error(r),
{
    if current != EventStatus::InProgress {
        return Err(internal_error());
    }
    Ok(EventStatus::Completed)
}

/// The status of an event whose processing failed: only an event in
/// progress can fail.
pub fn fail_event_status(current: EventStatus, attempt_count: i32, max_processing_attempts: u32) -> (r: Result<
    EventStatus,
    RepoError,
>)
    ensures
        current == EventStatus::InProgress ==> r == Ok::<EventStatus, RepoError>(
            status_after_failure(attempt_count, max_processing_attempts),
        ),
        current != EventStatus::InProgress ==> internal_repo_error(r),
{
    let new_status = stuck_event_status(attempt_count, max_processing_attempts);
    if current != EventStatus::InProgress {
        return Err(internal_error());
    }
    Ok(new_status)
}

/// The status an event stuck in progress is reset to.
pub fn stuck_event_status(attempt_count: i32, max_processing_attempts: u32) -> (s: EventStatus)
    ensures
        s == status_after_failure(attempt_count, max_processing_attempts),
{
    if attempt_count >= max_processing_attempts as i32 {
        EventStatus::Failed
    } else {
        EventStatus::Pending
    }
}

/// Completing or failing an event takes it out of progress: it ends
/// completed, failed, or pending for another attempt, never in progress.
pub proof fn event_leaves_progress(attempt_count: i32, max_processing_attempts: u32)
    ensures
        status_after_failure(attempt_count, max_processing_attempts) != EventStatus::InProgress,
        status_after_failure(attempt_count, max_processing_attempts) != EventStatus::Completed,
{
}

/// Calls `chrono::NaiveTime::from_num_seconds_from_midnight_opt` with no
/// nanoseconds and hands out the seconds since midnight of the time it
/// makes: chrono's source accepts exactly `secs < 86400` when the
/// nanoseconds are zero, and keeps the seconds as given.
#[verifier::external_body]
fn chrono_time_of_day(secs: u32) -> (r: Option<u32>)
    ensures
        r is Some <==> secs < 86_400,
        r matches Some(s) ==> s == secs,
{
    chrono::NaiveTime::from_num_seconds_from_midnight_opt(secs, 0).map(|t| t.num_seconds_from_midnight())
}

/// How long an event may stay in progress before it counts as stuck, as a
/// time of day in seconds: a threshold of a day or more is an internal error.
pub fn stuck_threshold(stuck_threshold_sec: u32) -> (r: Result<u32, RepoError>)
    ensures
        stuck_threshold_sec < 86_400 ==> r == Ok::<u32, RepoError>(stuck_threshold_sec),
        stuck_threshold_sec >= 86_400 ==> internal_repo_error(r),
{
    match chrono_time_of_day(stuck_threshold_sec) {
        Some(s) => Ok(s),
        None => Err(internal_error()),
    }
}

/// Whether an event is due for processing at `now`: it is pending, and not
/// scheduled for later.
pub open spec fn due_for_processing(status: EventStatus, scheduled_on: Option<Timestamp>, now: Timestamp) -> bool {
    status == EventStatus::Pending && match scheduled_on {
        None => true,
        Some(t) => t.nanos <= now.nanos,
    }
}

/// Whether an event with `status`, scheduled on `scheduled_on`, is handed
/// out for processing at `now`.
pub fn is_due_for_processing(status: EventStatus, scheduled_on: Option<Timestamp>, now: Timestamp) -> (r: bool)
    ensures
        r == due_for_processing(status, scheduled_on, now),
{
    status == EventStatus::Pending && match scheduled_on {
        None => true,
        Some(t) => t.nanos <= now.nanos,
    }
}

/// What handing an event out for processing does to it: it goes in
/// progress, with one more attempt counted.
pub fn start_processing(attempt_count: i32) -> (r: (EventStatus, i32))
    requires
        attempt_count < i32::MAX,
    ensures
        r.0 == EventStatus::InProgress,
        r.1 == attempt_count + 1,
{
    (EventStatus::InProgress, attempt_count + 1)
}

/// Whether an event is stuck at `now`: it has been in progress since
/// `status_updated_at` for longer than `stuck_threshold_sec` seconds.
pub open spec fn stuck(status: EventStatus, status_updated_at: Timestamp, stuck_threshold_sec: u32, now: Timestamp) -> bool {
    status == EventStatus::InProgress && status_updated_at.nanos + stuck_threshold_sec * 1_000_000_000 < now.nanos
}

/// Whether an event with `status`, last changed at `status_updated_at`,
/// is stuck at `now`.
pub fn is_stuck(status: EventStatus, status_updated_at: Timestamp, stuck_threshold_sec: u32, now: Timestamp) -> (r: bool)
    ensures
        r == stuck(status, status_updated_at, stuck_threshold_sec, now),
{
    let limit: i128 = status_updated_at.nanos as i128 + stuck_threshold_sec as i128 * 1_000_000_000;
    status == EventStatus::InProgress && limit < now.nanos as i128
}

/// An event is retried until it has been tried `max_processing_attempts`
/// times: after a failure it is pending again exactly when fewer attempts
/// were made, else failed, and a failed event is never handed out again.
pub proof fn events_retried_until_attempts_run_out(
    attempt_count: i32,
    max_processing_attempts: u32,
    scheduled_on: Option<Timestamp>,
    now: Timestamp,
)
    requires
        max_processing_attempts <= i32::MAX,
    ensures
        (status_after_failure(attempt_count, max_processing_attempts) == EventStatus::Pending) <==> attempt_count
            < max_processing_attempts,
        (status_after_failure(attempt_count, max_processing_attempts) == EventStatus::Failed) <==> attempt_count
            >= max_processing_attempts,
        !due_for_processing(EventStatus::Failed, scheduled_on, now),
{
}

} // verus!
