//! Polling the queue for the next url whose host is free.
//!
//! A poll takes entries from the queue until one can be reserved. It drops entries that are
//! too old or whose link state says they are done, keeps up to 32 entries whose host was
//! occupied and retries them when that cache is full, after a wait that timed out, and once
//! more before it gives up. The caller performs each action and hands the answer back.

use vstd::prelude::*;
use crate::budget::BudgetSetting;
use crate::crawl::{drop_from_queue, retry_missed, too_many_misses, too_old, AbortCause, LinkStateKind, MISSED_KEEPER_CACHE};

verus! {

/// How a poll ends.
#[derive(Debug, Clone, Copy, PartialEq, Eq, Structural)]
pub enum PollOutcome {
    /// An url was reserved.
    Found,
    /// No url, for a cause.
    Aborted(AbortCause),
    /// Reading the queue or a link state failed.
    Failed,
}

/// Where a poll stands.
#[derive(Debug, Clone, Copy, PartialEq, Eq, Structural)]
pub enum PollPhase {
    /// Asking whether the queue is drained.
    Top,
    /// Retrying the cached entries.
    RetryingMissed,
    /// Taking an entry from the queue.
    Dequeuing,
    /// Reading the link state of the entry.
    CheckingState,
    /// Reserving the host of the entry.
    Reserving,
    /// Waiting for a change of the queue, a shutdown or a timeout.
    Waiting,
    /// Retrying the cached entries a last time before ending with `outcome`.
    FinalRetry { outcome: PollOutcome },
    /// The poll ended.
    Done,
}

/// The state of a poll.
#[derive(Debug, Clone, Copy, PartialEq, Eq, Structural)]
pub struct PollState {
    pub phase: PollPhase,
    /// The number of entries whose host was occupied.
    pub missed: u64,
    /// The number of cached entries.
    pub cached: usize,
    /// Whether the cached entries are retried in the next round.
    pub force_clean_cache: bool,
}

/// What reserving the host of an entry gave.
#[derive(Debug, Clone, Copy, PartialEq, Eq, Structural)]
pub enum Reservation {
    Reserved,
    NoHost,
    Occupied,
}

/// How a wait ended.
#[derive(Debug, Clone, Copy, PartialEq, Eq, Structural)]
pub enum WaitOutcome {
    Changed,
    Shutdown,
    TimedOut,
}

/// The answer to the last action of a poll.
#[derive(Debug, Clone, Copy, PartialEq, Eq, Structural)]
pub enum PollAnswer {
    /// Whether the queue is empty and no url of it is being worked on.
    QueueChecked { drained: bool },
    /// What retrying the cached entries gave: an outcome, or nothing where all hosts were
    /// still occupied. The cache is empty afterwards.
    MissedRetried(Option<PollOutcome>),
    /// An entry was taken, which had been taken `age` times before.
    Dequeued { age: u32 },
    /// The queue gave no entry; `floating` tells whether urls of it are being worked on.
    QueueWasEmpty { floating: bool },
    /// Taking an entry failed.
    DequeueFailed,
    /// The link state of the entry, if it has one.
    LinkStateRead(Option<LinkStateKind>),
    /// Reading the link state failed.
    LinkStateFailed,
    /// What reserving the host gave.
    ReserveAnswered(Reservation),
    /// How the wait ended.
    Waited(WaitOutcome),
}

/// What a poll does next.
#[derive(Debug, Clone, Copy, PartialEq, Eq, Structural)]
pub enum PollAction {
    /// Ask whether the queue is drained.
    CheckQueue,
    /// Drop the entry, then ask whether the queue is drained.
    DropAndCheckQueue,
    /// Put the entry into the cache, then ask whether the queue is drained.
    CacheAndCheckQueue,
    /// Retry the cached entries.
    RetryMissed,
    /// Take an entry from the queue.
    Dequeue,
    /// Read the link state of the entry.
    ReadLinkState,
    /// Reserve the host of the entry.
    Reserve,
    /// Wait for a change of the queue, a shutdown or a second.
    Wait,
    /// End the poll.
    Finish(PollOutcome),
}

/// The state of a poll before its first action, `CheckQueue`.
pub open spec fn poll_start_state() -> PollState {
    PollState { phase: PollPhase::Top, missed: 0, cached: 0, force_clean_cache: false }
}

/// The cache holds at most 32 entries, and fewer while an entry is being worked on.
pub open spec fn poll_wf(s: PollState) -> bool {
    &&& s.cached <= 32
    &&& (s.phase is Dequeuing || s.phase is CheckingState || s.phase is Reserving || s.phase is Waiting)
            ==> s.cached < 32
}

/// True iff `a` answers the action that a poll in the state `s` took.
pub open spec fn poll_answers(s: PollState, a: PollAnswer) -> bool {
    match s.phase {
        PollPhase::Top => a is QueueChecked,
        PollPhase::RetryingMissed => a is MissedRetried,
        PollPhase::FinalRetry { .. } => a is MissedRetried,
        PollPhase::Dequeuing => a is Dequeued || a is QueueWasEmpty || a is DequeueFailed,
        PollPhase::CheckingState => a is LinkStateRead || a is LinkStateFailed,
        PollPhase::Reserving => a is ReserveAnswered,
        PollPhase::Waiting => a is Waited,
        PollPhase::Done => false,
    }
}

/// Ending with `outcome`: a poll that has no url retries its cached entries first.
pub open spec fn end_with(s: PollState, outcome: PollOutcome) -> (PollState, PollAction) {
    if outcome != PollOutcome::Found && s.cached > 0 {
        (PollState { phase: PollPhase::FinalRetry { outcome }, ..s }, PollAction::RetryMissed)
    } else {
        (PollState { phase: PollPhase::Done, ..s }, PollAction::Finish(outcome))
    }
}

/// The state and action of a poll in the state `s` after the answer `a`, with the largest age
/// `max_age` of an entry (0 for any), the most misses `max_miss`, and the budget of the
/// entry's host `budget`.
pub open spec fn poll_transition(
    s: PollState,
    a: PollAnswer,
    max_age: u32,
    max_miss: Option<u64>,
    budget: BudgetSetting,
) -> (PollState, PollAction) {
    match (s.phase, a) {
        (PollPhase::Top, PollAnswer::QueueChecked { drained }) => if drained {
            end_with(s, PollOutcome::Aborted(AbortCause::QueueIsEmpty))
        } else if (match max_miss { Some(m) => s.missed > m, None => false }) {
            end_with(s, PollOutcome::Aborted(AbortCause::TooManyMisses))
        } else if s.cached == 32 || s.force_clean_cache {
            (PollState { phase: PollPhase::RetryingMissed, ..s }, PollAction::RetryMissed)
        } else {
            (PollState { phase: PollPhase::Dequeuing, ..s }, PollAction::Dequeue)
        },
        (PollPhase::RetryingMissed, PollAnswer::MissedRetried(found)) => match found {
            Some(outcome) => (PollState { phase: PollPhase::Done, cached: 0, ..s }, PollAction::Finish(outcome)),
            None => (
                PollState { phase: PollPhase::Dequeuing, cached: 0, force_clean_cache: false, ..s },
                PollAction::Dequeue,
            ),
        },
        (PollPhase::FinalRetry { outcome }, PollAnswer::MissedRetried(found)) => if found == Some(PollOutcome::Found) {
            (PollState { phase: PollPhase::Done, cached: 0, ..s }, PollAction::Finish(PollOutcome::Found))
        } else {
            (PollState { phase: PollPhase::Done, cached: 0, ..s }, PollAction::Finish(outcome))
        },
        (PollPhase::Dequeuing, PollAnswer::Dequeued { age }) => if max_age != 0 && age > max_age {
            (PollState { phase: PollPhase::Top, ..s }, PollAction::DropAndCheckQueue)
        } else {
            (PollState { phase: PollPhase::CheckingState, ..s }, PollAction::ReadLinkState)
        },
        (PollPhase::Dequeuing, PollAnswer::QueueWasEmpty { floating }) => if floating {
            (PollState { phase: PollPhase::Waiting, ..s }, PollAction::Wait)
        } else {
            (PollState { phase: PollPhase::Top, ..s }, PollAction::CheckQueue)
        },
        (PollPhase::Dequeuing, PollAnswer::DequeueFailed) => end_with(s, PollOutcome::Failed),
        (PollPhase::CheckingState, PollAnswer::LinkStateRead(state)) => if (match state {
            Some(LinkStateKind::Discovered) => false,
            Some(LinkStateKind::ProcessedAndStored) => budget.interval() is None,
            Some(_) => true,
            None => false,
        }) {
            (PollState { phase: PollPhase::Top, ..s }, PollAction::DropAndCheckQueue)
        } else {
            (PollState { phase: PollPhase::Reserving, ..s }, PollAction::Reserve)
        },
        (PollPhase::CheckingState, PollAnswer::LinkStateFailed) => end_with(s, PollOutcome::Failed),
        (PollPhase::Reserving, PollAnswer::ReserveAnswered(reservation)) => match reservation {
            Reservation::Reserved => (PollState { phase: PollPhase::Done, ..s }, PollAction::Finish(PollOutcome::Found)),
            Reservation::NoHost => end_with(s, PollOutcome::Aborted(AbortCause::NoHost)),
            Reservation::Occupied => (
                PollState { phase: PollPhase::Top, missed: (s.missed + 1) as u64, cached: (s.cached + 1) as usize, ..s },
                PollAction::CacheAndCheckQueue,
            ),
        },
        (PollPhase::Waiting, PollAnswer::Waited(outcome)) => match outcome {
            WaitOutcome::Changed => (PollState { phase: PollPhase::Top, force_clean_cache: false, ..s }, PollAction::CheckQueue),
            WaitOutcome::TimedOut => (PollState { phase: PollPhase::Top, force_clean_cache: true, ..s }, PollAction::CheckQueue),
            WaitOutcome::Shutdown => end_with(s, PollOutcome::Aborted(AbortCause::Shutdown)),
        },
        _ => (PollState { phase: PollPhase::Done, ..s }, PollAction::Finish(PollOutcome::Failed)),
    }
}

/// The state of a new poll; its first action is `CheckQueue`.
pub fn poll_start() -> (r: PollState)
    ensures r == poll_start_state(), poll_wf(r),
{
    PollState { phase: PollPhase::Top, missed: 0, cached: 0, force_clean_cache: false }
}

fn finish(s: PollState, outcome: PollOutcome) -> (r: (PollState, PollAction))
    ensures r == end_with(s, outcome),
{
    let found = match outcome {
        PollOutcome::Found => true,
        _ => false,
    };
    if !found && s.cached > 0 {
        (PollState { phase: PollPhase::FinalRetry { outcome }, ..s }, PollAction::RetryMissed)
    } else {
        (PollState { phase: PollPhase::Done, ..s }, PollAction::Finish(outcome))
    }
}

/// One decision of a poll: its state and action after the answer `a`.
pub fn poll_step(
    s: PollState,
    a: PollAnswer,
    max_age: u32,
    max_miss: Option<u64>,
    budget: &BudgetSetting,
) -> (r: (PollState, PollAction))
    requires
        poll_wf(s),
        poll_answers(s, a),
        a == PollAnswer::ReserveAnswered(Reservation::Occupied) ==> s.missed < u64::MAX,
    ensures
        r == poll_transition(s, a, max_age, max_miss, *budget),
        poll_wf(r.0),
{
    match s.phase {
        PollPhase::Top => {
            let drained = match a {
                PollAnswer::QueueChecked { drained } => drained,
                _ => true,
            };
            if drained {
                finish(s, PollOutcome::Aborted(AbortCause::QueueIsEmpty))
            } else if too_many_misses(s.missed, max_miss) {
                finish(s, PollOutcome::Aborted(AbortCause::TooManyMisses))
            } else if retry_missed(s.cached, s.force_clean_cache) {
                (PollState { phase: PollPhase::RetryingMissed, ..s }, PollAction::RetryMissed)
            } else {
                (PollState { phase: PollPhase::Dequeuing, ..s }, PollAction::Dequeue)
            }
        },
        PollPhase::RetryingMissed => match a {
            PollAnswer::MissedRetried(Some(outcome)) =>
                (PollState { phase: PollPhase::Done, cached: 0, ..s }, PollAction::Finish(outcome)),
            _ => (
                PollState { phase: PollPhase::Dequeuing, cached: 0, force_clean_cache: false, ..s },
                PollAction::Dequeue,
            ),
        },
        PollPhase::FinalRetry { outcome } => {
            let found = match a {
                PollAnswer::MissedRetried(Some(PollOutcome::Found)) => true,
                _ => false,
            };
            if found {
                (PollState { phase: PollPhase::Done, cached: 0, ..s }, PollAction::Finish(PollOutcome::Found))
            } else {
                (PollState { phase: PollPhase::Done, cached: 0, ..s }, PollAction::Finish(outcome))
            }
        },
        PollPhase::Dequeuing => match a {
            PollAnswer::Dequeued { age } => {
                if too_old(max_age, age) {
                    (PollState { phase: PollPhase::Top, ..s }, PollAction::DropAndCheckQueue)
                } else {
                    (PollState { phase: PollPhase::CheckingState, ..s }, PollAction::ReadLinkState)
                }
            },
            PollAnswer::QueueWasEmpty { floating } => {
                if floating {
                    (PollState { phase: PollPhase::Waiting, ..s }, PollAction::Wait)
                } else {
                    (PollState { phase: PollPhase::Top, ..s }, PollAction::CheckQueue)
                }
            },
            _ => finish(s, PollOutcome::Failed),
        },
        PollPhase::CheckingState => match a {
            PollAnswer::LinkStateRead(state) => {
                let dropped = match state {
                    Some(kind) => drop_from_queue(kind, budget),
                    None => false,
                };
                if dropped {
                    (PollState { phase: PollPhase::Top, ..s }, PollAction::DropAndCheckQueue)
                } else {
                    (PollState { phase: PollPhase::Reserving, ..s }, PollAction::Reserve)
                }
            },
            _ => finish(s, PollOutcome::Failed),
        },
        PollPhase::Reserving => {
            let reservation = match a {
                PollAnswer::ReserveAnswered(reservation) => reservation,
                _ => Reservation::NoHost,
            };
            match reservation {
                Reservation::Reserved => (PollState { phase: PollPhase::Done, ..s }, PollAction::Finish(PollOutcome::Found)),
                Reservation::NoHost => finish(s, PollOutcome::Aborted(AbortCause::NoHost)),
                Reservation::Occupied => (
                    PollState { phase: PollPhase::Top, missed: s.missed + 1, cached: s.cached + 1, ..s },
                    PollAction::CacheAndCheckQueue,
                ),
            }
        },
        PollPhase::Waiting => {
            let outcome = match a {
                PollAnswer::Waited(outcome) => outcome,
                _ => WaitOutcome::Shutdown,
            };
            match outcome {
                WaitOutcome::Changed => (PollState { phase: PollPhase::Top, force_clean_cache: false, ..s }, PollAction::CheckQueue),
                WaitOutcome::TimedOut => (PollState { phase: PollPhase::Top, force_clean_cache: true, ..s }, PollAction::CheckQueue),
                WaitOutcome::Shutdown => finish(s, PollOutcome::Aborted(AbortCause::Shutdown)),
            }
        },
        PollPhase::Done => (PollState { phase: PollPhase::Done, ..s }, PollAction::Finish(PollOutcome::Failed)),
    }
}

/// Every step keeps the cache of missed entries within its 32 places.
pub proof fn law_cache_stays_bounded(
    s: PollState,
    a: PollAnswer,
    max_age: u32,
    max_miss: Option<u64>,
    budget: BudgetSetting,
)
    requires poll_wf(s), poll_answers(s, a),
    ensures poll_wf(poll_transition(s, a, max_age, max_miss, budget).0),
{
}

/// A poll that ends without an url keeps no missed entry: it retried them all first.
pub proof fn law_no_url_keeps_no_missed_entry(
    s: PollState,
    a: PollAnswer,
    max_age: u32,
    max_miss: Option<u64>,
    budget: BudgetSetting,
)
    requires poll_wf(s), poll_answers(s, a),
    ensures
        ({
            let (next, action) = poll_transition(s, a, max_age, max_miss, budget);
            (action matches PollAction::Finish(o) && o != PollOutcome::Found
                && !(s.phase is RetryingMissed)) ==> next.cached == 0
        }),
{
}

/// A poll takes no entry from the queue once it missed more hosts than allowed, and counts
/// a miss exactly when a host was occupied.
pub proof fn law_misses_are_counted_and_bounded(
    s: PollState,
    a: PollAnswer,
    max_age: u32,
    max_miss: Option<u64>,
    budget: BudgetSetting,
)
    requires
        poll_wf(s),
        poll_answers(s, a),
        a == PollAnswer::ReserveAnswered(Reservation::Occupied) ==> s.missed < u64::MAX,
    ensures
        ({
            let (next, action) = poll_transition(s, a, max_age, max_miss, budget);
            &&& (action == PollAction::Dequeue && s.phase is Top) ==> !(match max_miss {
                Some(m) => next.missed > m,
                None => false,
            })
            &&& next.missed == if a == PollAnswer::ReserveAnswered(Reservation::Occupied) {
                s.missed + 1
            } else {
                s.missed as int
            }
        }),
{
}

/// Which entries the poll keeps after reading their link state: an url without a state or
/// only discovered is reserved; a processed and stored one is reserved where its budget
/// recrawls and dropped where it does not; an url in any other state is dropped.
pub proof fn law_poll_keeps_urls_that_may_be_crawled(
    s: PollState,
    state: Option<LinkStateKind>,
    max_age: u32,
    max_miss: Option<u64>,
    budget: BudgetSetting,
)
    requires s.phase == PollPhase::CheckingState,
    ensures
        ({
            let action = poll_transition(s, PollAnswer::LinkStateRead(state), max_age, max_miss, budget).1;
            &&& state is None ==> action == PollAction::Reserve
            &&& state == Some(LinkStateKind::Discovered) ==> action == PollAction::Reserve
            &&& state == Some(LinkStateKind::ProcessedAndStored) && budget.interval() is Some
                ==> action == PollAction::Reserve
            &&& state == Some(LinkStateKind::ProcessedAndStored) && budget.interval() is None
                ==> action == PollAction::DropAndCheckQueue
            &&& (state matches Some(k) && k != LinkStateKind::Discovered && k != LinkStateKind::ProcessedAndStored)
                ==> action == PollAction::DropAndCheckQueue
            &&& (action == PollAction::Reserve || action == PollAction::DropAndCheckQueue)
        }),
{
}

} // verus!
