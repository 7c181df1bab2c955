//! The course of a whole run: queueing the seeds, the rounds of workers, and the recrawls
//! between rounds.
//!
//! A run queues its seeds, then crawls in rounds. Each round creates and starts its workers in
//! order, waits until they stop, and a further round follows only where no shutdown was seen
//! and looking for recrawls filled the queue again. The caller performs each action and hands
//! back what came of it.

use vstd::prelude::*;
use crate::instruction::ApplicationMode;

verus! {

/// Where a run stands.
#[derive(Debug, Clone, Copy, PartialEq, Eq, Structural)]
pub enum SessionStage {
    /// The seeds are being queued.
    Seeding,
    /// Worker `index` of the `count` workers of round `round` is being created and started.
    Creating { round: u64, index: usize, count: usize },
    /// The `count` workers of round `round` run.
    Running { round: u64, count: usize },
    /// The crawl looks for urls to recrawl after round `round`.
    Refilling { round: u64, count: usize },
    /// The run is over.
    Ended,
}

/// What came of the last action of a run.
#[derive(Debug, Clone, Copy, PartialEq, Eq, Structural)]
pub enum SessionEvent {
    /// The seeds were queued; whether a shutdown was requested by then.
    SeedsQueued { shutdown: bool },
    /// Whether the worker was created and started.
    WorkerCreated(bool),
    /// The workers of the round stopped; whether the crawl looks for recrawls (see
    /// `crate::crawl::look_for_recrawls`).
    RoundEnded { look_for_recrawls: bool },
    /// The crawl of the round ended with an error.
    CrawlFailed,
    /// Whether looking for recrawls filled the queue again.
    Refilled(bool),
}

/// What a run does next.
#[derive(Debug, Clone, Copy, PartialEq, Eq, Structural)]
pub enum SessionAction {
    /// End the run with success.
    Finish,
    /// Create the context of worker `index` for round `round` and start the worker.
    CreateWorker { index: usize, round: u64 },
    /// Wait until the workers of the round stop.
    AwaitWorkers,
    /// Look for urls to recrawl and queue them.
    LookForRecrawls,
    /// End the run with the error of creating a worker's context.
    FailWorkerInitialisation,
    /// End the run with the error of the crawl.
    FailWithCrawlError,
}

/// The number of workers of a round in the mode `mode`, on a machine with `cpus` processors.
pub open spec fn workers_in(mode: ApplicationMode, cpus: usize) -> usize {
    match mode {
        ApplicationMode::Single => 1,
        ApplicationMode::Multi(Some(n)) => n,
        ApplicationMode::Multi(None) => cpus,
    }
}

/// The number of workers of a round: one on a single thread; the given number, or one for
/// each processor, on several.
pub fn worker_count(mode: &ApplicationMode, cpus: usize) -> (r: usize)
    ensures r == workers_in(*mode, cpus),
{
    match mode {
        ApplicationMode::Single => 1,
        ApplicationMode::Multi(Some(n)) => *n,
        ApplicationMode::Multi(None) => cpus,
    }
}

/// True iff `event` answers the action that a run in `stage` took.
pub open spec fn session_answers(stage: SessionStage, event: SessionEvent) -> bool {
    match stage {
        SessionStage::Seeding => event is SeedsQueued,
        SessionStage::Creating { .. } => event is WorkerCreated,
        SessionStage::Running { .. } => event is RoundEnded || event is CrawlFailed,
        SessionStage::Refilling { .. } => event is Refilled,
        SessionStage::Ended => false,
    }
}

/// True iff `stage` is one a run can be in with `count` workers a round.
pub open spec fn session_wf(stage: SessionStage, count: usize) -> bool {
    &&& count >= 1
    &&& match stage {
        SessionStage::Creating { index, count: c, .. } => index < c && c == count,
        SessionStage::Running { count: c, .. } => c == count,
        SessionStage::Refilling { round, count: c } => c == count && round < u64::MAX,
        _ => true,
    }
}

/// The stage and action of a run in `stage` after `event`, with `count` workers a round.
pub open spec fn session_transition(stage: SessionStage, event: SessionEvent, count: usize) -> (SessionStage, SessionAction) {
    match (stage, event) {
        (SessionStage::Seeding, SessionEvent::SeedsQueued { shutdown }) => if shutdown {
            (SessionStage::Ended, SessionAction::Finish)
        } else {
            (SessionStage::Creating { round: 0, index: 0, count }, SessionAction::CreateWorker { index: 0, round: 0 })
        },
        (SessionStage::Creating { round, index, count: c }, SessionEvent::WorkerCreated(created)) => if !created {
            (SessionStage::Ended, SessionAction::FailWorkerInitialisation)
        } else if index + 1 < c {
            (SessionStage::Creating { round, index: (index + 1) as usize, count: c },
                SessionAction::CreateWorker { index: (index + 1) as usize, round })
        } else {
            (SessionStage::Running { round, count: c }, SessionAction::AwaitWorkers)
        },
        (SessionStage::Running { round, count: c }, SessionEvent::RoundEnded { look_for_recrawls }) => if look_for_recrawls {
            (SessionStage::Refilling { round, count: c }, SessionAction::LookForRecrawls)
        } else {
            (SessionStage::Ended, SessionAction::Finish)
        },
        (SessionStage::Running { .. }, SessionEvent::CrawlFailed) => (SessionStage::Ended, SessionAction::FailWithCrawlError),
        (SessionStage::Refilling { round, count: c }, SessionEvent::Refilled(refilled)) => if refilled {
            (SessionStage::Creating { round: (round + 1) as u64, index: 0, count: c },
                SessionAction::CreateWorker { index: 0, round: (round + 1) as u64 })
        } else {
            (SessionStage::Ended, SessionAction::Finish)
        },
        _ => (SessionStage::Ended, SessionAction::Finish),
    }
}

/// The first stage of a run.
pub fn session_begin() -> (r: SessionStage)
    ensures r == SessionStage::Seeding,
{
    SessionStage::Seeding
}

/// One decision of a run: its stage and action after `event`, with `count` workers a round.
pub fn session_step(stage: SessionStage, event: SessionEvent, count: usize) -> (r: (SessionStage, SessionAction))
    requires
        session_answers(stage, event),
        session_wf(stage, count),
        stage is Running ==> (event matches SessionEvent::RoundEnded { look_for_recrawls } && look_for_recrawls
            ==> stage->Running_round < u64::MAX),
    ensures
        r == session_transition(stage, event, count),
        session_wf(r.0, count),
{
    match (stage, event) {
        (SessionStage::Seeding, SessionEvent::SeedsQueued { shutdown }) => if shutdown {
            (SessionStage::Ended, SessionAction::Finish)
        } else {
            (SessionStage::Creating { round: 0, index: 0, count }, SessionAction::CreateWorker { index: 0, round: 0 })
        },
        (SessionStage::Creating { round, index, count: c }, SessionEvent::WorkerCreated(created)) => if !created {
            (SessionStage::Ended, SessionAction::FailWorkerInitialisation)
        } else if index + 1 < c {
            (SessionStage::Creating { round, index: index + 1, count: c },
                SessionAction::CreateWorker { index: index + 1, round })
        } else {
            (SessionStage::Running { round, count: c }, SessionAction::AwaitWorkers)
        },
        (SessionStage::Running { round, count: c }, SessionEvent::RoundEnded { look_for_recrawls }) => if look_for_recrawls {
            (SessionStage::Refilling { round, count: c }, SessionAction::LookForRecrawls)
        } else {
            (SessionStage::Ended, SessionAction::Finish)
        },
        (SessionStage::Running { .. }, SessionEvent::CrawlFailed) => (SessionStage::Ended, SessionAction::FailWithCrawlError),
        (SessionStage::Refilling { round, count: c }, SessionEvent::Refilled(refilled)) => if refilled {
            (SessionStage::Creating { round: round + 1, index: 0, count: c },
                SessionAction::CreateWorker { index: 0, round: round + 1 })
        } else {
            (SessionStage::Ended, SessionAction::Finish)
        },
        _ => (SessionStage::Ended, SessionAction::Finish),
    }
}

/// A shutdown seen once the seeds are queued ends the run with success, and no worker is
/// created.
pub proof fn law_shutdown_after_seeding_starts_no_worker(count: usize)
    ensures
        session_transition(SessionStage::Seeding, SessionEvent::SeedsQueued { shutdown: true }, count)
            == (SessionStage::Ended, SessionAction::Finish),
{
}

/// A round creates its workers one after another, `0` first; after the last it waits for
/// them. A creation that fails ends the run with the error of the worker's context.
pub proof fn law_workers_are_created_in_order(round: u64, index: usize, count: usize)
    requires index < count,
    ensures
        session_transition(SessionStage::Creating { round, index, count }, SessionEvent::WorkerCreated(true), count).1
            == if index + 1 < count {
                SessionAction::CreateWorker { index: (index + 1) as usize, round }
            } else {
                SessionAction::AwaitWorkers
            },
        session_transition(SessionStage::Creating { round, index, count }, SessionEvent::WorkerCreated(false), count)
            == (SessionStage::Ended, SessionAction::FailWorkerInitialisation),
{
}

/// A round other than the first begins only after the round before ended without a reason
/// to stop and looking for recrawls filled the queue again; it is then the next round.
pub proof fn law_next_round_only_after_refill(stage: SessionStage, event: SessionEvent, count: usize, round: u64)
    requires
        session_answers(stage, event),
        session_wf(stage, count),
        round > 0,
        session_transition(stage, event, count).0 == (SessionStage::Creating { round, index: 0, count }),
    ensures
        stage == (SessionStage::Refilling { round: (round - 1) as u64, count }),
        event == SessionEvent::Refilled(true),
{
}

} // verus!
