use atra::instruction::ApplicationMode;
use atra::session::{session_begin, session_step, worker_count, SessionAction, SessionEvent, SessionStage};

#[test]
fn a_shutdown_after_seeding_starts_no_worker() {
    assert_eq!(
        session_step(session_begin(), SessionEvent::SeedsQueued { shutdown: true }, 4),
        (SessionStage::Ended, SessionAction::Finish)
    );
}

#[test]
fn rounds_create_their_workers_in_order() {
    let count = worker_count(&ApplicationMode::Multi(Some(3)), 8);
    assert_eq!(count, 3);
    let (mut stage, mut action) = session_step(session_begin(), SessionEvent::SeedsQueued { shutdown: false }, count);
    let mut created = Vec::new();
    while let SessionAction::CreateWorker { index, round } = action {
        created.push((index, round));
        let next = session_step(stage, SessionEvent::WorkerCreated(true), count);
        stage = next.0;
        action = next.1;
    }
    assert_eq!(created, vec![(0, 0), (1, 0), (2, 0)]);
    assert_eq!(action, SessionAction::AwaitWorkers);
    let (stage, action) = session_step(stage, SessionEvent::RoundEnded { look_for_recrawls: true }, count);
    assert_eq!(action, SessionAction::LookForRecrawls);
    let (stage, action) = session_step(stage, SessionEvent::Refilled(true), count);
    assert_eq!(action, SessionAction::CreateWorker { index: 0, round: 1 });
    assert_eq!(
        session_step(stage, SessionEvent::WorkerCreated(false), count),
        (SessionStage::Ended, SessionAction::FailWorkerInitialisation)
    );
}

#[test]
fn a_round_without_recrawls_ends_the_run() {
    assert_eq!(worker_count(&ApplicationMode::Single, 8), 1);
    assert_eq!(worker_count(&ApplicationMode::Multi(None), 8), 8);
    let running = SessionStage::Running { round: 0, count: 1 };
    assert_eq!(session_step(running, SessionEvent::RoundEnded { look_for_recrawls: false }, 1), (SessionStage::Ended, SessionAction::Finish));
    assert_eq!(session_step(running, SessionEvent::CrawlFailed, 1), (SessionStage::Ended, SessionAction::FailWithCrawlError));
    let refilling = SessionStage::Refilling { round: 0, count: 1 };
    assert_eq!(session_step(refilling, SessionEvent::Refilled(false), 1), (SessionStage::Ended, SessionAction::Finish));
}
