use atra::budget::{BudgetSetting, CrawlDuration};
use atra::crawl::{AbortCause, LinkStateKind};
use atra::crawl_task::{run_begin, run_step, task_start, task_step, RunAction, RunEvent, RunPhase, TargetPhase, TaskAction, TaskEvent};
use atra::polling::{poll_start, poll_step, PollAction, PollAnswer, PollOutcome, PollPhase, Reservation, WaitOutcome};

#[test]
fn a_url_goes_from_reservation_to_stored() {
    let (phase, action) = task_start();
    assert_eq!(action, TaskAction::ReadLinkState);
    let (phase, action) = task_step(phase, TaskEvent::LinkStateRead(None), false, None);
    assert_eq!(action, TaskAction::CheckAllowed);
    let (phase, action) = task_step(phase, TaskEvent::AllowedChecked(true), false, None);
    assert_eq!(action, TaskAction::LookUpCrawled);
    let (phase, action) = task_step(phase, TaskEvent::CrawledBefore(None), false, None);
    assert_eq!(action, TaskAction::Reserve { with_meta: true });
    let (phase, action) = task_step(phase, TaskEvent::Reserved(true), false, None);
    assert_eq!(action, TaskAction::Fetch);
    let (phase, action) = task_step(phase, TaskEvent::Fetched(true), false, None);
    assert_eq!(action, TaskAction::MarkCrawledAndProcess);
    let (phase, action) = task_step(phase, TaskEvent::Processed { has_links: true }, false, None);
    assert_eq!(action, TaskAction::HandleLinks);
    let (phase, action) = task_step(phase, TaskEvent::LinksHandled(true), false, None);
    assert_eq!(action, TaskAction::Store);
    let (phase, action) = task_step(phase, TaskEvent::Stored(true), false, None);
    assert_eq!(phase, TargetPhase::Finished);
    assert_eq!(action, TaskAction::Finish { state: LinkStateKind::ProcessedAndStored, stop: false });
}

#[test]
fn a_url_that_is_not_allowed_gets_its_old_state_back() {
    let loaded = TargetPhase::Loaded { old: Some(LinkStateKind::Crawled) };
    assert_eq!(
        task_step(loaded, TaskEvent::AllowedChecked(false), false, None),
        (TargetPhase::Finished, TaskAction::Finish { state: LinkStateKind::Crawled, stop: false })
    );
    let fresh = TargetPhase::Loaded { old: None };
    assert_eq!(
        task_step(fresh, TaskEvent::AllowedChecked(false), false, None),
        (TargetPhase::Finished, TaskAction::Finish { state: LinkStateKind::Discovered, stop: false })
    );
}

#[test]
fn a_shutdown_stops_the_task_and_puts_the_url_back() {
    assert_eq!(
        task_step(TargetPhase::Start, TaskEvent::LinkStateRead(Some(LinkStateKind::Crawled)), true, None),
        (TargetPhase::Stopped, TaskAction::Finish { state: LinkStateKind::Crawled, stop: true })
    );
    assert_eq!(
        task_step(TargetPhase::Reserving { old: None }, TaskEvent::Reserved(true), true, None),
        (TargetPhase::Stopped, TaskAction::Finish { state: LinkStateKind::Discovered, stop: true })
    );
    assert_eq!(
        task_step(TargetPhase::Processing, TaskEvent::Processed { has_links: false }, true, None),
        (TargetPhase::Stopped, TaskAction::Finish { state: LinkStateKind::Discovered, stop: true })
    );
    assert_eq!(
        task_step(TargetPhase::HandlingLinks, TaskEvent::LinksHandled(true), true, None),
        (TargetPhase::Stopped, TaskAction::Finish { state: LinkStateKind::Discovered, stop: true })
    );
}

#[test]
fn crawled_urls_are_skipped_or_crawled_again_by_the_recrawl_interval() {
    let checked = TargetPhase::Checked { old: None };
    let crawled_a_minute_ago = TaskEvent::CrawledBefore(Some(CrawlDuration::seconds(60)));
    assert_eq!(task_step(checked, crawled_a_minute_ago, false, None), (TargetPhase::Finished, TaskAction::Skip));
    assert_eq!(
        task_step(checked, crawled_a_minute_ago, false, Some(CrawlDuration::seconds(30))),
        (TargetPhase::Finished, TaskAction::Skip)
    );
    assert_eq!(
        task_step(checked, crawled_a_minute_ago, false, Some(CrawlDuration::seconds(120))),
        (TargetPhase::Reserving { old: None }, TaskAction::Reserve { with_meta: false })
    );
    assert_eq!(task_step(checked, TaskEvent::LookupFailed, false, None), (TargetPhase::Fetching, TaskAction::Fetch));
}

#[test]
fn failures_are_recorded_as_internal_errors_or_stop_the_task() {
    assert_eq!(
        task_step(TargetPhase::Start, TaskEvent::LinkStateReadFailed, false, None),
        (TargetPhase::Stopped, TaskAction::ConsumeErrorAndStop)
    );
    assert_eq!(
        task_step(TargetPhase::Reserving { old: Some(LinkStateKind::Discovered) }, TaskEvent::Reserved(false), false, None),
        (TargetPhase::Finished, TaskAction::Finish { state: LinkStateKind::Discovered, stop: false })
    );
    assert_eq!(
        task_step(TargetPhase::Fetching, TaskEvent::Fetched(false), false, None),
        (TargetPhase::Finished, TaskAction::Finish { state: LinkStateKind::InternalError, stop: false })
    );
    assert_eq!(
        task_step(TargetPhase::Processing, TaskEvent::ProcessFailed, false, None),
        (TargetPhase::Finished, TaskAction::Finish { state: LinkStateKind::InternalError, stop: false })
    );
    assert_eq!(
        task_step(TargetPhase::HandlingLinks, TaskEvent::LinksHandled(false), false, None),
        (TargetPhase::Stopped, TaskAction::ReportAndStop { state: LinkStateKind::Discovered })
    );
    assert_eq!(
        task_step(TargetPhase::Storing, TaskEvent::Stored(false), false, None),
        (TargetPhase::Stopped, TaskAction::ReportAndStop { state: LinkStateKind::Discovered })
    );
    assert_eq!(
        task_step(TargetPhase::Processing, TaskEvent::Processed { has_links: false }, false, None),
        (TargetPhase::Storing, TaskAction::Store)
    );
}

#[test]
fn a_poll_reserves_the_first_free_host() {
    let budget = BudgetSetting::default();
    let s = poll_start();
    let (s, a) = poll_step(s, PollAnswer::QueueChecked { drained: false }, 20, None, &budget);
    assert_eq!(a, PollAction::Dequeue);
    let (s, a) = poll_step(s, PollAnswer::Dequeued { age: 0 }, 20, None, &budget);
    assert_eq!(a, PollAction::ReadLinkState);
    let (s, a) = poll_step(s, PollAnswer::LinkStateRead(Some(LinkStateKind::Discovered)), 20, None, &budget);
    assert_eq!(a, PollAction::Reserve);
    let (s, a) = poll_step(s, PollAnswer::ReserveAnswered(Reservation::Reserved), 20, None, &budget);
    assert_eq!(a, PollAction::Finish(PollOutcome::Found));
    assert_eq!(s.phase, PollPhase::Done);
}

#[test]
fn a_poll_drops_old_and_finished_entries() {
    let budget = BudgetSetting::default();
    let s = poll_start();
    let (s, _) = poll_step(s, PollAnswer::QueueChecked { drained: false }, 20, None, &budget);
    let (s, a) = poll_step(s, PollAnswer::Dequeued { age: 21 }, 20, None, &budget);
    assert_eq!(a, PollAction::DropAndCheckQueue);
    let (s, _) = poll_step(s, PollAnswer::QueueChecked { drained: false }, 20, None, &budget);
    let (s, _) = poll_step(s, PollAnswer::Dequeued { age: 3 }, 20, None, &budget);
    let (_, a) = poll_step(s, PollAnswer::LinkStateRead(Some(LinkStateKind::ProcessedAndStored)), 20, None, &budget);
    assert_eq!(a, PollAction::DropAndCheckQueue);
}

#[test]
fn occupied_hosts_are_cached_and_retried_before_giving_up() {
    let budget = BudgetSetting::default();
    let s = poll_start();
    let (s, _) = poll_step(s, PollAnswer::QueueChecked { drained: false }, 0, Some(5), &budget);
    let (s, _) = poll_step(s, PollAnswer::Dequeued { age: 0 }, 0, Some(5), &budget);
    let (s, _) = poll_step(s, PollAnswer::LinkStateRead(None), 0, Some(5), &budget);
    let (s, a) = poll_step(s, PollAnswer::ReserveAnswered(Reservation::Occupied), 0, Some(5), &budget);
    assert_eq!(a, PollAction::CacheAndCheckQueue);
    assert_eq!((s.missed, s.cached), (1, 1));
    let (s, a) = poll_step(s, PollAnswer::QueueChecked { drained: true }, 0, Some(5), &budget);
    assert_eq!(a, PollAction::RetryMissed);
    assert_eq!(s.phase, PollPhase::FinalRetry { outcome: PollOutcome::Aborted(AbortCause::QueueIsEmpty) });
    let (s, a) = poll_step(s, PollAnswer::MissedRetried(None), 0, Some(5), &budget);
    assert_eq!(a, PollAction::Finish(PollOutcome::Aborted(AbortCause::QueueIsEmpty)));
    assert_eq!(s.cached, 0);
}

#[test]
fn too_many_misses_end_the_poll() {
    let budget = BudgetSetting::default();
    let mut s = poll_start();
    s.missed = 6;
    let (_, a) = poll_step(s, PollAnswer::QueueChecked { drained: false }, 0, Some(5), &budget);
    assert_eq!(a, PollAction::Finish(PollOutcome::Aborted(AbortCause::TooManyMisses)));
}

#[test]
fn a_full_cache_or_a_timed_out_wait_retries_the_missed_entries() {
    let budget = BudgetSetting::default();
    let mut s = poll_start();
    s.cached = 32;
    let (s, a) = poll_step(s, PollAnswer::QueueChecked { drained: false }, 0, None, &budget);
    assert_eq!(a, PollAction::RetryMissed);
    let (s, a) = poll_step(s, PollAnswer::MissedRetried(None), 0, None, &budget);
    assert_eq!(a, PollAction::Dequeue);
    assert_eq!(s.cached, 0);
    let (s, a) = poll_step(s, PollAnswer::QueueWasEmpty { floating: true }, 0, None, &budget);
    assert_eq!(a, PollAction::Wait);
    let (s, a) = poll_step(s, PollAnswer::Waited(WaitOutcome::TimedOut), 0, None, &budget);
    assert_eq!(a, PollAction::CheckQueue);
    assert!(s.force_clean_cache);
    let (s, a) = poll_step(s, PollAnswer::QueueChecked { drained: false }, 0, None, &budget);
    assert_eq!(a, PollAction::RetryMissed);
    let (s, _) = poll_step(s, PollAnswer::MissedRetried(None), 0, None, &budget);
    let (_, a) = poll_step(s, PollAnswer::QueueWasEmpty { floating: true }, 0, None, &budget);
    assert_eq!(a, PollAction::Wait);
}

#[test]
fn a_shutdown_during_the_wait_aborts_the_poll() {
    let budget = BudgetSetting::default();
    let s = poll_start();
    let (s, _) = poll_step(s, PollAnswer::QueueChecked { drained: false }, 0, None, &budget);
    let (s, _) = poll_step(s, PollAnswer::QueueWasEmpty { floating: true }, 0, None, &budget);
    let (_, a) = poll_step(s, PollAnswer::Waited(WaitOutcome::Shutdown), 0, None, &budget);
    assert_eq!(a, PollAction::Finish(PollOutcome::Aborted(AbortCause::Shutdown)));
}

#[test]
fn a_run_under_shutdown_ends_at_once() {
    let (phase, action) = run_step(run_begin(), RunEvent::Started { shutdown: true }, None, false);
    assert_eq!((phase, action), (RunPhase::Done, RunAction::FinishUnchanged));
}

#[test]
fn a_seed_on_cooldown_goes_back_to_the_queue() {
    let interval = Some(CrawlDuration::seconds(60));
    let (phase, action) = run_step(run_begin(), RunEvent::Started { shutdown: false }, interval, true);
    assert_eq!(action, RunAction::RegisterSeed);
    let (phase, action) = run_step(phase, RunEvent::SeedRegistered(false), interval, true);
    assert_eq!(action, RunAction::ConsumeCrawlError);
    let (phase, action) = run_step(phase, RunEvent::ConsumerAnswered(true), interval, true);
    assert_eq!(action, RunAction::LookAtCooldown);
    let looked = RunEvent::CooldownLooked { processed_and_stored: true, since_last_access: Some(CrawlDuration::seconds(30)) };
    let (requeue, action) = run_step(phase, looked, interval, true);
    assert_eq!(action, RunAction::RequeueSeed);
    assert_eq!(run_step(requeue, RunEvent::Requeued(true), interval, true), (RunPhase::Done, RunAction::FinishOk));
    let (failing, action) = run_step(requeue, RunEvent::Requeued(false), interval, true);
    assert_eq!(action, RunAction::ConsumeCrawlError);
    assert_eq!(run_step(failing, RunEvent::ConsumerAnswered(false), interval, true), (RunPhase::Done, RunAction::FinishWithConsumerError));
    let long_ago = RunEvent::CooldownLooked { processed_and_stored: true, since_last_access: Some(CrawlDuration::seconds(90)) };
    assert_eq!(run_step(phase, long_ago, interval, true), (RunPhase::Working, RunAction::WorkQueue));
    let never = RunEvent::CooldownLooked { processed_and_stored: false, since_last_access: Some(CrawlDuration::seconds(1)) };
    assert_eq!(run_step(phase, never, interval, true), (RunPhase::Working, RunAction::WorkQueue));
}

#[test]
fn the_sitemap_is_read_unless_ignored() {
    let (phase, action) = run_step(run_begin(), RunEvent::Started { shutdown: false }, None, false);
    assert_eq!(action, RunAction::RegisterSeed);
    let (phase, action) = run_step(phase, RunEvent::SeedRegistered(true), None, false);
    assert_eq!((phase, action), (RunPhase::ReadingSitemap, RunAction::ReadSitemap));
    assert_eq!(run_step(phase, RunEvent::SitemapRead, None, false), (RunPhase::CheckingCooldown, RunAction::LookAtCooldown));
    assert_eq!(run_step(RunPhase::Registering, RunEvent::SeedRegistered(true), None, true), (RunPhase::CheckingCooldown, RunAction::LookAtCooldown));
}

/// Runs a task on `url` with the given answers after its check, the check answered by the
/// visited set; gives whether it fetched.
fn run_url(url: &str, visited: &mut std::collections::HashSet<String>) -> bool {
    let (phase, _) = task_start();
    let (phase, _) = task_step(phase, TaskEvent::LinkStateRead(None), false, None);
    let allowed = !visited.contains(url);
    let (phase, action) = task_step(phase, TaskEvent::AllowedChecked(allowed), false, None);
    if action != TaskAction::LookUpCrawled {
        return false;
    }
    let (phase, _) = task_step(phase, TaskEvent::CrawledBefore(None), false, None);
    let (phase, action) = task_step(phase, TaskEvent::Reserved(true), false, None);
    assert_eq!(action, TaskAction::Fetch);
    let (phase, _) = task_step(phase, TaskEvent::Fetched(true), false, None);
    let (_, action) = task_step(phase, TaskEvent::Processed { has_links: false }, false, None);
    if action == TaskAction::Store {
        visited.insert(url.to_string());
    }
    true
}

#[test]
fn a_visited_url_is_not_fetched_again_in_a_run() {
    let mut visited = std::collections::HashSet::new();
    assert!(run_url("https://example.com/", &mut visited));
    assert!(run_url("https://example.com/a", &mut visited));
    assert!(!run_url("https://example.com/", &mut visited));
    assert!(!run_url("https://example.com/a", &mut visited));
}
