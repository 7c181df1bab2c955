use atra::crawl::{after_work, handle_links, ExtractedLink, LinkKind, WorkEvent};
use atra::budget::{BudgetSetting, CrawlDuration};
use atra::blacklist::{EmptyBlackList, RegexBlackList};
use atra::crawl::{
    crawled_before, drop_from_queue, look_for_recrawls, move_out_of_memory, plan_outgoing_link,
    retry_missed, round_start, seed_on_cooldown, storage_plan, thread_step, too_many_misses,
    too_old, worker_step, AbortCause, CrawledBefore, ExitState, GlobalErrorConsumer,
    LinkStateKind, NotAllowedReasoning, PollEvent, StoragePlan, ThreadAction, ThreadEvent,
    ThreadPhase, UrlChecker, WorkerAction, MISSED_KEEPER_CACHE, PATIENCE,
};
use atra::data::RawData;
use atra::depth::DepthDescriptor;
use atra::url::UrlWithDepth;

fn url(d: u64) -> UrlWithDepth {
    UrlWithDepth::new("https://www.ebay.de/x".to_string(), DepthDescriptor::new(d, 0, d))
}

#[test]
fn exit_states_have_names() {
    assert_eq!(ExitState::Shutdown.name(), "Shutdown");
    assert_eq!(ExitState::NoMoreElements.name(), "NoMoreElements");
    assert_eq!(ExitState::from_name("Shutdown"), Some(ExitState::Shutdown));
    assert_eq!(ExitState::from_name("NoMoreElements"), Some(ExitState::NoMoreElements));
    assert_eq!(ExitState::from_name("shutdown"), None);
}

#[test]
fn a_found_url_resets_the_patience() {
    assert_eq!(worker_step(3, PollEvent::Found), (PATIENCE, WorkerAction::RunTask));
    assert_eq!(worker_step(-5, PollEvent::Failed), (-5, WorkerAction::ConsumePollError));
}

#[test]
fn an_empty_queue_stops_a_worker_at_the_seventeenth_poll() {
    let mut patience = PATIENCE;
    let mut polls = 0;
    loop {
        polls += 1;
        let (next, action) = worker_step(patience, PollEvent::Abort(AbortCause::QueueIsEmpty));
        patience = next;
        if action == WorkerAction::WaitForCancellation(ExitState::NoMoreElements) {
            break;
        }
        assert_eq!(action, WorkerAction::YieldAndPoll);
    }
    assert_eq!(polls, 17);
    assert_eq!(patience, PATIENCE);
}

#[test]
fn misses_cost_less_patience_than_an_empty_queue() {
    assert_eq!(worker_step(10, PollEvent::Abort(AbortCause::TooManyMisses)), (8, WorkerAction::YieldAndPoll));
    assert_eq!(worker_step(10, PollEvent::Abort(AbortCause::NoHost)), (10, WorkerAction::YieldAndPoll));
    assert_eq!(worker_step(10, PollEvent::Abort(AbortCause::Shutdown)), (10, WorkerAction::Poll));
}

#[test]
fn a_round_starts_by_asking_about_shutdown() {
    assert_eq!(round_start(true, false), Some(WorkerAction::WaitForCancellation(ExitState::Shutdown)));
    assert_eq!(round_start(false, true), Some(WorkerAction::WaitForCancellation(ExitState::Shutdown)));
    assert_eq!(round_start(false, false), None);
    let _consumer = GlobalErrorConsumer::new();
}

#[test]
fn urls_are_checked_against_visits_blacklist_robots_and_budget() {
    let checker = UrlChecker::new(BudgetSetting::SeedOnly { depth_on_website: 3, recrawl_interval: None, request_timeout: None });
    let empty = EmptyBlackList::default();
    assert!(checker.check_if_allowed(false, &empty, true, &url(1)));
    assert!(!checker.check_if_allowed(true, &empty, true, &url(1)));
    assert!(!checker.check_if_allowed(false, &empty, false, &url(1)));
    assert!(!checker.check_if_allowed(false, &empty, true, &url(3)));
    let ebay = RegexBlackList::from_str("ebay").unwrap();
    assert!(!checker.check_if_allowed(false, &ebay, true, &url(1)));
    assert_eq!(
        checker.reasons(true, true, false, &url(3)),
        vec![
            NotAllowedReasoning::IsAlreadyVisited,
            NotAllowedReasoning::BlacklistHasMatch,
            NotAllowedReasoning::RobotSaysNo,
            NotAllowedReasoning::IsNotInBudget,
        ]
    );
    assert!(checker.reasons(false, false, true, &url(1)).is_empty());
    assert!(!checker.has_recrawl());
    let recrawling = UrlChecker::new(BudgetSetting::Absolute { depth: 0, recrawl_interval: Some(CrawlDuration::seconds(5)), request_timeout: None });
    assert!(recrawling.has_recrawl());
}

#[test]
fn queue_entries_are_dropped_by_their_link_state_and_age() {
    let once = BudgetSetting::default();
    let again = BudgetSetting::Absolute { depth: 1, recrawl_interval: Some(CrawlDuration::seconds(60)), request_timeout: None };
    assert!(!drop_from_queue(LinkStateKind::Discovered, &once));
    assert!(drop_from_queue(LinkStateKind::ProcessedAndStored, &once));
    assert!(!drop_from_queue(LinkStateKind::ProcessedAndStored, &again));
    assert!(drop_from_queue(LinkStateKind::Crawled, &again));
    assert!(drop_from_queue(LinkStateKind::Unknown(9), &again));
    assert!(LinkStateKind::ProcessedAndStored.is_processed_and_stored());
    assert!(!LinkStateKind::Crawled.is_processed_and_stored());
    assert!(!too_old(0, 1000));
    assert!(!too_old(20, 20));
    assert!(too_old(20, 21));
    assert!(!too_many_misses(100, None));
    assert!(too_many_misses(6, Some(5)));
    assert!(!too_many_misses(5, Some(5)));
    assert!(retry_missed(MISSED_KEEPER_CACHE, false));
    assert!(retry_missed(0, true));
    assert!(!retry_missed(31, false));
}

#[test]
fn seeds_on_cooldown_and_crawled_urls() {
    let interval = CrawlDuration::seconds(100);
    assert!(seed_on_cooldown(Some(&interval), true, Some(CrawlDuration::seconds(100))));
    assert!(!seed_on_cooldown(Some(&interval), true, Some(CrawlDuration { seconds: 100, nanoseconds: 1 })));
    assert!(!seed_on_cooldown(Some(&interval), false, Some(CrawlDuration::seconds(1))));
    assert!(!seed_on_cooldown(None, true, Some(CrawlDuration::seconds(1))));
    assert!(!seed_on_cooldown(Some(&interval), true, None));
    assert_eq!(crawled_before(None, CrawlDuration::seconds(1)), CrawledBefore::Skip);
    assert_eq!(crawled_before(Some(&interval), CrawlDuration::seconds(100)), CrawledBefore::Skip);
    assert_eq!(crawled_before(Some(&interval), CrawlDuration::seconds(99)), CrawledBefore::CrawlAgain);
}

#[test]
fn data_is_stored_by_where_it_is() {
    assert_eq!(storage_plan(&RawData::NoData, true), StoragePlan::NoData);
    assert_eq!(storage_plan(&RawData::from_vec(vec![1]), true), StoragePlan::Warc);
    assert_eq!(storage_plan(&RawData::from_external("f".to_string()), true), StoragePlan::ExternalAndWarc);
    assert_eq!(storage_plan(&RawData::from_external("f".to_string()), false), StoragePlan::External);
    assert!(move_out_of_memory(true, false, &RawData::from_vec(vec![1])));
    assert!(!move_out_of_memory(true, true, &RawData::from_vec(vec![1])));
    assert!(!move_out_of_memory(false, false, &RawData::from_vec(vec![1])));
    assert!(!move_out_of_memory(true, false, &RawData::from_external("f".to_string())));
}

#[test]
fn recrawls_are_looked_for_unless_a_worker_or_the_user_stopped() {
    assert!(look_for_recrawls(&vec![ExitState::NoMoreElements, ExitState::NoMoreElements], false));
    assert!(!look_for_recrawls(&vec![ExitState::NoMoreElements, ExitState::Shutdown], false));
    assert!(!look_for_recrawls(&vec![], true));
    assert!(look_for_recrawls(&vec![], false));
}

#[test]
fn worker_threads_stop_with_what_they_got() {
    assert_eq!(
        thread_step(ThreadPhase::Deciding, ThreadEvent::Observed { shutdown: true, can_poll: true }),
        (ThreadPhase::Stopped(ExitState::Shutdown), ThreadAction::Stop(ExitState::Shutdown))
    );
    assert_eq!(
        thread_step(ThreadPhase::Deciding, ThreadEvent::Observed { shutdown: false, can_poll: true }),
        (ThreadPhase::Crawling, ThreadAction::Crawl)
    );
    assert_eq!(
        thread_step(ThreadPhase::Deciding, ThreadEvent::Observed { shutdown: false, can_poll: false }),
        (ThreadPhase::Waiting, ThreadAction::WaitForStop)
    );
    assert_eq!(thread_step(ThreadPhase::Crawling, ThreadEvent::CrawlEnded(None)), (ThreadPhase::Deciding, ThreadAction::Observe));
    assert_eq!(
        thread_step(ThreadPhase::Crawling, ThreadEvent::CrawlEnded(Some(ExitState::NoMoreElements))),
        (ThreadPhase::Stopped(ExitState::NoMoreElements), ThreadAction::Stop(ExitState::NoMoreElements))
    );
    assert_eq!(thread_step(ThreadPhase::Waiting, ThreadEvent::WaitEnded(None)), (ThreadPhase::Deciding, ThreadAction::Observe));
}

#[test]
fn outgoing_links_are_queued_where_their_budget_admits_them() {
    let budget = BudgetSetting::Absolute { depth: 5, recrawl_interval: Some(CrawlDuration::seconds(9)), request_timeout: None };
    let plan = plan_outgoing_link(false, Some(&budget), &url(1));
    assert!(plan.mark_discovered);
    assert!(plan.enqueue);
    assert_eq!(plan.recrawl, Some(true));
    let too_far = plan_outgoing_link(false, Some(&budget), &url(7));
    assert!(too_far.mark_discovered && !too_far.enqueue);
    let no_host = plan_outgoing_link(false, None, &url(1));
    assert!(no_host.mark_discovered && !no_host.enqueue && no_host.recrawl.is_none());
    let known = plan_outgoing_link(true, Some(&budget), &url(1));
    assert!(!known.mark_discovered && !known.enqueue && known.recrawl.is_none());
}

#[test]
fn errors_of_tasks_and_of_the_consumer_end_the_crawl() {
    assert_eq!(after_work(WorkEvent::TaskFinished), WorkerAction::Poll);
    assert_eq!(after_work(WorkEvent::ErrorConsumed), WorkerAction::Poll);
    assert_eq!(after_work(WorkEvent::TaskNotCreated), WorkerAction::ConsumeCrawlError);
    assert_eq!(after_work(WorkEvent::TaskFailed), WorkerAction::StopWithError);
    assert_eq!(after_work(WorkEvent::ConsumerFailed), WorkerAction::StopWithError);
}

fn link(kind: LinkKind, url: &str, depth: u64) -> ExtractedLink {
    ExtractedLink { kind, url: UrlWithDepth::new(url.to_string(), DepthDescriptor::new(1, depth, depth)) }
}

#[test]
fn links_are_handled_by_their_kind() {
    let budget = BudgetSetting::Absolute { depth: 2, recrawl_interval: None, request_timeout: None };
    let links = vec![
        link(LinkKind::OnSeed, "https://www.google.de/1", 0),
        link(LinkKind::Outgoing, "https://www.ebay.de/2", 1),
        link(LinkKind::Data, "data:text/plain,hi", 0),
        link(LinkKind::Outgoing, "https://known.de/", 1),
        link(LinkKind::OnSeed, "https://www.google.de/2", 0),
        link(LinkKind::Outgoing, "https://nohost", 1),
    ];
    let known = vec![false, false, false, true, false, false];
    let budgets = vec![None, Some(budget.clone()), None, Some(budget.clone()), None, None];
    let handled = handle_links(&links, &known, &budgets);
    assert_eq!(handled.on_seed, vec![0, 4]);
    assert_eq!(handled.enqueued, 1);
    assert!(handled.plans[0].is_none() && handled.plans[2].is_none() && handled.plans[4].is_none());
    let ebay = handled.plans[1].unwrap();
    assert!(ebay.mark_discovered && ebay.enqueue && ebay.recrawl == Some(false));
    let known_plan = handled.plans[3].unwrap();
    assert!(!known_plan.mark_discovered && !known_plan.enqueue);
    let no_host = handled.plans[5].unwrap();
    assert!(no_host.mark_discovered && !no_host.enqueue && no_host.recrawl.is_none());
}
