//! The decisions a crawl worker takes: when to stop polling, which urls to crawl, when to
//! skip a seed or an url that was already crawled, and where to store what was fetched.

use vstd::prelude::*;
use crate::blacklist::Blacklist;
use crate::budget::{BudgetSetting, CrawlDuration};
use crate::url::UrlWithDepth;

verus! {

/// Why a worker stopped.
#[derive(Debug, Clone, Copy, PartialEq, Eq, Structural)]
pub enum ExitState {
    Shutdown,
    NoMoreElements,
}

impl ExitState {
    /// The name of the state.
    pub fn name(&self) -> (r: &'static str)
        ensures
            r@ == match self {
                ExitState::Shutdown => "Shutdown"@,
                ExitState::NoMoreElements => "NoMoreElements"@,
            },
    {
        match self {
            ExitState::Shutdown => "Shutdown",
            ExitState::NoMoreElements => "NoMoreElements",
        }
    }

    /// The state that `name` names, if any.
    pub fn from_name(name: &str) -> (r: Option<ExitState>)
        ensures
            r == if name@ == "Shutdown"@ {
                Some(ExitState::Shutdown)
            } else if name@ == "NoMoreElements"@ {
                Some(ExitState::NoMoreElements)
            } else {
                None::<ExitState>
            },
    {
        let s: String = name.to_owned();
        let shutdown = String::from_str("Shutdown");
        let no_more = String::from_str("NoMoreElements");
        if s == shutdown {
            Some(ExitState::Shutdown)
        } else if s == no_more {
            Some(ExitState::NoMoreElements)
        } else {
            None
        }
    }
}

/// Something that takes the errors of a crawl and decides whether they stop it.
pub trait ErrorConsumer<E> {
    type Error;

    fn consume_init_error(&self, e: E) -> Result<(), Self::Error>;

    fn consume_crawl_error(&self, e: E) -> Result<(), Self::Error>;

    fn consume_poll_error(&self, e: E) -> Result<(), Self::Error>;
}

/// The consumer of all errors of a crawl.
#[derive(Debug)]
pub struct GlobalErrorConsumer;

impl GlobalErrorConsumer {
    pub fn new() -> (r: Self) {
        Self
    }
}

/// How many failed polls a worker bears before it asks whether to stop.
pub const PATIENCE: i32 = 150;

/// Why polling the queue gave no url.
#[derive(Debug, Clone, Copy, PartialEq, Eq, Structural)]
pub enum AbortCause {
    TooManyMisses,
    QueueIsEmpty,
    NoHost,
    Shutdown,
}

/// What polling the queue gave.
#[derive(Debug, Clone, Copy, PartialEq, Eq, Structural)]
pub enum PollEvent {
    /// An url to crawl.
    Found,
    /// No url, for a cause.
    Abort(AbortCause),
    /// Polling failed.
    Failed,
}

/// What a worker does next.
#[derive(Debug, Clone, Copy, PartialEq, Eq, Structural)]
pub enum WorkerAction {
    /// Crawl the url that was found.
    RunTask,
    /// Wait whether all workers stop; stop with this state if they do.
    WaitForCancellation(ExitState),
    /// Let other tasks run, then poll again.
    YieldAndPoll,
    /// Poll again.
    Poll,
    /// Hand the poll error to the error consumer; what it answers decides what follows.
    ConsumePollError,
    /// Hand the error of creating the crawl task to the error consumer.
    ConsumeCrawlError,
    /// End the crawl at once with the error that came, polling nothing more.
    StopWithError,
}

/// What came of the work a worker did after a poll.
#[derive(Debug, Clone, Copy, PartialEq, Eq, Structural)]
pub enum WorkEvent {
    /// The crawl task ran and finished.
    TaskFinished,
    /// The crawl task ran and returned an error.
    TaskFailed,
    /// The crawl task could not be created for the url that was found.
    TaskNotCreated,
    /// The error consumer took the error it was handed.
    ErrorConsumed,
    /// The error consumer answered with an error.
    ConsumerFailed,
}

/// What a worker does after the work that `event` reports.
pub open spec fn worker_after_work(event: WorkEvent) -> WorkerAction {
    match event {
        WorkEvent::TaskFinished | WorkEvent::ErrorConsumed => WorkerAction::Poll,
        WorkEvent::TaskNotCreated => WorkerAction::ConsumeCrawlError,
        WorkEvent::TaskFailed | WorkEvent::ConsumerFailed => WorkerAction::StopWithError,
    }
}

/// One decision of a worker after it ran a task or handed an error to the consumer: an error
/// of the task or of the consumer ends the crawl with that error; otherwise it polls again.
pub fn after_work(event: WorkEvent) -> (r: WorkerAction)
    ensures r == worker_after_work(event),
{
    match event {
        WorkEvent::TaskFinished => WorkerAction::Poll,
        WorkEvent::ErrorConsumed => WorkerAction::Poll,
        WorkEvent::TaskNotCreated => WorkerAction::ConsumeCrawlError,
        WorkEvent::TaskFailed => WorkerAction::StopWithError,
        WorkEvent::ConsumerFailed => WorkerAction::StopWithError,
    }
}

/// An error that a task returns, or that the error consumer answers with, ends the crawl at
/// once; nothing else does.
pub proof fn law_errors_stop_the_worker(event: WorkEvent)
    ensures
        (worker_after_work(event) == WorkerAction::StopWithError)
            <==> (event == WorkEvent::TaskFailed || event == WorkEvent::ConsumerFailed),
{
}

/// The patience and action after `event`, with the patience `patience` before it.
pub open spec fn worker_transition(patience: i32, event: PollEvent) -> (i32, WorkerAction) {
    match event {
        PollEvent::Found => (PATIENCE, WorkerAction::RunTask),
        PollEvent::Failed => (patience, WorkerAction::ConsumePollError),
        PollEvent::Abort(cause) => if patience < 0 {
            (PATIENCE, WorkerAction::WaitForCancellation(ExitState::NoMoreElements))
        } else {
            match cause {
                AbortCause::TooManyMisses => ((patience - 2) as i32, WorkerAction::YieldAndPoll),
                AbortCause::QueueIsEmpty => ((patience - 10) as i32, WorkerAction::YieldAndPoll),
                AbortCause::NoHost => (patience, WorkerAction::YieldAndPoll),
                AbortCause::Shutdown => (patience, WorkerAction::Poll),
            }
        },
    }
}

/// The patience a worker can have.
pub open spec fn patience_in_range(patience: i32) -> bool {
    -10 <= patience <= PATIENCE
}

/// One decision of a worker after it polled the queue.
pub fn worker_step(patience: i32, event: PollEvent) -> (r: (i32, WorkerAction))
    requires patience_in_range(patience),
    ensures
        r == worker_transition(patience, event),
        patience_in_range(r.0),
{
    match event {
        PollEvent::Found => (PATIENCE, WorkerAction::RunTask),
        PollEvent::Failed => (patience, WorkerAction::ConsumePollError),
        PollEvent::Abort(cause) => {
            if patience < 0 {
                (PATIENCE, WorkerAction::WaitForCancellation(ExitState::NoMoreElements))
            } else {
                match cause {
                    AbortCause::TooManyMisses => (patience - 2, WorkerAction::YieldAndPoll),
                    AbortCause::QueueIsEmpty => (patience - 10, WorkerAction::YieldAndPoll),
                    AbortCause::NoHost => (patience, WorkerAction::YieldAndPoll),
                    AbortCause::Shutdown => (patience, WorkerAction::Poll),
                }
            }
        }
    }
}

/// The action a worker takes first in every round: asking whether to stop on a shutdown or
/// a cancellation, polling otherwise.
pub fn round_start(shutdown: bool, cancelled: bool) -> (r: Option<WorkerAction>)
    ensures
        r == if shutdown || cancelled {
            Some(WorkerAction::WaitForCancellation(ExitState::Shutdown))
        } else {
            None::<WorkerAction>
        },
{
    if shutdown || cancelled {
        Some(WorkerAction::WaitForCancellation(ExitState::Shutdown))
    } else {
        None
    }
}

/// The number of polls on an empty queue until a worker with the patience `p` asks whether to stop.
pub open spec fn empty_polls_until_wait(p: int) -> nat
    decreases p + 11,
{
    if p < 0 { 1 } else { 1 + empty_polls_until_wait(p - 10) }
}

/// Whatever the worker has seen, its patience stays between -10 and the full patience.
pub proof fn law_patience_stays_in_range(patience: i32, event: PollEvent)
    requires patience_in_range(patience),
    ensures patience_in_range(worker_transition(patience, event).0),
{
}

/// An url resets the patience; a failed poll leaves it unchanged.
pub proof fn law_found_url_resets_patience(patience: i32)
    ensures
        worker_transition(patience, PollEvent::Found).0 == PATIENCE,
        worker_transition(patience, PollEvent::Failed).0 == patience,
{
}

/// Each poll on an empty queue costs a worker that still has patience ten of it, and the
/// worker asks whether to stop as soon as its patience is below zero.
pub proof fn law_empty_poll_step(patience: i32)
    requires patience_in_range(patience),
    ensures
        patience >= 0 ==> worker_transition(patience, PollEvent::Abort(AbortCause::QueueIsEmpty))
            == ((patience - 10) as i32, WorkerAction::YieldAndPoll),
        patience < 0 ==> worker_transition(patience, PollEvent::Abort(AbortCause::QueueIsEmpty)).1
            == WorkerAction::WaitForCancellation(ExitState::NoMoreElements),
{
}

/// On an empty queue a worker with full patience asks whether to stop at the 17th poll.
pub proof fn law_empty_queue_stops_worker()
    ensures empty_polls_until_wait(PATIENCE as int) == 17,
{
    lemma_polls_count(PATIENCE as int);
}

/// On an empty queue a worker asks whether to stop within 17 polls, whatever its patience.
pub proof fn law_empty_queue_bound(p: int)
    requires -10 <= p <= PATIENCE,
    ensures empty_polls_until_wait(p) <= 17,
{
    lemma_polls_count(p);
}

/// The closed form of the number of polls on an empty queue.
proof fn lemma_polls_count(p: int)
    requires p >= -10,
    ensures empty_polls_until_wait(p) == if p < 0 { 1 } else { 2 + p / 10 },
    decreases p + 11,
{
    if p >= 0 {
        lemma_polls_count(p - 10);
    }
}

/// Why an url is not crawled.
#[derive(Debug, Clone, Copy, PartialEq, Eq, Structural)]
pub enum NotAllowedReasoning {
    IsAlreadyVisited,
    BlacklistHasMatch,
    RobotSaysNo,
    IsNotInBudget,
}

/// Checks urls against the budget of a seed, the blacklist and what robots.txt says.
#[derive(Debug)]
pub struct UrlChecker {
    pub budget: BudgetSetting,
}

/// The reasons against an url, in order.
pub open spec fn reasons_against(visited: bool, blacklisted: bool, robots_allow: bool, in_budget: bool) -> Seq<NotAllowedReasoning> {
    (if visited { seq![NotAllowedReasoning::IsAlreadyVisited] } else { Seq::empty() })
        + (if blacklisted { seq![NotAllowedReasoning::BlacklistHasMatch] } else { Seq::empty() })
        + (if !robots_allow { seq![NotAllowedReasoning::RobotSaysNo] } else { Seq::empty() })
        + (if !in_budget { seq![NotAllowedReasoning::IsNotInBudget] } else { Seq::empty() })
}

impl UrlChecker {
    pub fn new(budget: BudgetSetting) -> (r: Self)
        ensures r.budget == budget,
    {
        Self { budget }
    }

    /// True iff the url was not visited yet, the blacklist has no match for it, robots.txt
    /// allows it (`robots_allow`, asked only for such urls) and it is in the budget.
    pub fn check_if_allowed<B: Blacklist>(&self, visited: bool, blacklist: &B, robots_allow: bool, url: &UrlWithDepth) -> (r: bool)
        ensures
            r == (!visited && !blacklist.matches(url.url@) && robots_allow && self.budget.admits(url.depth)),
    {
        !visited && !blacklist.has_match_for(url.as_str()) && robots_allow && self.budget.is_in_budget(url)
    }

    /// The reasons why an url is not allowed, in the order visited, blacklist, robots, budget.
    pub fn reasons(&self, visited: bool, blacklisted: bool, robots_allow: bool, url: &UrlWithDepth) -> (r: Vec<NotAllowedReasoning>)
        ensures r@ == reasons_against(visited, blacklisted, robots_allow, self.budget.admits(url.depth)),
    {
        let mut reasons: Vec<NotAllowedReasoning> = Vec::new();
        if visited {
            reasons.push(NotAllowedReasoning::IsAlreadyVisited);
        }
        if blacklisted {
            reasons.push(NotAllowedReasoning::BlacklistHasMatch);
        }
        if !robots_allow {
            reasons.push(NotAllowedReasoning::RobotSaysNo);
        }
        if !self.budget.is_in_budget(url) {
            reasons.push(NotAllowedReasoning::IsNotInBudget);
        }
        assert(reasons@ =~= reasons_against(visited, blacklisted, robots_allow, self.budget.admits(url.depth)));
        reasons
    }

    /// True iff the budget recrawls.
    pub fn has_recrawl(&self) -> (r: bool)
        ensures r == (self.budget.interval() is Some),
    {
        self.budget.get_recrawl_interval().is_some()
    }
}

/// An url is allowed exactly when there is no reason against it.
pub proof fn law_allowed_iff_no_reason(visited: bool, blacklisted: bool, robots_allow: bool, in_budget: bool)
    ensures
        (!visited && !blacklisted && robots_allow && in_budget)
            <==> reasons_against(visited, blacklisted, robots_allow, in_budget).len() == 0,
{
}

/// The state of an url in the crawl.
#[derive(Debug, Clone, Copy, PartialEq, Eq, Structural)]
pub enum LinkStateKind {
    Discovered,
    ReservedForCrawl,
    Crawled,
    ProcessedAndStored,
    InternalError,
    Unset,
    Unknown(u8),
}

impl LinkStateKind {
    pub fn is_processed_and_stored(&self) -> (r: bool)
        ensures r == (*self == LinkStateKind::ProcessedAndStored),
    {
        match self {
            LinkStateKind::ProcessedAndStored => true,
            _ => false,
        }
    }
}

/// True iff an entry of the queue is dropped because of the state of its url: a discovered
/// url stays, a processed one stays only where its budget recrawls, all others are dropped.
pub fn drop_from_queue(state: LinkStateKind, budget: &BudgetSetting) -> (r: bool)
    ensures
        r == match state {
            LinkStateKind::Discovered => false,
            LinkStateKind::ProcessedAndStored => budget.interval() is None,
            _ => true,
        },
{
    match state {
        LinkStateKind::Discovered => false,
        LinkStateKind::ProcessedAndStored => budget.get_recrawl_interval().is_none(),
        _ => true,
    }
}

/// True iff an entry that was taken from the queue `age` times is dropped; 0 means never.
pub fn too_old(max_age: u32, age: u32) -> (r: bool)
    ensures r == (max_age != 0 && age > max_age),
{
    max_age != 0 && age > max_age
}

/// True iff the poll gives up after `missed` urls whose host was occupied.
pub fn too_many_misses(missed: u64, max_miss: Option<u64>) -> (r: bool)
    ensures
        r == match max_miss {
            Some(m) => missed > m,
            None => false,
        },
{
    match max_miss {
        Some(m) => missed > m,
        None => false,
    }
}

/// The number of missed urls kept before the poll retries them.
pub const MISSED_KEEPER_CACHE: usize = 32;

/// True iff the missed urls are retried now: when the cache is full or a retry is forced.
pub fn retry_missed(cached: usize, force: bool) -> (r: bool)
    ensures r == (cached == 32 || force),
{
    cached == MISSED_KEEPER_CACHE || force
}

/// True iff the seed is on cooldown and is queued again instead of being crawled: its budget
/// recrawls, it was processed and stored, and its host was accessed no longer ago than the
/// recrawl interval.
pub fn seed_on_cooldown(recrawl_interval: Option<&CrawlDuration>, processed_and_stored: bool, since_last_access: Option<CrawlDuration>) -> (r: bool)
    requires
        recrawl_interval matches Some(i) ==> i.is_normalized(),
        since_last_access matches Some(s) ==> s.is_normalized(),
    ensures
        r == (recrawl_interval is Some && processed_and_stored && since_last_access is Some
            && since_last_access.unwrap().total_nanos() <= recrawl_interval.unwrap().total_nanos()),
{
    match recrawl_interval {
        Some(interval) => {
            if processed_and_stored {
                match since_last_access {
                    Some(since) => since.is_at_most(interval),
                    None => false,
                }
            } else {
                false
            }
        }
        None => false,
    }
}

/// What happens to an url that was crawled before.
#[derive(Debug, Clone, Copy, PartialEq, Eq, Structural)]
pub enum CrawledBefore {
    /// It is skipped.
    Skip,
    /// It is reserved and crawled again.
    CrawlAgain,
}

/// The decision for an url that was crawled `since_crawled` ago: without a recrawl interval it
/// is skipped; with one it is skipped once the interval has passed, and crawled again before.
pub fn crawled_before(recrawl_interval: Option<&CrawlDuration>, since_crawled: CrawlDuration) -> (r: CrawledBefore)
    requires
        recrawl_interval matches Some(i) ==> i.is_normalized(),
        since_crawled.is_normalized(),
    ensures
        r == match recrawl_interval {
            None => CrawledBefore::Skip,
            Some(i) => if i.total_nanos() <= since_crawled.total_nanos() {
                CrawledBefore::Skip
            } else {
                CrawledBefore::CrawlAgain
            },
        },
{
    match recrawl_interval {
        None => CrawledBefore::Skip,
        Some(interval) => {
            if interval.is_at_most(&since_crawled) {
                CrawledBefore::Skip
            } else {
                CrawledBefore::CrawlAgain
            }
        }
    }
}

/// Where the data of a crawled page goes.
#[derive(Debug, Clone, Copy, PartialEq, Eq, Structural)]
pub enum StoragePlan {
    /// There is no data.
    NoData,
    /// The data is written into the warc file.
    Warc,
    /// The data stays in its file; the warc file gets a record of it too.
    ExternalAndWarc,
    /// The data stays in its file.
    External,
}

/// Where the data of a crawled page goes: data in memory into the warc file, data in a file
/// stays there (recorded in the warc file too where configured), no data nowhere.
pub fn storage_plan(content: &crate::data::RawData, store_big_file_hints_in_warc: bool) -> (r: StoragePlan)
    ensures
        r == match content {
            crate::data::RawData::NoData => StoragePlan::NoData,
            crate::data::RawData::InMemory { .. } => StoragePlan::Warc,
            crate::data::RawData::ExternalFile { .. } => if store_big_file_hints_in_warc {
                StoragePlan::ExternalAndWarc
            } else {
                StoragePlan::External
            },
        },
{
    match content {
        crate::data::RawData::NoData => StoragePlan::NoData,
        crate::data::RawData::InMemory { .. } => StoragePlan::Warc,
        crate::data::RawData::ExternalFile { .. } => {
            if store_big_file_hints_in_warc {
                StoragePlan::ExternalAndWarc
            } else {
                StoragePlan::External
            }
        }
    }
}

/// True iff the data of a page that is not html is moved out of memory into a file before it
/// is stored: where only html goes into the warc file and the data is in memory.
pub fn move_out_of_memory(store_only_html_in_warc: bool, is_html: bool, content: &crate::data::RawData) -> (r: bool)
    ensures r == (store_only_html_in_warc && !is_html && content is InMemory),
{
    store_only_html_in_warc && !is_html && match content {
        crate::data::RawData::InMemory { .. } => true,
        _ => false,
    }
}

/// After the workers of a round stopped: true iff the crawl looks for urls to recrawl, which
/// it does unless a worker stopped for a shutdown or a shutdown was requested.
pub fn look_for_recrawls(exit_states: &Vec<ExitState>, shutdown_requested: bool) -> (r: bool)
    ensures
        r == (!shutdown_requested && forall|i: int| 0 <= i < exit_states@.len()
            ==> exit_states@[i] != ExitState::Shutdown),
{
    let mut is_stop = false;
    let mut i: usize = 0;
    while i < exit_states.len()
        invariant
            i <= exit_states.len(),
            is_stop == exists|j: int| 0 <= j < i && exit_states@[j] == ExitState::Shutdown,
        decreases exit_states.len() - i,
    {
        is_stop = is_stop || match exit_states[i] {
            ExitState::Shutdown => true,
            ExitState::NoMoreElements => false,
        };
        i = i + 1;
    }
    !(is_stop || shutdown_requested)
}

/// Where a worker thread of a crawl over several threads stands.
#[derive(Debug, Clone, Copy, PartialEq, Eq, Structural)]
pub enum ThreadPhase {
    /// Looking whether a shutdown was requested and whether the queue can be polled.
    Deciding,
    /// Crawling.
    Crawling,
    /// Waiting whether all workers stop.
    Waiting,
    /// Stopped with a state.
    Stopped(ExitState),
}

/// The answer to the last action of a worker thread.
#[derive(Debug, Clone, Copy, PartialEq, Eq, Structural)]
pub enum ThreadEvent {
    /// Whether a shutdown was requested, and whether the queue can be polled.
    Observed { shutdown: bool, can_poll: bool },
    /// The crawl ended with a state, or with errors.
    CrawlEnded(Option<ExitState>),
    /// The wait ended with a state to stop with, or with the word to go on.
    WaitEnded(Option<ExitState>),
}

/// What a worker thread does next.
#[derive(Debug, Clone, Copy, PartialEq, Eq, Structural)]
pub enum ThreadAction {
    /// Look whether a shutdown was requested and whether the queue can be polled.
    Observe,
    /// Crawl.
    Crawl,
    /// Wait whether all workers stop, or for a shutdown.
    WaitForStop,
    /// Stop with the state, and cancel the barrier.
    Stop(ExitState),
}

/// True iff `event` answers the action that a thread in `phase` took.
pub open spec fn thread_answers(phase: ThreadPhase, event: ThreadEvent) -> bool {
    match phase {
        ThreadPhase::Deciding => event is Observed,
        ThreadPhase::Crawling => event is CrawlEnded,
        ThreadPhase::Waiting => event is WaitEnded,
        ThreadPhase::Stopped(_) => false,
    }
}

/// The phase and action of a worker thread in `phase` after `event`.
pub open spec fn thread_transition(phase: ThreadPhase, event: ThreadEvent) -> (ThreadPhase, ThreadAction) {
    match (phase, event) {
        (ThreadPhase::Deciding, ThreadEvent::Observed { shutdown, can_poll }) => if shutdown {
            (ThreadPhase::Stopped(ExitState::Shutdown), ThreadAction::Stop(ExitState::Shutdown))
        } else if can_poll {
            (ThreadPhase::Crawling, ThreadAction::Crawl)
        } else {
            (ThreadPhase::Waiting, ThreadAction::WaitForStop)
        },
        (ThreadPhase::Crawling, ThreadEvent::CrawlEnded(Some(state))) =>
            (ThreadPhase::Stopped(state), ThreadAction::Stop(state)),
        (ThreadPhase::Waiting, ThreadEvent::WaitEnded(Some(state))) =>
            (ThreadPhase::Stopped(state), ThreadAction::Stop(state)),
        _ => (ThreadPhase::Deciding, ThreadAction::Observe),
    }
}

/// One decision of a worker thread: its phase and action after `event`.
pub fn thread_step(phase: ThreadPhase, event: ThreadEvent) -> (r: (ThreadPhase, ThreadAction))
    requires thread_answers(phase, event),
    ensures r == thread_transition(phase, event),
{
    match event {
        ThreadEvent::Observed { shutdown, can_poll } => {
            if shutdown {
                (ThreadPhase::Stopped(ExitState::Shutdown), ThreadAction::Stop(ExitState::Shutdown))
            } else if can_poll {
                (ThreadPhase::Crawling, ThreadAction::Crawl)
            } else {
                (ThreadPhase::Waiting, ThreadAction::WaitForStop)
            }
        },
        ThreadEvent::CrawlEnded(Some(state)) => (ThreadPhase::Stopped(state), ThreadAction::Stop(state)),
        ThreadEvent::WaitEnded(Some(state)) => (ThreadPhase::Stopped(state), ThreadAction::Stop(state)),
        _ => (ThreadPhase::Deciding, ThreadAction::Observe),
    }
}

/// True iff `event` gives a worker thread a reason to stop: a shutdown, or a state.
pub open spec fn stop_reason(event: ThreadEvent) -> bool {
    match event {
        ThreadEvent::Observed { shutdown, .. } => shutdown,
        ThreadEvent::CrawlEnded(state) => state is Some,
        ThreadEvent::WaitEnded(state) => state is Some,
    }
}

/// A worker thread stops exactly when it sees a shutdown, or when its crawl or its wait gave
/// a state; it then stops with that state, and with `Shutdown` for a shutdown.
pub proof fn law_thread_stops_with_what_it_got(phase: ThreadPhase, event: ThreadEvent)
    requires thread_answers(phase, event),
    ensures
        ({
            let (next, action) = thread_transition(phase, event);
            &&& (next is Stopped) <==> (action is Stop)
            &&& event matches ThreadEvent::Observed { shutdown, .. } ==> (shutdown
                    ==> action == ThreadAction::Stop(ExitState::Shutdown))
            &&& event matches ThreadEvent::CrawlEnded(Some(s)) ==> action == ThreadAction::Stop(s)
            &&& event matches ThreadEvent::WaitEnded(Some(s)) ==> action == ThreadAction::Stop(s)
            &&& action is Stop ==> stop_reason(event)
        }),
{
}

/// What becomes of a link from a page to another site.
#[derive(Debug, Clone, Copy, PartialEq, Eq, Structural)]
pub struct OutgoingLinkPlan {
    /// Whether the link state `Discovered` is written for it.
    pub mark_discovered: bool,
    /// Whether it is put into the queue.
    pub enqueue: bool,
    /// Whether it is marked as recrawled, where the budget of its host is known.
    pub recrawl: Option<bool>,
}

/// The plan for a link to another site: a link with a link state is left alone; any other
/// is marked as discovered, and queued where it has a host whose budget admits it.
/// `host_budget` is the budget of the link's host, `None` where the link has no host.
pub fn plan_outgoing_link(known: bool, host_budget: Option<&BudgetSetting>, url: &UrlWithDepth) -> (r: OutgoingLinkPlan)
    ensures
        r == outgoing_plan(known, match host_budget { Some(b) => Some(*b), None => None }, *url),
        r.mark_discovered == !known,
        r.enqueue == (!known && (host_budget matches Some(b) && b.admits(url.depth))),
        r.recrawl == if known {
            None::<bool>
        } else {
            match host_budget {
                Some(b) => Some(b.interval() is Some),
                None => None,
            }
        },
{
    if known {
        return OutgoingLinkPlan { mark_discovered: false, enqueue: false, recrawl: None };
    }
    match host_budget {
        Some(budget) => OutgoingLinkPlan {
            mark_discovered: true,
            enqueue: budget.is_in_budget(url),
            recrawl: Some(budget.get_recrawl_interval().is_some()),
        },
        None => OutgoingLinkPlan { mark_discovered: true, enqueue: false, recrawl: None },
    }
}

/// The plan for a link to another site with the link state known as `known`, the budget
/// `host_budget` of its host, and the url `url`.
pub open spec fn outgoing_plan(known: bool, host_budget: Option<BudgetSetting>, url: UrlWithDepth) -> OutgoingLinkPlan {
    OutgoingLinkPlan {
        mark_discovered: !known,
        enqueue: !known && (host_budget matches Some(b) && b.admits(url.depth)),
        recrawl: if known {
            None
        } else {
            match host_budget {
                Some(b) => Some(b.interval() is Some),
                None => None,
            }
        },
    }
}

/// The kind of a link found on a page.
#[derive(Debug, Clone, Copy, PartialEq, Eq, Structural)]
pub enum LinkKind {
    /// A link to the site of the seed.
    OnSeed,
    /// A link to another site.
    Outgoing,
    /// A data url.
    Data,
}

/// A link found on a page: its kind and its url.
#[derive(Debug)]
pub struct ExtractedLink {
    pub kind: LinkKind,
    pub url: UrlWithDepth,
}

/// What becomes of the links of a page.
#[derive(Debug)]
pub struct HandledLinks {
    /// The positions of the links to the site of the seed, in order: their urls go on in the
    /// task's own queue.
    pub on_seed: Vec<usize>,
    /// For each link, the plan where it leads to another site; nothing for the others.
    pub plans: Vec<Option<OutgoingLinkPlan>>,
    /// The number of links put into the url queue.
    pub enqueued: usize,
}

/// The positions `from` and after, in order, of the links of `links` to the site of the seed.
pub open spec fn on_seed_positions(links: Seq<ExtractedLink>, from: int) -> Seq<usize>
    decreases links.len() - from,
{
    if from >= links.len() || from < 0 {
        Seq::empty()
    } else if links[from].kind == LinkKind::OnSeed {
        seq![from as usize] + on_seed_positions(links, from + 1)
    } else {
        on_seed_positions(links, from + 1)
    }
}

/// The number of plans among the first `n` of `plans` that put their link into the queue.
pub open spec fn enqueued_count(plans: Seq<Option<OutgoingLinkPlan>>, n: int) -> nat
    decreases n,
{
    if n <= 0 {
        0
    } else {
        enqueued_count(plans, n - 1) + if plans[n - 1] matches Some(p) && p.enqueue { 1nat } else { 0nat }
    }
}

/// The number of websites a page adds to what the crawl has discovered: its links to the
/// seed's site and the links to other sites that were queued.
pub open spec fn newly_discovered(handled: HandledLinks) -> nat {
    handled.on_seed@.len() + handled.enqueued as nat
}

/// What becomes of the links of a page: those to the seed's site go on in the task's own
/// queue; each link to another site is planned by [`plan_outgoing_link`], with whether it has a
/// link state in `known` and the budget of its host in `host_budgets`; data urls change
/// nothing.
pub fn handle_links(links: &Vec<ExtractedLink>, known: &Vec<bool>, host_budgets: &Vec<Option<BudgetSetting>>) -> (r: HandledLinks)
    requires
        known@.len() == links@.len(),
        host_budgets@.len() == links@.len(),
    ensures
        r.on_seed@ == on_seed_positions(links@, 0),
        r.plans@.len() == links@.len(),
        forall|i: int| 0 <= i < links@.len() ==> #[trigger] r.plans@[i] == if links@[i].kind == LinkKind::Outgoing {
            Some(outgoing_plan(known@[i], host_budgets@[i], links@[i].url))
        } else {
            None
        },
        r.enqueued == enqueued_count(r.plans@, links@.len() as int),
{
    let mut plans: Vec<Option<OutgoingLinkPlan>> = Vec::new();
    let mut enqueued: usize = 0;
    let mut i: usize = 0;
    while i < links.len()
        invariant
            i <= links@.len(),
            known@.len() == links@.len(),
            host_budgets@.len() == links@.len(),
            plans@.len() == i,
            forall|j: int| 0 <= j < i ==> #[trigger] plans@[j] == if links@[j].kind == LinkKind::Outgoing {
                Some(outgoing_plan(known@[j], host_budgets@[j], links@[j].url))
            } else {
                None
            },
            enqueued == enqueued_count(plans@, i as int),
            enqueued <= i,
        decreases links.len() - i,
    {
        let plan = match links[i].kind {
            LinkKind::Outgoing => Some(plan_outgoing_link(known[i], host_budgets[i].as_ref(), &links[i].url)),
            _ => None,
        };
        let counts = match plan {
            Some(p) => p.enqueue,
            None => false,
        };
        let ghost before = plans@;
        plans.push(plan);
        proof {
            assert(plans@.take(i as int) =~= before);
            lemma_enqueued_count_prefix(plans@, i as int);
        }
        if counts {
            enqueued = enqueued + 1;
        }
        i = i + 1;
    }
    let mut on_seed: Vec<usize> = Vec::new();
    let mut k: usize = links.len();
    while k > 0
        invariant
            k <= links@.len(),
            on_seed@ == on_seed_positions(links@, k as int),
        decreases k,
    {
        k = k - 1;
        if links[k].kind == LinkKind::OnSeed {
            let mut front: Vec<usize> = Vec::new();
            front.push(k);
            front.append(&mut on_seed);
            on_seed = front;
        }
    }
    HandledLinks { on_seed, plans, enqueued }
}

/// The count over a prefix does not depend on what comes after it.
proof fn lemma_enqueued_count_prefix(plans: Seq<Option<OutgoingLinkPlan>>, n: int)
    requires 0 <= n < plans.len(),
    ensures
        enqueued_count(plans, n + 1) == enqueued_count(plans.take(n), n)
            + if plans[n] matches Some(p) && p.enqueue { 1nat } else { 0nat },
{
    lemma_enqueued_count_same(plans, plans.take(n), n);
}

/// Two sequences that agree on their first `n` plans count alike there.
proof fn lemma_enqueued_count_same(a: Seq<Option<OutgoingLinkPlan>>, b: Seq<Option<OutgoingLinkPlan>>, n: int)
    requires
        0 <= n <= a.len(),
        n <= b.len(),
        forall|j: int| 0 <= j < n ==> a[j] == b[j],
    ensures enqueued_count(a, n) == enqueued_count(b, n),
    decreases n,
{
    if n > 0 {
        lemma_enqueued_count_same(a, b, n - 1);
    }
}

/// The links to the seed's site all go on, a data url changes nothing, and the discovered
/// websites grow by the links to the seed's site and the queued links to other sites.
pub proof fn law_links_are_handled_by_kind(links: Seq<ExtractedLink>, handled: HandledLinks)
    requires
        links.len() <= usize::MAX,
        handled.on_seed@ == on_seed_positions(links, 0),
        handled.plans@.len() == links.len(),
        forall|i: int| 0 <= i < links.len() ==> (#[trigger] handled.plans@[i] is None <==> links[i].kind != LinkKind::Outgoing),
        handled.enqueued == enqueued_count(handled.plans@, links.len() as int),
    ensures
        forall|i: int| 0 <= i < links.len() && links[i].kind == LinkKind::Data ==> #[trigger] handled.plans@[i] is None,
        newly_discovered(handled) == on_seed_positions(links, 0).len() + enqueued_count(handled.plans@, links.len() as int),
        forall|j: int| 0 <= j < handled.on_seed@.len()
            ==> links[#[trigger] handled.on_seed@[j] as int].kind == LinkKind::OnSeed,
{
    lemma_on_seed_positions(links, 0);
}

/// The positions are those of links to the seed's site, from `from` on.
proof fn lemma_on_seed_positions(links: Seq<ExtractedLink>, from: int)
    requires 0 <= from, links.len() <= usize::MAX,
    ensures
        forall|j: int| 0 <= j < on_seed_positions(links, from).len() ==> {
            let p = #[trigger] on_seed_positions(links, from)[j] as int;
            from <= p < links.len() && links[p].kind == LinkKind::OnSeed
        },
    decreases links.len() - from,
{
    if from < links.len() {
        lemma_on_seed_positions(links, from + 1);
        let rest = on_seed_positions(links, from + 1);
        if links[from].kind == LinkKind::OnSeed {
            assert forall|j: int| 0 <= j < on_seed_positions(links, from).len() implies {
                let p = #[trigger] on_seed_positions(links, from)[j] as int;
                from <= p < links.len() && links[p].kind == LinkKind::OnSeed
            } by {
                if j > 0 {
                    assert(on_seed_positions(links, from)[j] == rest[j - 1]);
                }
            }
        }
    }
}

} // verus!
