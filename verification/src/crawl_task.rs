//! The course of a crawl task through one url of its queue: what the task does after each
//! answer of the services it asks, and which link state it leaves behind.
//!
//! The task reads the link state it puts the url back to, checks whether the url is allowed,
//! looks whether it was crawled before, reserves it, fetches and processes it, hands its links
//! on, stores it and marks it as stored. The caller performs each action and hands the answer
//! back.

use vstd::prelude::*;
use crate::budget::CrawlDuration;
use crate::crawl::{crawled_before, CrawledBefore, LinkStateKind};

verus! {

/// Where a crawl task stands with the url it works on.
#[derive(Debug, Clone, Copy, PartialEq, Eq, Structural)]
pub enum TargetPhase {
    /// The link state that the url is put back to is being read: that of the task's seed.
    Start,
    /// The link state `old` was read; the url is being checked.
    Loaded { old: Option<LinkStateKind> },
    /// The url is allowed; the task looks whether it was crawled before.
    Checked { old: Option<LinkStateKind> },
    /// The url is being reserved for the crawl.
    Reserving { old: Option<LinkStateKind> },
    /// The url is being fetched.
    Fetching,
    /// The fetched page is being processed.
    Processing,
    /// The links of the page are being handed on.
    HandlingLinks,
    /// The page is being stored.
    Storing,
    /// The task is done with the url and takes the next one.
    Finished,
    /// The task stops.
    Stopped,
}

/// The answer to the last action of a crawl task.
#[derive(Debug, Clone, Copy, PartialEq, Eq, Structural)]
pub enum TaskEvent {
    /// The link state that was read, if there is one.
    LinkStateRead(Option<LinkStateKind>),
    /// Reading the link state failed.
    LinkStateReadFailed,
    /// Whether the url is allowed.
    AllowedChecked(bool),
    /// How long ago the url was crawled, if it was.
    CrawledBefore(Option<CrawlDuration>),
    /// Looking whether the url was crawled failed.
    LookupFailed,
    /// Whether the reservation was written, or its failure was accepted by the error consumer.
    Reserved(bool),
    /// Whether the page was fetched.
    Fetched(bool),
    /// The page was processed; whether links were found.
    Processed { has_links: bool },
    /// Processing the page failed.
    ProcessFailed,
    /// Whether the links were handed on.
    LinksHandled(bool),
    /// Whether the page was stored.
    Stored(bool),
}

/// What a crawl task does next.
#[derive(Debug, Clone, Copy, PartialEq, Eq, Structural)]
pub enum TaskAction {
    /// Read the link state of the task's seed, which the url is put back to where it is left.
    ReadLinkState,
    /// Hand the error to the error consumer and stop with its answer.
    ConsumeErrorAndStop,
    /// Check whether the url is allowed.
    CheckAllowed,
    /// Register the access to the host and look whether the url was crawled before.
    LookUpCrawled,
    /// Write the link state `ReservedForCrawl`, with whether the url is a seed and whether it
    /// is recrawled where `with_meta` holds.
    Reserve { with_meta: bool },
    /// Wait for the host's interval, then fetch the url.
    Fetch,
    /// Write the link state `Crawled`, ignoring a failure, then process the page (moving its
    /// data out of memory where `move_out_of_memory` says so).
    MarkCrawledAndProcess,
    /// Hand the links on and queue those that are allowed, then record the url as visited.
    HandleLinks,
    /// Record the url as visited where no links were found, then store the page.
    Store,
    /// Leave the url without writing its link state.
    Skip,
    /// Write the link state `state`, ignoring a failure; stop the task if `stop` holds.
    Finish { state: LinkStateKind, stop: bool },
    /// Hand the error to the error consumer, ignoring its answer, then write the link state
    /// `state` and stop.
    ReportAndStop { state: LinkStateKind },
}

/// The state a url is put back to: the one it had, or `Discovered` if it had none.
pub open spec fn restored(old: Option<LinkStateKind>) -> LinkStateKind {
    match old {
        Some(kind) => kind,
        None => LinkStateKind::Discovered,
    }
}

/// True iff `event` answers the action that a task in `phase` took.
pub open spec fn answers(phase: TargetPhase, event: TaskEvent) -> bool {
    match phase {
        TargetPhase::Start => event is LinkStateRead || event is LinkStateReadFailed,
        TargetPhase::Loaded { .. } => event is AllowedChecked,
        TargetPhase::Checked { .. } => event is CrawledBefore || event is LookupFailed,
        TargetPhase::Reserving { .. } => event is Reserved,
        TargetPhase::Fetching => event is Fetched,
        TargetPhase::Processing => event is Processed || event is ProcessFailed,
        TargetPhase::HandlingLinks => event is LinksHandled,
        TargetPhase::Storing => event is Stored,
        TargetPhase::Finished => false,
        TargetPhase::Stopped => false,
    }
}

/// The step before the fetch: a shutdown stops the task and puts the url back to `Discovered`.
pub open spec fn before_fetch(shutdown: bool) -> (TargetPhase, TaskAction) {
    if shutdown {
        (TargetPhase::Stopped, TaskAction::Finish { state: LinkStateKind::Discovered, stop: true })
    } else {
        (TargetPhase::Fetching, TaskAction::Fetch)
    }
}

/// The phase and action of a task in `phase` after `event`, where `shutdown` tells whether a
/// shutdown was requested and `recrawl_interval` is the recrawl interval of the seed's budget.
pub open spec fn task_transition(
    phase: TargetPhase,
    event: TaskEvent,
    shutdown: bool,
    recrawl_interval: Option<CrawlDuration>,
) -> (TargetPhase, TaskAction) {
    match (phase, event) {
        (TargetPhase::Start, TaskEvent::LinkStateRead(old)) => if shutdown {
            (TargetPhase::Stopped, TaskAction::Finish { state: restored(old), stop: true })
        } else {
            (TargetPhase::Loaded { old }, TaskAction::CheckAllowed)
        },
        (TargetPhase::Loaded { old }, TaskEvent::AllowedChecked(allowed)) => if allowed {
            (TargetPhase::Checked { old }, TaskAction::LookUpCrawled)
        } else {
            (TargetPhase::Finished, TaskAction::Finish { state: restored(old), stop: false })
        },
        (TargetPhase::Checked { old }, TaskEvent::CrawledBefore(since)) => match since {
            None => (TargetPhase::Reserving { old }, TaskAction::Reserve { with_meta: true }),
            Some(s) => match recrawl_interval {
                None => (TargetPhase::Finished, TaskAction::Skip),
                Some(i) => if i.total_nanos() <= s.total_nanos() {
                    (TargetPhase::Finished, TaskAction::Skip)
                } else {
                    (TargetPhase::Reserving { old }, TaskAction::Reserve { with_meta: false })
                },
            },
        },
        (TargetPhase::Checked { .. }, TaskEvent::LookupFailed) => before_fetch(shutdown),
        (TargetPhase::Reserving { old }, TaskEvent::Reserved(written)) => if written {
            before_fetch(shutdown)
        } else {
            (TargetPhase::Finished, TaskAction::Finish { state: restored(old), stop: false })
        },
        (TargetPhase::Fetching, TaskEvent::Fetched(fetched)) => if fetched {
            (TargetPhase::Processing, TaskAction::MarkCrawledAndProcess)
        } else {
            (TargetPhase::Finished, TaskAction::Finish { state: LinkStateKind::InternalError, stop: false })
        },
        (TargetPhase::Processing, TaskEvent::Processed { has_links }) => if shutdown {
            (TargetPhase::Stopped, TaskAction::Finish { state: LinkStateKind::Discovered, stop: true })
        } else if has_links {
            (TargetPhase::HandlingLinks, TaskAction::HandleLinks)
        } else {
            (TargetPhase::Storing, TaskAction::Store)
        },
        (TargetPhase::HandlingLinks, TaskEvent::LinksHandled(handled)) => if !handled {
            (TargetPhase::Stopped, TaskAction::ReportAndStop { state: LinkStateKind::Discovered })
        } else if shutdown {
            (TargetPhase::Stopped, TaskAction::Finish { state: LinkStateKind::Discovered, stop: true })
        } else {
            (TargetPhase::Storing, TaskAction::Store)
        },
        (TargetPhase::Storing, TaskEvent::Stored(stored)) => if stored {
            (TargetPhase::Finished, TaskAction::Finish { state: LinkStateKind::ProcessedAndStored, stop: false })
        } else {
            (TargetPhase::Stopped, TaskAction::ReportAndStop { state: LinkStateKind::Discovered })
        },
        (TargetPhase::Processing, TaskEvent::ProcessFailed) =>
            (TargetPhase::Finished, TaskAction::Finish { state: LinkStateKind::InternalError, stop: false }),
        _ => (TargetPhase::Stopped, TaskAction::ConsumeErrorAndStop),
    }
}

/// The first action on an url of the queue.
pub fn task_start() -> (r: (TargetPhase, TaskAction))
    ensures r == (TargetPhase::Start, TaskAction::ReadLinkState),
{
    (TargetPhase::Start, TaskAction::ReadLinkState)
}

/// One decision of a crawl task: its phase and action after `event`.
pub fn task_step(
    phase: TargetPhase,
    event: TaskEvent,
    shutdown: bool,
    recrawl_interval: Option<CrawlDuration>,
) -> (r: (TargetPhase, TaskAction))
    requires
        answers(phase, event),
        recrawl_interval matches Some(i) ==> i.is_normalized(),
        event matches TaskEvent::CrawledBefore(Some(s)) ==> s.is_normalized(),
    ensures
        r == task_transition(phase, event, shutdown, recrawl_interval),
{
    let stop_for_shutdown = (TargetPhase::Stopped, TaskAction::Finish { state: LinkStateKind::Discovered, stop: true });
    match phase {
        TargetPhase::Start => match event {
            TaskEvent::LinkStateRead(old) => {
                if shutdown {
                    let state = match old {
                        Some(kind) => kind,
                        None => LinkStateKind::Discovered,
                    };
                    (TargetPhase::Stopped, TaskAction::Finish { state, stop: true })
                } else {
                    (TargetPhase::Loaded { old }, TaskAction::CheckAllowed)
                }
            },
            _ => (TargetPhase::Stopped, TaskAction::ConsumeErrorAndStop),
        },
        TargetPhase::Loaded { old } => {
            let allowed = match event {
                TaskEvent::AllowedChecked(allowed) => allowed,
                _ => false,
            };
            if allowed {
                (TargetPhase::Checked { old }, TaskAction::LookUpCrawled)
            } else {
                let state = match old {
                    Some(kind) => kind,
                    None => LinkStateKind::Discovered,
                };
                (TargetPhase::Finished, TaskAction::Finish { state, stop: false })
            }
        },
        TargetPhase::Checked { old } => match event {
            TaskEvent::CrawledBefore(None) => (TargetPhase::Reserving { old }, TaskAction::Reserve { with_meta: true }),
            TaskEvent::CrawledBefore(Some(since)) => {
                match crawled_before(recrawl_interval.as_ref(), since) {
                    CrawledBefore::Skip => (TargetPhase::Finished, TaskAction::Skip),
                    CrawledBefore::CrawlAgain => (TargetPhase::Reserving { old }, TaskAction::Reserve { with_meta: false }),
                }
            },
            _ => if shutdown { stop_for_shutdown } else { (TargetPhase::Fetching, TaskAction::Fetch) },
        },
        TargetPhase::Reserving { old } => {
            let written = match event {
                TaskEvent::Reserved(written) => written,
                _ => false,
            };
            if !written {
                let state = match old {
                    Some(kind) => kind,
                    None => LinkStateKind::Discovered,
                };
                (TargetPhase::Finished, TaskAction::Finish { state, stop: false })
            } else if shutdown {
                stop_for_shutdown
            } else {
                (TargetPhase::Fetching, TaskAction::Fetch)
            }
        },
        TargetPhase::Fetching => {
            let fetched = match event {
                TaskEvent::Fetched(fetched) => fetched,
                _ => false,
            };
            if fetched {
                (TargetPhase::Processing, TaskAction::MarkCrawledAndProcess)
            } else {
                (TargetPhase::Finished, TaskAction::Finish { state: LinkStateKind::InternalError, stop: false })
            }
        },
        TargetPhase::Processing => match event {
            TaskEvent::Processed { has_links } => {
                if shutdown {
                    stop_for_shutdown
                } else if has_links {
                    (TargetPhase::HandlingLinks, TaskAction::HandleLinks)
                } else {
                    (TargetPhase::Storing, TaskAction::Store)
                }
            },
            _ => (TargetPhase::Finished, TaskAction::Finish { state: LinkStateKind::InternalError, stop: false }),
        },
        TargetPhase::HandlingLinks => {
            let handled = match event {
                TaskEvent::LinksHandled(handled) => handled,
                _ => false,
            };
            if !handled {
                (TargetPhase::Stopped, TaskAction::ReportAndStop { state: LinkStateKind::Discovered })
            } else if shutdown {
                stop_for_shutdown
            } else {
                (TargetPhase::Storing, TaskAction::Store)
            }
        },
        TargetPhase::Storing => {
            let stored = match event {
                TaskEvent::Stored(stored) => stored,
                _ => false,
            };
            if stored {
                (TargetPhase::Finished, TaskAction::Finish { state: LinkStateKind::ProcessedAndStored, stop: false })
            } else {
                (TargetPhase::Stopped, TaskAction::ReportAndStop { state: LinkStateKind::Discovered })
            }
        },
        _ => (TargetPhase::Stopped, TaskAction::ConsumeErrorAndStop),
    }
}

/// A url is fetched only after it was reserved, or after looking whether it was crawled failed.
pub proof fn law_fetch_only_after_reservation(
    phase: TargetPhase,
    event: TaskEvent,
    shutdown: bool,
    recrawl_interval: Option<CrawlDuration>,
)
    requires answers(phase, event),
    ensures
        task_transition(phase, event, shutdown, recrawl_interval).1 == TaskAction::Fetch ==> (
            (phase is Reserving && event == TaskEvent::Reserved(true))
            || (phase is Checked && event == TaskEvent::LookupFailed)),
{
}

/// A task that stops puts the url back to `Discovered` or to the state it had before; it
/// never leaves the url reserved or crawled.
pub proof fn law_stop_restores_link_state(
    phase: TargetPhase,
    event: TaskEvent,
    shutdown: bool,
    recrawl_interval: Option<CrawlDuration>,
)
    requires answers(phase, event),
    ensures
        ({
            let (next, action) = task_transition(phase, event, shutdown, recrawl_interval);
            next is Stopped ==> match action {
                TaskAction::Finish { state, stop } => stop && (state == LinkStateKind::Discovered
                    || (phase is Start && (event matches TaskEvent::LinkStateRead(old) && state == restored(old)))),
                TaskAction::ReportAndStop { state } => state == LinkStateKind::Discovered,
                TaskAction::ConsumeErrorAndStop => event is LinkStateReadFailed,
                _ => false,
            }
        }),
{
}

/// At each of its checkpoints (after reading the link state, before the fetch, after the
/// processing and after handing the links on) a requested shutdown stops the task.
pub proof fn law_shutdown_stops_task(
    phase: TargetPhase,
    event: TaskEvent,
    recrawl_interval: Option<CrawlDuration>,
)
    requires
        answers(phase, event),
        (phase is Start && event is LinkStateRead)
            || (phase is Checked && event is LookupFailed)
            || (phase is Reserving && event == TaskEvent::Reserved(true))
            || (phase is Processing && event is Processed)
            || (phase is HandlingLinks && event is LinksHandled),
    ensures
        task_transition(phase, event, true, recrawl_interval).0 is Stopped,
{
}

/// A task marks a url as stored only after it stored the page, or where it puts the url back
/// to the state `ProcessedAndStored` it found it in.
pub proof fn law_stored_only_after_store(
    phase: TargetPhase,
    event: TaskEvent,
    shutdown: bool,
    recrawl_interval: Option<CrawlDuration>,
)
    requires answers(phase, event),
    ensures
        (phase is Storing && event == TaskEvent::Stored(true)) ==> task_transition(phase, event, shutdown, recrawl_interval).1
            == (TaskAction::Finish { state: LinkStateKind::ProcessedAndStored, stop: false }),
        (task_transition(phase, event, shutdown, recrawl_interval).1 matches TaskAction::Finish { state, .. }
            && state == LinkStateKind::ProcessedAndStored) ==> (
                (phase is Storing && event == TaskEvent::Stored(true))
                || event == TaskEvent::LinkStateRead(Some(LinkStateKind::ProcessedAndStored))
                || (phase matches TargetPhase::Loaded { old } && old == Some(LinkStateKind::ProcessedAndStored))
                || (phase matches TargetPhase::Reserving { old } && old == Some(LinkStateKind::ProcessedAndStored))),
{
}

/// A url is fetched only after it was checked as allowed: the fetch follows the phases
/// `Checked` and `Reserving` alone, `Reserving` follows `Checked` alone, and `Checked` follows
/// only the answer that the url is allowed.
pub proof fn law_fetch_only_after_allowed(
    phase: TargetPhase,
    event: TaskEvent,
    shutdown: bool,
    recrawl_interval: Option<CrawlDuration>,
)
    requires answers(phase, event),
    ensures
        task_transition(phase, event, shutdown, recrawl_interval).1 == TaskAction::Fetch
            ==> (phase is Checked || phase is Reserving),
        task_transition(phase, event, shutdown, recrawl_interval).0 is Reserving ==> phase is Checked,
        task_transition(phase, event, shutdown, recrawl_interval).0 is Checked
            ==> (phase is Loaded && event == TaskEvent::AllowedChecked(true)),
{
}

/// The phase of a task on one url after the first `n` of the answers `answers`, each an event
/// and whether a shutdown was requested then, beginning at `Start`.
pub open spec fn phase_after(answers: Seq<(TaskEvent, bool)>, n: int, recrawl_interval: Option<CrawlDuration>) -> TargetPhase
    decreases n,
{
    if n <= 0 {
        TargetPhase::Start
    } else {
        task_transition(phase_after(answers, n - 1, recrawl_interval), answers[n - 1].0, answers[n - 1].1,
            recrawl_interval).0
    }
}

/// The action a task on one url takes on the answer at position `n` of `answers`.
pub open spec fn action_at(answers: Seq<(TaskEvent, bool)>, n: int, recrawl_interval: Option<CrawlDuration>) -> TaskAction {
    task_transition(phase_after(answers, n, recrawl_interval), answers[n].0, answers[n].1, recrawl_interval).1
}

/// True iff the task fetches the url on the answers `answers`.
pub open spec fn fetches(answers: Seq<(TaskEvent, bool)>, recrawl_interval: Option<CrawlDuration>) -> bool {
    exists|n: int| 0 <= n < answers.len() && #[trigger] action_at(answers, n, recrawl_interval) == TaskAction::Fetch
}

/// True iff the task records the url as visited on the answers `answers`: it goes on to store
/// the page, after its links were handed on or where it had none.
pub open spec fn visits(answers: Seq<(TaskEvent, bool)>, recrawl_interval: Option<CrawlDuration>) -> bool {
    exists|n: int| 0 <= n < answers.len() && #[trigger] action_at(answers, n, recrawl_interval) == TaskAction::Store
}

/// True iff the answer at position `n` of `answers` is that the url is allowed.
pub open spec fn allowed_at(answers: Seq<(TaskEvent, bool)>, n: int, recrawl_interval: Option<CrawlDuration>) -> bool {
    &&& phase_after(answers, n, recrawl_interval) is Loaded
    &&& answers[n].0 == TaskEvent::AllowedChecked(true)
}

/// The urls that a run of a task has recorded as visited before the `k`-th url of its queue;
/// `urls` holds, in the order the task takes them, each url with the answers the task got on it.
pub open spec fn visited_before(
    urls: Seq<(Seq<char>, Seq<(TaskEvent, bool)>)>,
    k: int,
    recrawl_interval: Option<CrawlDuration>,
) -> Set<Seq<char>>
    decreases k,
{
    if k <= 0 {
        Set::empty()
    } else if visits(urls[k - 1].1, recrawl_interval) {
        visited_before(urls, k - 1, recrawl_interval).insert(urls[k - 1].0)
    } else {
        visited_before(urls, k - 1, recrawl_interval)
    }
}

/// True iff each answer that an url is allowed was given by the check of the task: the url was
/// not visited before in the run, and `admits` holds of it (no blacklist entry matches it, the
/// robots information allows it and the budget admits it).
pub open spec fn checks_answered_truly(
    urls: Seq<(Seq<char>, Seq<(TaskEvent, bool)>)>,
    admits: spec_fn(Seq<char>) -> bool,
    recrawl_interval: Option<CrawlDuration>,
) -> bool {
    forall|k: int, n: int| 0 <= k < urls.len() && 0 <= n < urls[k].1.len()
        && #[trigger] allowed_at(urls[k].1, n, recrawl_interval)
        ==> !visited_before(urls, k, recrawl_interval).contains(urls[k].0) && admits(urls[k].0)
}

/// True iff a task in phase `p` has passed the check of its url.
pub open spec fn past_check(p: TargetPhase) -> bool {
    p is Checked || p is Reserving || p is Fetching || p is Processing || p is HandlingLinks || p is Storing
}

/// A task gets past the check only from the check's allowing answer, or from past it.
proof fn lemma_past_check_step(p: TargetPhase, event: TaskEvent, shutdown: bool, recrawl_interval: Option<CrawlDuration>)
    ensures
        past_check(task_transition(p, event, shutdown, recrawl_interval).0)
            ==> past_check(p) || (p is Loaded && event == TaskEvent::AllowedChecked(true)),
        task_transition(p, event, shutdown, recrawl_interval).1 == TaskAction::Fetch
            || task_transition(p, event, shutdown, recrawl_interval).1 == TaskAction::Store ==> past_check(p),
{
}

/// A task past the check of its url got the allowing answer before.
proof fn lemma_past_check_after_allowed(answers: Seq<(TaskEvent, bool)>, n: int, recrawl_interval: Option<CrawlDuration>)
    requires 0 <= n <= answers.len(),
    ensures
        past_check(phase_after(answers, n, recrawl_interval))
            ==> exists|i: int| 0 <= i < n && #[trigger] allowed_at(answers, i, recrawl_interval),
    decreases n,
{
    if n > 0 {
        lemma_past_check_after_allowed(answers, n - 1, recrawl_interval);
        lemma_past_check_step(phase_after(answers, n - 1, recrawl_interval), answers[n - 1].0, answers[n - 1].1,
            recrawl_interval);
        if past_check(phase_after(answers, n, recrawl_interval)) && !past_check(phase_after(answers, n - 1, recrawl_interval)) {
            assert(allowed_at(answers, n - 1, recrawl_interval));
        }
    }
}

/// A fetch or a store on an url follows the allowing answer of its check.
proof fn lemma_fetch_follows_allowed(answers: Seq<(TaskEvent, bool)>, n: int, recrawl_interval: Option<CrawlDuration>)
    requires
        0 <= n < answers.len(),
        action_at(answers, n, recrawl_interval) == TaskAction::Fetch
            || action_at(answers, n, recrawl_interval) == TaskAction::Store,
    ensures exists|i: int| 0 <= i < n && #[trigger] allowed_at(answers, i, recrawl_interval),
{
    lemma_past_check_step(phase_after(answers, n, recrawl_interval), answers[n].0, answers[n].1, recrawl_interval);
    lemma_past_check_after_allowed(answers, n, recrawl_interval);
}

/// An url recorded as visited by the `j`-th url of the run is among the visited ones before any
/// later url.
proof fn lemma_visited_stays(
    urls: Seq<(Seq<char>, Seq<(TaskEvent, bool)>)>,
    j: int,
    k: int,
    recrawl_interval: Option<CrawlDuration>,
)
    requires
        0 <= j < k,
        visits(urls[j].1, recrawl_interval),
    ensures visited_before(urls, k, recrawl_interval).contains(urls[j].0),
    decreases k,
{
    if k - 1 > j {
        lemma_visited_stays(urls, j, k - 1, recrawl_interval);
    }
}

/// Over a whole run of a crawl task whose checks are answered truly, an url is fetched only
/// where it was not visited before in the run and no blacklist entry, robots rule or budget
/// keeps it out; and an url that was visited, its page fetched and processed, is never fetched
/// again in the run.
pub proof fn law_run_fetches_each_allowed_url_once(
    urls: Seq<(Seq<char>, Seq<(TaskEvent, bool)>)>,
    admits: spec_fn(Seq<char>) -> bool,
    recrawl_interval: Option<CrawlDuration>,
)
    requires checks_answered_truly(urls, admits, recrawl_interval),
    ensures
        forall|k: int| 0 <= k < urls.len() && #[trigger] fetches(urls[k].1, recrawl_interval)
            ==> !visited_before(urls, k, recrawl_interval).contains(urls[k].0) && admits(urls[k].0),
        forall|j: int, k: int| 0 <= j < k < urls.len() && #[trigger] visits(urls[j].1, recrawl_interval)
            && urls[j].0 == urls[k].0 ==> !#[trigger] fetches(urls[k].1, recrawl_interval),
{
    assert forall|k: int| 0 <= k < urls.len() && #[trigger] fetches(urls[k].1, recrawl_interval)
        implies !visited_before(urls, k, recrawl_interval).contains(urls[k].0) && admits(urls[k].0) by {
        let n = choose|n: int| 0 <= n < urls[k].1.len() && #[trigger] action_at(urls[k].1, n, recrawl_interval) == TaskAction::Fetch;
        lemma_fetch_follows_allowed(urls[k].1, n, recrawl_interval);
        let i = choose|i: int| 0 <= i < n && #[trigger] allowed_at(urls[k].1, i, recrawl_interval);
        assert(allowed_at(urls[k].1, i, recrawl_interval));
    }
    assert forall|j: int, k: int| 0 <= j < k < urls.len() && #[trigger] visits(urls[j].1, recrawl_interval)
        && urls[j].0 == urls[k].0 implies !#[trigger] fetches(urls[k].1, recrawl_interval) by {
        lemma_visited_stays(urls, j, k, recrawl_interval);
        if fetches(urls[k].1, recrawl_interval) {
            let n = choose|n: int| 0 <= n < urls[k].1.len() && #[trigger] action_at(urls[k].1, n, recrawl_interval) == TaskAction::Fetch;
            lemma_fetch_follows_allowed(urls[k].1, n, recrawl_interval);
            let i = choose|i: int| 0 <= i < n && #[trigger] allowed_at(urls[k].1, i, recrawl_interval);
            assert(allowed_at(urls[k].1, i, recrawl_interval));
        }
    }
}

/// Where a crawl task stands in the run over its seed, before and around its queue.
#[derive(Debug, Clone, Copy, PartialEq, Eq, Structural)]
pub enum RunPhase {
    /// The run begins.
    Begin,
    /// The seed is being registered.
    Registering,
    /// The error of registering the seed is with the error consumer.
    ConsumingRegistrationError,
    /// The sitemap of the seed is being read; its urls go into the task's own queue.
    ReadingSitemap,
    /// The task looks whether the seed's host is on cooldown.
    CheckingCooldown,
    /// The seed is being put back into the queue.
    Requeueing,
    /// The error of putting the seed back is with the error consumer.
    ConsumingQueueError,
    /// The task works through its queue, url by url.
    Working,
    /// The run is over.
    Done,
}

/// The answer to the last action of a run.
#[derive(Debug, Clone, Copy, PartialEq, Eq, Structural)]
pub enum RunEvent {
    /// The run begins; whether a shutdown was requested.
    Started { shutdown: bool },
    /// Whether the seed was registered.
    SeedRegistered(bool),
    /// Whether the error consumer took the error it was handed without answering with one.
    ConsumerAnswered(bool),
    /// The urls of the seed's sitemap were queued in the task's own queue.
    SitemapRead,
    /// Whether the seed was processed and stored before, and how long ago its host was last
    /// accessed, if it was.
    CooldownLooked { processed_and_stored: bool, since_last_access: Option<CrawlDuration> },
    /// Whether the seed was put back into the queue.
    Requeued(bool),
}

/// What a run does next.
#[derive(Debug, Clone, Copy, PartialEq, Eq, Structural)]
pub enum RunAction {
    /// End the run with success, having changed nothing and asked nothing.
    FinishUnchanged,
    /// Set up the robots information, the budget and the blacklist, queue the seed in the
    /// task's own queue and register the seed.
    RegisterSeed,
    /// Hand the error to the error consumer.
    ConsumeCrawlError,
    /// Read the seed's sitemap and queue its urls in the task's own queue, after the seed.
    ReadSitemap,
    /// Read the seed's link state and the last access to its host.
    LookAtCooldown,
    /// Put the seed back into the url queue, as an original seed where it is one, with age
    /// zero.
    RequeueSeed,
    /// Work through the task's queue, beginning with the seed.
    WorkQueue,
    /// End the run with success.
    FinishOk,
    /// End the run with the error that the error consumer answered with.
    FinishWithConsumerError,
}

/// True iff `event` answers the action that a run in `phase` took.
pub open spec fn run_answers(phase: RunPhase, event: RunEvent) -> bool {
    match phase {
        RunPhase::Begin => event is Started,
        RunPhase::Registering => event is SeedRegistered,
        RunPhase::ConsumingRegistrationError => event is ConsumerAnswered,
        RunPhase::ReadingSitemap => event is SitemapRead,
        RunPhase::CheckingCooldown => event is CooldownLooked,
        RunPhase::Requeueing => event is Requeued,
        RunPhase::ConsumingQueueError => event is ConsumerAnswered,
        RunPhase::Working => false,
        RunPhase::Done => false,
    }
}

/// True iff the seed is on cooldown: its budget recrawls, it was processed and stored, and
/// its host was accessed no longer ago than the recrawl interval.
pub open spec fn on_cooldown(
    recrawl_interval: Option<CrawlDuration>,
    processed_and_stored: bool,
    since_last_access: Option<CrawlDuration>,
) -> bool {
    recrawl_interval is Some && processed_and_stored && since_last_access is Some
        && since_last_access.unwrap().total_nanos() <= recrawl_interval.unwrap().total_nanos()
}

/// What a run does once the seed is registered: read the seed's sitemap, unless sitemaps are
/// ignored, else look at the cooldown.
pub open spec fn after_registration(ignore_sitemap: bool) -> (RunPhase, RunAction) {
    if ignore_sitemap {
        (RunPhase::CheckingCooldown, RunAction::LookAtCooldown)
    } else {
        (RunPhase::ReadingSitemap, RunAction::ReadSitemap)
    }
}

/// The phase and action of a run in `phase` after `event`, with `recrawl_interval` the recrawl
/// interval of the budget of the seed's host and `ignore_sitemap` whether sitemaps are ignored.
pub open spec fn run_transition(
    phase: RunPhase,
    event: RunEvent,
    recrawl_interval: Option<CrawlDuration>,
    ignore_sitemap: bool,
) -> (RunPhase, RunAction) {
    match (phase, event) {
        (RunPhase::Begin, RunEvent::Started { shutdown }) => if shutdown {
            (RunPhase::Done, RunAction::FinishUnchanged)
        } else {
            (RunPhase::Registering, RunAction::RegisterSeed)
        },
        (RunPhase::Registering, RunEvent::SeedRegistered(ok)) => if ok {
            after_registration(ignore_sitemap)
        } else {
            (RunPhase::ConsumingRegistrationError, RunAction::ConsumeCrawlError)
        },
        (RunPhase::ConsumingRegistrationError, RunEvent::ConsumerAnswered(ok)) => if ok {
            after_registration(ignore_sitemap)
        } else {
            (RunPhase::Done, RunAction::FinishWithConsumerError)
        },
        (RunPhase::ReadingSitemap, RunEvent::SitemapRead) => (RunPhase::CheckingCooldown, RunAction::LookAtCooldown),
        (RunPhase::CheckingCooldown, RunEvent::CooldownLooked { processed_and_stored, since_last_access }) =>
            if on_cooldown(recrawl_interval, processed_and_stored, since_last_access) {
                (RunPhase::Requeueing, RunAction::RequeueSeed)
            } else {
                (RunPhase::Working, RunAction::WorkQueue)
            },
        (RunPhase::Requeueing, RunEvent::Requeued(ok)) => if ok {
            (RunPhase::Done, RunAction::FinishOk)
        } else {
            (RunPhase::ConsumingQueueError, RunAction::ConsumeCrawlError)
        },
        (RunPhase::ConsumingQueueError, RunEvent::ConsumerAnswered(ok)) => if ok {
            (RunPhase::Done, RunAction::FinishOk)
        } else {
            (RunPhase::Done, RunAction::FinishWithConsumerError)
        },
        _ => (RunPhase::Done, RunAction::FinishWithConsumerError),
    }
}

/// The first phase of a run.
pub fn run_begin() -> (r: RunPhase)
    ensures r == RunPhase::Begin,
{
    RunPhase::Begin
}

/// One decision of a crawl task around its queue: its phase and action after `event`.
pub fn run_step(
    phase: RunPhase,
    event: RunEvent,
    recrawl_interval: Option<CrawlDuration>,
    ignore_sitemap: bool,
) -> (r: (RunPhase, RunAction))
    requires
        run_answers(phase, event),
        recrawl_interval matches Some(i) ==> i.is_normalized(),
        event matches RunEvent::CooldownLooked { since_last_access: Some(s), .. } ==> s.is_normalized(),
    ensures r == run_transition(phase, event, recrawl_interval, ignore_sitemap),
{
    match (phase, event) {
        (RunPhase::Begin, RunEvent::Started { shutdown }) => if shutdown {
            (RunPhase::Done, RunAction::FinishUnchanged)
        } else {
            (RunPhase::Registering, RunAction::RegisterSeed)
        },
        (RunPhase::Registering, RunEvent::SeedRegistered(ok)) => if ok {
            if ignore_sitemap {
                (RunPhase::CheckingCooldown, RunAction::LookAtCooldown)
            } else {
                (RunPhase::ReadingSitemap, RunAction::ReadSitemap)
            }
        } else {
            (RunPhase::ConsumingRegistrationError, RunAction::ConsumeCrawlError)
        },
        (RunPhase::ConsumingRegistrationError, RunEvent::ConsumerAnswered(ok)) => if ok {
            if ignore_sitemap {
                (RunPhase::CheckingCooldown, RunAction::LookAtCooldown)
            } else {
                (RunPhase::ReadingSitemap, RunAction::ReadSitemap)
            }
        } else {
            (RunPhase::Done, RunAction::FinishWithConsumerError)
        },
        (RunPhase::ReadingSitemap, RunEvent::SitemapRead) => (RunPhase::CheckingCooldown, RunAction::LookAtCooldown),
        (RunPhase::CheckingCooldown, RunEvent::CooldownLooked { processed_and_stored, since_last_access }) => {
            if crate::crawl::seed_on_cooldown(recrawl_interval.as_ref(), processed_and_stored, since_last_access) {
                (RunPhase::Requeueing, RunAction::RequeueSeed)
            } else {
                (RunPhase::Working, RunAction::WorkQueue)
            }
        },
        (RunPhase::Requeueing, RunEvent::Requeued(ok)) => if ok {
            (RunPhase::Done, RunAction::FinishOk)
        } else {
            (RunPhase::ConsumingQueueError, RunAction::ConsumeCrawlError)
        },
        (RunPhase::ConsumingQueueError, RunEvent::ConsumerAnswered(ok)) => if ok {
            (RunPhase::Done, RunAction::FinishOk)
        } else {
            (RunPhase::Done, RunAction::FinishWithConsumerError)
        },
        _ => (RunPhase::Done, RunAction::FinishWithConsumerError),
    }
}

/// A run begun under a shutdown ends at once with success and changes nothing.
pub proof fn law_shutdown_at_start_changes_nothing(recrawl_interval: Option<CrawlDuration>, ignore_sitemap: bool)
    ensures
        run_transition(RunPhase::Begin, RunEvent::Started { shutdown: true }, recrawl_interval, ignore_sitemap)
            == (RunPhase::Done, RunAction::FinishUnchanged),
{
}

/// Once the seed is registered, or its registration error was taken by the error consumer,
/// the run reads the seed's sitemap unless sitemaps are ignored, and looks at the cooldown
/// after that.
pub proof fn law_sitemap_read_unless_ignored(recrawl_interval: Option<CrawlDuration>, ignore_sitemap: bool)
    ensures
        run_transition(RunPhase::Registering, RunEvent::SeedRegistered(true), recrawl_interval, ignore_sitemap).1
            == if ignore_sitemap { RunAction::LookAtCooldown } else { RunAction::ReadSitemap },
        run_transition(RunPhase::ConsumingRegistrationError, RunEvent::ConsumerAnswered(true), recrawl_interval,
            ignore_sitemap).1 == if ignore_sitemap { RunAction::LookAtCooldown } else { RunAction::ReadSitemap },
        run_transition(RunPhase::ReadingSitemap, RunEvent::SitemapRead, recrawl_interval, ignore_sitemap)
            == (RunPhase::CheckingCooldown, RunAction::LookAtCooldown),
{
}

/// A seed whose host is on cooldown is put back into the queue and not crawled; one that is
/// not goes on to the queue.
pub proof fn law_cooldown_requeues_the_seed(
    recrawl_interval: Option<CrawlDuration>,
    processed_and_stored: bool,
    since_last_access: Option<CrawlDuration>,
    ignore_sitemap: bool,
)
    ensures
        run_transition(RunPhase::CheckingCooldown,
            RunEvent::CooldownLooked { processed_and_stored, since_last_access }, recrawl_interval, ignore_sitemap).1
            == if on_cooldown(recrawl_interval, processed_and_stored, since_last_access) {
                RunAction::RequeueSeed
            } else {
                RunAction::WorkQueue
            },
{
}

} // verus!
