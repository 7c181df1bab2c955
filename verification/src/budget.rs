//! Crawl budgets: how far a crawl may go from its seed, and how it is timed.

use vstd::prelude::*;
use crate::depth::DepthDescriptor;
use crate::domain_map::{Duplicate, DomainMappingManager, last_value_for, resolve};
use crate::url::UrlWithDepth;

verus! {

/// A span of time: whole seconds and the nanoseconds beyond them, both of the same sign.
#[derive(Debug, Clone, Copy, PartialEq, Eq, Structural)]
pub struct CrawlDuration {
    pub seconds: i64,
    pub nanoseconds: i32,
}

impl CrawlDuration {
    /// A span of whole seconds.
    pub fn seconds(seconds: i64) -> (r: Self)
        ensures r.seconds == seconds, r.nanoseconds == 0,
    {
        Self { seconds, nanoseconds: 0 }
    }

    /// The span in nanoseconds.
    pub open spec fn total_nanos(self) -> int {
        self.seconds * 1_000_000_000 + self.nanoseconds
    }

    /// True iff the nanoseconds are less than a second and have the sign of the seconds.
    pub open spec fn is_normalized(self) -> bool {
        &&& -1_000_000_000 < self.nanoseconds < 1_000_000_000
        &&& self.seconds > 0 ==> self.nanoseconds >= 0
        &&& self.seconds < 0 ==> self.nanoseconds <= 0
    }

    /// True iff this span is at most as long as `other`.
    pub fn is_at_most(&self, other: &Self) -> (r: bool)
        requires
            self.is_normalized(),
            other.is_normalized(),
        ensures r == (self.total_nanos() <= other.total_nanos()),
    {
        let r = self.seconds < other.seconds
            || (self.seconds == other.seconds && self.nanoseconds <= other.nanoseconds);
        proof {
            let a = self.seconds as int;
            let b = other.seconds as int;
            if a < b {
                assert(a * 1_000_000_000 + 1_000_000_000 <= b * 1_000_000_000) by (nonlinear_arith)
                    requires a < b;
            } else if a > b {
                assert(b * 1_000_000_000 + 1_000_000_000 <= a * 1_000_000_000) by (nonlinear_arith)
                    requires b < a;
            }
        }
        r
    }
}

/// How far a crawl may go from its seed.
#[derive(Debug, Clone, Copy, PartialEq, Eq, Structural)]
pub enum BudgetSetting {
    /// Only crawls the seed domains
    SeedOnly {
        /// The max depth to crawl on a website. (0 indicates to crawl everything)
        depth_on_website: u64,
        /// Crawl interval (if none crawl only once)
        recrawl_interval: Option<CrawlDuration>,
        /// Request max timeout per page.
        request_timeout: Option<CrawlDuration>,
    },
    /// Crawls the seed and follows external links
    Normal {
        /// The max depth to crawl on a website.
        depth_on_website: u64,
        /// The maximum depth of websites, outgoing from the seed.
        depth: u64,
        /// Crawl interval (if none crawl only once)
        recrawl_interval: Option<CrawlDuration>,
        /// Request max timeout per page.
        request_timeout: Option<CrawlDuration>,
    },
    /// Crawls the seed and follows external links, but only until a specific amount of jumps is reached.
    Absolute {
        /// The absolute number of jumps, outgoing from the seed, 0 indicates infinite.
        depth: u64,
        /// Crawl interval (if none crawl only once)
        recrawl_interval: Option<CrawlDuration>,
        /// Request max timeout per page.
        request_timeout: Option<CrawlDuration>,
    },
}

/// The flat form in which a budget is written down: the fields that are given decide the kind.
#[derive(Debug, Clone, Copy, PartialEq, Eq, Structural)]
pub struct BudgetSettingsDef {
    /// The max depth to crawl on a website.
    pub depth_on_website: Option<u64>,
    /// The maximum depth of websites, outgoing from the seed.
    pub depth: Option<u64>,
    /// Crawl interval (if none crawl only once)
    pub recrawl_interval: Option<CrawlDuration>,
    /// Request max timeout per page.
    pub request_timeout: Option<CrawlDuration>,
}

/// A flat budget that names no depth at all.
#[derive(Debug, Clone, Copy, PartialEq, Eq, Structural)]
pub struct BudgetSettingsDeserializationError;

impl BudgetSettingsDeserializationError {
    /// The message of this error.
    pub fn message(&self) -> (r: &'static str)
        ensures r@ == "The budget is missing any depth field. It needs at least one!"@,
    {
        "The budget is missing any depth field. It needs at least one!"
    }
}

/// The flat form of a budget.
pub open spec fn flatten_budget(value: BudgetSetting) -> BudgetSettingsDef {
    match value {
        BudgetSetting::SeedOnly { depth_on_website, request_timeout, recrawl_interval } =>
            BudgetSettingsDef { depth_on_website: Some(depth_on_website), depth: None, recrawl_interval, request_timeout },
        BudgetSetting::Normal { depth_on_website, depth, request_timeout, recrawl_interval } =>
            BudgetSettingsDef { depth_on_website: Some(depth_on_website), depth: Some(depth), recrawl_interval, request_timeout },
        BudgetSetting::Absolute { depth, request_timeout, recrawl_interval } =>
            BudgetSettingsDef { depth_on_website: None, depth: Some(depth), recrawl_interval, request_timeout },
    }
}

/// The budget that a flat form describes: both depths give `Normal`, only the depth on the
/// website `SeedOnly`, only the depth `Absolute`, none an error.
pub open spec fn unflatten_budget(value: BudgetSettingsDef) -> Result<BudgetSetting, BudgetSettingsDeserializationError> {
    match (value.depth, value.depth_on_website) {
        (Some(depth), Some(depth_on_website)) => Ok(BudgetSetting::Normal {
            depth, depth_on_website, request_timeout: value.request_timeout, recrawl_interval: value.recrawl_interval,
        }),
        (None, Some(depth_on_website)) => Ok(BudgetSetting::SeedOnly {
            depth_on_website, request_timeout: value.request_timeout, recrawl_interval: value.recrawl_interval,
        }),
        (Some(depth), None) => Ok(BudgetSetting::Absolute {
            depth, request_timeout: value.request_timeout, recrawl_interval: value.recrawl_interval,
        }),
        (None, None) => Err(BudgetSettingsDeserializationError),
    }
}

impl From<BudgetSetting> for BudgetSettingsDef {
    fn from(value: BudgetSetting) -> (r: Self) {
        match value {
            BudgetSetting::SeedOnly { depth_on_website, request_timeout, recrawl_interval } => Self {
                depth_on_website: Some(depth_on_website),
                depth: None,
                recrawl_interval,
                request_timeout,
            },
            BudgetSetting::Normal { depth_on_website, depth, request_timeout, recrawl_interval } => Self {
                depth_on_website: Some(depth_on_website),
                depth: Some(depth),
                recrawl_interval,
                request_timeout,
            },
            BudgetSetting::Absolute { depth, request_timeout, recrawl_interval } => Self {
                depth_on_website: None,
                depth: Some(depth),
                recrawl_interval,
                request_timeout,
            },
        }
    }
}

impl vstd::std_specs::convert::FromSpecImpl<BudgetSetting> for BudgetSettingsDef {
    open spec fn obeys_from_spec() -> bool { true }

    open spec fn from_spec(v: BudgetSetting) -> Self { flatten_budget(v) }
}

impl TryFrom<BudgetSettingsDef> for BudgetSetting {
    type Error = BudgetSettingsDeserializationError;

    fn try_from(value: BudgetSettingsDef) -> (r: Result<Self, Self::Error>) {
        match (value.depth, value.depth_on_website) {
            (Some(depth), Some(depth_on_website)) => Ok(BudgetSetting::Normal {
                depth,
                depth_on_website,
                request_timeout: value.request_timeout,
                recrawl_interval: value.recrawl_interval,
            }),
            (None, Some(depth_on_website)) => Ok(BudgetSetting::SeedOnly {
                depth_on_website,
                request_timeout: value.request_timeout,
                recrawl_interval: value.recrawl_interval,
            }),
            (Some(depth), None) => Ok(BudgetSetting::Absolute {
                depth,
                request_timeout: value.request_timeout,
                recrawl_interval: value.recrawl_interval,
            }),
            (None, None) => Err(BudgetSettingsDeserializationError),
        }
    }
}

impl vstd::std_specs::convert::TryFromSpecImpl<BudgetSettingsDef> for BudgetSetting {
    open spec fn obeys_try_from_spec() -> bool { true }

    open spec fn try_from_spec(v: BudgetSettingsDef) -> Result<Self, BudgetSettingsDeserializationError> {
        unflatten_budget(v)
    }
}

impl BudgetSetting {
    /// The request timeout of the budget.
    pub open spec fn timeout(self) -> Option<CrawlDuration> {
        match self {
            BudgetSetting::SeedOnly { request_timeout, .. } => request_timeout,
            BudgetSetting::Normal { request_timeout, .. } => request_timeout,
            BudgetSetting::Absolute { request_timeout, .. } => request_timeout,
        }
    }

    /// The recrawl interval of the budget.
    pub open spec fn interval(self) -> Option<CrawlDuration> {
        match self {
            BudgetSetting::SeedOnly { recrawl_interval, .. } => recrawl_interval,
            BudgetSetting::Normal { recrawl_interval, .. } => recrawl_interval,
            BudgetSetting::Absolute { recrawl_interval, .. } => recrawl_interval,
        }
    }

    /// True iff an url with the depth `d` lies within the budget.
    pub open spec fn admits(self, d: DepthDescriptor) -> bool {
        match self {
            BudgetSetting::SeedOnly { depth_on_website, .. } =>
                d.distance_to_seed == 0 && (depth_on_website == 0 || d.depth_on_website < depth_on_website),
            BudgetSetting::Normal { depth_on_website, depth, .. } =>
                (depth_on_website == 0 || d.depth_on_website < depth_on_website) && d.distance_to_seed <= depth,
            BudgetSetting::Absolute { depth, .. } =>
                depth == 0 || d.total_distance_to_seed < depth,
        }
    }

    pub fn get_request_timeout(&self) -> (r: Option<CrawlDuration>)
        ensures r == self.timeout(),
    {
        match self {
            BudgetSetting::SeedOnly { request_timeout, .. } => *request_timeout,
            BudgetSetting::Normal { request_timeout, .. } => *request_timeout,
            BudgetSetting::Absolute { request_timeout, .. } => *request_timeout,
        }
    }

    pub fn get_recrawl_interval(&self) -> (r: Option<&CrawlDuration>)
        ensures
            match r {
                Some(v) => self.interval() == Some(*v),
                None => self.interval() is None,
            },
    {
        match self {
            BudgetSetting::SeedOnly { recrawl_interval, .. } => recrawl_interval.as_ref(),
            BudgetSetting::Normal { recrawl_interval, .. } => recrawl_interval.as_ref(),
            BudgetSetting::Absolute { recrawl_interval, .. } => recrawl_interval.as_ref(),
        }
    }

    /// Returns true, iff the [url] is in the budget
    pub fn is_in_budget(&self, url: &UrlWithDepth) -> (r: bool)
        ensures r == self.admits(url.depth),
    {
        let url_depth = url.depth();
        match self {
            BudgetSetting::SeedOnly { depth_on_website: depth, .. } => {
                url_depth.distance_to_seed == 0 && (*depth == 0 || url_depth.depth_on_website < *depth)
            }
            BudgetSetting::Normal { depth_on_website: depth, depth: depth_distance, .. } => {
                (*depth == 0 || url_depth.depth_on_website < *depth)
                    && url_depth.distance_to_seed <= *depth_distance
            }
            BudgetSetting::Absolute { depth, .. } => {
                *depth == 0 || url_depth.total_distance_to_seed < *depth
            }
        }
    }

    /// The name of the kind of budget.
    pub fn kind_name(&self) -> (r: &'static str)
        ensures
            r@ == match self {
                BudgetSetting::SeedOnly { .. } => "SeedOnly"@,
                BudgetSetting::Normal { .. } => "Normal"@,
                BudgetSetting::Absolute { .. } => "Absolute"@,
            },
    {
        match self {
            BudgetSetting::SeedOnly { .. } => "SeedOnly",
            BudgetSetting::Normal { .. } => "Normal",
            BudgetSetting::Absolute { .. } => "Absolute",
        }
    }
}

/// The request timeout of a budget that gives none: 15 seconds. A budget that gives `null`
/// has no timeout.
pub fn default_request_timeout() -> (r: Option<CrawlDuration>)
    ensures r == Some(CrawlDuration { seconds: 15, nanoseconds: 0 }),
{
    Some(CrawlDuration::seconds(15))
}

impl Default for BudgetSetting {
    fn default() -> (r: Self)
        ensures
            r == (BudgetSetting::Normal {
                depth_on_website: 20,
                depth: 3,
                recrawl_interval: None,
                request_timeout: Some(CrawlDuration { seconds: 15, nanoseconds: 0 }),
            }),
    {
        Self::Normal {
            depth_on_website: 20,
            depth: 3,
            recrawl_interval: None,
            request_timeout: default_request_timeout(),
        }
    }
}

impl Duplicate for BudgetSetting {
    fn duplicate(&self) -> (r: Self) {
        *self
    }
}

/// The budget of a crawl: a default and the budgets set for single hosts.
#[derive(Debug, Clone)]
pub struct CrawlBudget {
    pub default: BudgetSetting,
    pub per_host: Option<Vec<(String, BudgetSetting)>>,
}

/// The budget that `budget` gives the host `host`: the last one set for it, else the default.
pub open spec fn budget_for_host(budget: CrawlBudget, host: Seq<char>) -> BudgetSetting {
    match budget.per_host {
        Some(pairs) => resolve(budget.default, pairs@, host),
        None => budget.default,
    }
}

impl CrawlBudget {
    pub fn new(default: BudgetSetting, per_host: Option<Vec<(String, BudgetSetting)>>) -> (r: Self)
        ensures r.default == default, r.per_host == per_host,
    {
        Self { default, per_host }
    }
}

impl Default for CrawlBudget {
    fn default() -> (r: Self)
        ensures
            r.default == (BudgetSetting::Normal {
                depth_on_website: 20,
                depth: 3,
                recrawl_interval: None,
                request_timeout: Some(CrawlDuration { seconds: 15, nanoseconds: 0 }),
            }),
            r.per_host is None,
    {
        Self { default: BudgetSetting::default(), per_host: None }
    }
}

/// Keeps the budget of every host, over a default budget.
#[derive(Debug)]
pub struct InMemoryBudgetManager {
    inner: DomainMappingManager<BudgetSetting>,
}

impl InMemoryBudgetManager {
    /// The budget that holds for `host`.
    pub open spec fn budget_of(&self, host: Seq<char>) -> BudgetSetting {
        self.inner().lookup(host)
    }

    /// The default budget.
    pub open spec fn default_budget(&self) -> BudgetSetting {
        self.inner().default_value()
    }

    pub closed spec fn inner(&self) -> DomainMappingManager<BudgetSetting> {
        self.inner
    }

    pub fn new(inner: DomainMappingManager<BudgetSetting>) -> (r: Self)
        ensures r.inner() == inner,
    {
        Self { inner }
    }

    /// A manager that holds what `crawl_budget` says.
    pub fn create(crawl_budget: &CrawlBudget) -> (r: Self)
        ensures
            r.default_budget() == crawl_budget.default,
            forall|h: Seq<char>| #[trigger] r.budget_of(h) == budget_for_host(*crawl_budget, h),
    {
        let mut inner = DomainMappingManager::new(crawl_budget.default);
        if let Some(value) = crawl_budget.per_host.as_ref() {
            Self::set_all(&mut inner, value);
        }
        Self { inner }
    }

    fn set_all(inner: &mut DomainMappingManager<BudgetSetting>, pairs: &Vec<(String, BudgetSetting)>)
        ensures
            final(inner).default_value() == old(inner).default_value(),
            forall|h: Seq<char>| #[trigger] final(inner).lookup(h) == match last_value_for(pairs@, h) {
                Some(v) => v,
                None => old(inner).lookup(h),
            },
    {
        let ghost start = *inner;
        let mut i: usize = 0;
        while i < pairs.len()
            invariant
                i <= pairs.len(),
                inner.default_value() == start.default_value(),
                forall|h: Seq<char>| #[trigger] inner.lookup(h) == match last_value_for(pairs@.take(i as int), h) {
                    Some(v) => v,
                    None => start.lookup(h),
                },
            decreases pairs.len() - i,
        {
            let k = pairs[i].0.clone();
            let v = pairs[i].1;
            inner.set(k, v);
            proof {
                assert(pairs@.take(i + 1).drop_last() =~= pairs@.take(i as int));
            }
            i = i + 1;
        }
        assert(pairs@.take(pairs.len() as int) =~= pairs@);
    }

    pub fn get_default_budget(&self) -> (r: &BudgetSetting)
        ensures *r == self.default_budget(),
    {
        self.inner.get_default()
    }

    pub fn get_budget_for(&self, origin: &str) -> (r: &BudgetSetting)
        ensures *r == self.budget_of(origin@),
    {
        self.inner.get_for(origin)
    }

    pub fn set_budget(&mut self, key: String, value: BudgetSetting)
        ensures
            final(self).default_budget() == old(self).default_budget(),
            forall|h: Seq<char>| #[trigger] final(self).budget_of(h)
                == if h == key@ { value } else { old(self).budget_of(h) },
    {
        self.inner.set(key, value)
    }

    pub fn set_default_budget(&mut self, value: BudgetSetting)
        ensures
            final(self).default_budget() == value,
            final(self).inner().pairs() == old(self).inner().pairs(),
    {
        self.inner.set_default(value)
    }

    /// Takes over the default and the host budgets of `budget`.
    pub fn import(&mut self, budget: &CrawlBudget)
        ensures
            final(self).default_budget() == budget.default,
            forall|h: Seq<char>| #[trigger] final(self).budget_of(h) == match budget.per_host {
                Some(pairs) => match last_value_for(pairs@, h) {
                    Some(v) => v,
                    None => resolve(budget.default, old(self).inner().pairs(), h),
                },
                None => resolve(budget.default, old(self).inner().pairs(), h),
            },
    {
        self.inner.set_default(budget.default);
        if let Some(per_domain) = budget.per_host.as_ref() {
            Self::set_all(&mut self.inner, per_domain);
        }
    }

    /// A manager that holds what `value` says.
    pub fn from_crawl_budget(value: CrawlBudget) -> (r: Self)
        ensures
            r.default_budget() == value.default,
            forall|h: Seq<char>| #[trigger] r.budget_of(h) == budget_for_host(value, h),
    {
        Self::create(&value)
    }

    /// The default budget and the budgets set for hosts, in the order they were set.
    pub fn get_export(&self) -> (r: CrawlBudget)
        ensures
            r.default == self.default_budget(),
            match r.per_host {
                Some(v) => v@ == self.inner().pairs() && v@.len() > 0,
                None => self.inner().pairs().len() == 0,
            },
    {
        let (default, per_host) = self.inner.get_content();
        CrawlBudget { default, per_host }
    }
}


/// A manager created from the export of another gives every host the budget the other gives:
/// exporting and creating again loses nothing.
pub proof fn law_export_round_trip(m: InMemoryBudgetManager, export: CrawlBudget, host: Seq<char>)
    requires
        export.default == m.default_budget(),
        match export.per_host {
            Some(v) => v@ == m.inner().pairs() && v@.len() > 0,
            None => m.inner().pairs().len() == 0,
        },
    ensures budget_for_host(export, host) == m.budget_of(host),
{
}

/// Reading a flat budget back gives the budget it was made from.
pub proof fn law_flatten_round_trip(b: BudgetSetting)
    ensures unflatten_budget(flatten_budget(b)) == Ok::<BudgetSetting, BudgetSettingsDeserializationError>(b),
{
}

/// A flat budget that names a depth is read without error, and writing it back gives it again.
pub proof fn law_unflatten_round_trip(d: BudgetSettingsDef)
    requires d.depth is Some || d.depth_on_website is Some,
    ensures
        unflatten_budget(d) is Ok,
        flatten_budget(unflatten_budget(d).unwrap()) == d,
{
}

/// A budget of depth zero puts no bound on the depth it counts.
pub proof fn law_zero_depth_is_unbounded(d: DepthDescriptor, t: Option<CrawlDuration>, i: Option<CrawlDuration>)
    ensures
        (BudgetSetting::Absolute { depth: 0, recrawl_interval: i, request_timeout: t }).admits(d),
        d.distance_to_seed == 0 ==> (BudgetSetting::SeedOnly { depth_on_website: 0, recrawl_interval: i, request_timeout: t }).admits(d),
{
}

/// A budget that admits an url also admits every url that is field-wise no deeper.
pub proof fn law_budget_is_downward_closed(b: BudgetSetting, deep: DepthDescriptor, shallow: DepthDescriptor)
    requires
        b.admits(deep),
        shallow.depth_on_website <= deep.depth_on_website,
        shallow.distance_to_seed <= deep.distance_to_seed,
        shallow.total_distance_to_seed <= deep.total_distance_to_seed,
    ensures b.admits(shallow),
{
}

/// A depth on the website of zero puts no bound on it: a normal budget with it admits an url
/// exactly where its distance to the seed is within the budget's depth; with a bound, it admits
/// fewer urls, only those below the bound on the website.
pub proof fn law_zero_depth_on_website_is_unbounded(
    depth_on_website: u64,
    depth: u64,
    recrawl_interval: Option<CrawlDuration>,
    request_timeout: Option<CrawlDuration>,
    d: DepthDescriptor,
)
    ensures
        (BudgetSetting::Normal { depth_on_website: 0, depth, recrawl_interval, request_timeout }).admits(d)
            == (d.distance_to_seed <= depth),
        (BudgetSetting::SeedOnly { depth_on_website: 0, recrawl_interval, request_timeout }).admits(d)
            == (d.distance_to_seed == 0),
        (BudgetSetting::Normal { depth_on_website, depth, recrawl_interval, request_timeout }).admits(d)
            ==> (BudgetSetting::Normal { depth_on_website: 0, depth, recrawl_interval, request_timeout }).admits(d),
        depth_on_website > 0 && (BudgetSetting::Normal { depth_on_website, depth, recrawl_interval, request_timeout }).admits(d)
            ==> d.depth_on_website < depth_on_website,
        depth_on_website > 0 && d.depth_on_website < depth_on_website && d.distance_to_seed <= depth
            ==> (BudgetSetting::Normal { depth_on_website, depth, recrawl_interval, request_timeout }).admits(d),
        (BudgetSetting::Normal { depth_on_website, depth, recrawl_interval, request_timeout }).admits(d)
            ==> d.distance_to_seed <= depth,
        (BudgetSetting::SeedOnly { depth_on_website, recrawl_interval, request_timeout }).admits(d)
            ==> d.distance_to_seed == 0 && (depth_on_website == 0 || d.depth_on_website < depth_on_website),
        depth > 0 ==> (BudgetSetting::Absolute { depth, recrawl_interval, request_timeout }).admits(d)
            == (d.total_distance_to_seed < depth),
{
}

} // verus!
