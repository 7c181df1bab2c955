//! The configuration of a crawl.

use vstd::prelude::*;
use crate::budget::{BudgetSetting, CrawlBudget, CrawlDuration};
use crate::cookies::CookieSettings;
use crate::fetching::{eq_ignore_ascii_case, same_ignoring_ascii_case};

verus! {

/// Whether the product `n * size` fits into `u64`, and the product or `u64::MAX`.
pub open spec fn saturating_product(n: u64, size: u64) -> u64 {
    if n * size > u64::MAX { u64::MAX } else { (n * size) as u64 }
}

/// `ubyte::ByteUnit::Megabyte(n).as_u64()`: the number of bytes in `n` megabytes of
/// 1_000_000 bytes each, saturated at `u64::MAX`, as the crate's constructor computes it.
#[verifier::external_body]
fn megabytes_as_bytes(n: u64) -> (r: u64)
    ensures r == saturating_product(n, 1_000_000),
{
    ubyte::ByteUnit::Megabyte(n).as_u64()
}

/// `ubyte::ByteUnit::Gigabyte(n).as_u64()`: the number of bytes in `n` gigabytes of
/// 1_000_000_000 bytes each, saturated at `u64::MAX`, as the crate's constructor computes it.
#[verifier::external_body]
fn gigabytes_as_bytes(n: u64) -> (r: u64)
    ensures r == saturating_product(n, 1_000_000_000),
{
    ubyte::ByteUnit::Gigabyte(n).as_u64()
}

/// The default number of robots.txt files kept in the cache.
pub const DEFAULT_CACHE_SIZE_ROBOTS: usize = 32;

/// The default number of web graph entries kept in the cache.
pub const DEFAULT_CACHE_SIZE_WEB_GRAPH: usize = 20_000;

/// The default largest download that is kept in memory: 100 megabytes.
pub fn default_max_size_in_memory_download() -> (r: u64)
    ensures r == 100_000_000,
{
    megabytes_as_bytes(100)
}

/// How much the crawler logs.
#[derive(Debug, Clone, Copy, PartialEq, Eq, Structural)]
pub enum LogLevel {
    Off,
    Error,
    Warn,
    Info,
    Debug,
    Trace,
}

impl LogLevel {
    /// The level a name gives, whatever the case of its letters: `off`, `error`, `warn`,
    /// `info`, `debug` or `trace`.
    pub fn from_name(name: &str) -> (r: Option<LogLevel>)
        ensures
            r == if same_ignoring_ascii_case(name@, "off"@) {
                Some(LogLevel::Off)
            } else if same_ignoring_ascii_case(name@, "error"@) {
                Some(LogLevel::Error)
            } else if same_ignoring_ascii_case(name@, "warn"@) {
                Some(LogLevel::Warn)
            } else if same_ignoring_ascii_case(name@, "info"@) {
                Some(LogLevel::Info)
            } else if same_ignoring_ascii_case(name@, "debug"@) {
                Some(LogLevel::Debug)
            } else if same_ignoring_ascii_case(name@, "trace"@) {
                Some(LogLevel::Trace)
            } else {
                None::<LogLevel>
            },
    {
        if eq_ignore_ascii_case(name, "off") {
            Some(LogLevel::Off)
        } else if eq_ignore_ascii_case(name, "error") {
            Some(LogLevel::Error)
        } else if eq_ignore_ascii_case(name, "warn") {
            Some(LogLevel::Warn)
        } else if eq_ignore_ascii_case(name, "info") {
            Some(LogLevel::Info)
        } else if eq_ignore_ascii_case(name, "debug") {
            Some(LogLevel::Debug)
        } else if eq_ignore_ascii_case(name, "trace") {
            Some(LogLevel::Trace)
        } else {
            None
        }
    }

    /// The name of the level.
    pub fn name(&self) -> (r: &'static str)
        ensures
            r@ == match self {
                LogLevel::Off => "OFF"@,
                LogLevel::Error => "ERROR"@,
                LogLevel::Warn => "WARN"@,
                LogLevel::Info => "INFO"@,
                LogLevel::Debug => "DEBUG"@,
                LogLevel::Trace => "TRACE"@,
            },
    {
        match self {
            LogLevel::Off => "OFF",
            LogLevel::Error => "ERROR",
            LogLevel::Warn => "WARN",
            LogLevel::Info => "INFO",
            LogLevel::Debug => "DEBUG",
            LogLevel::Trace => "TRACE",
        }
    }
}

/// The configuration of the system.
#[derive(Debug, Clone, Copy, PartialEq, Eq, Structural)]
pub struct SystemConfig {
    /// The cache size of the robots manager, never zero
    pub robots_cache_size: usize,
    /// The cache size of the webgraph manager, never zero
    pub web_graph_cache_size: usize,
    /// Max size of the download in memory. (default: 100MB)
    /// If set to 0 nothing will be stored in memory.
    pub max_file_size_in_memory: u64,
    /// The log level of the crawler
    pub log_level: LogLevel,
    /// Log to a file?
    pub log_to_file: bool,
}

pub fn _default_log_level() -> (r: LogLevel)
    ensures r == LogLevel::Info,
{
    LogLevel::Info
}

pub fn _default_cache_size_robots() -> (r: usize)
    ensures r == 32,
{
    DEFAULT_CACHE_SIZE_ROBOTS
}

pub fn _default_cache_size_web_graph() -> (r: usize)
    ensures r == 20_000,
{
    DEFAULT_CACHE_SIZE_WEB_GRAPH
}

pub fn _default_max_in_memory() -> (r: u64)
    ensures r == 100_000_000,
{
    default_max_size_in_memory_download()
}

impl SystemConfig {
    /// The cache sizes are not zero.
    pub open spec fn wf(self) -> bool {
        self.robots_cache_size > 0 && self.web_graph_cache_size > 0
    }

    /// True iff no cache size is zero.
    pub fn is_valid(&self) -> (r: bool)
        ensures r == self.wf(),
    {
        self.robots_cache_size > 0 && self.web_graph_cache_size > 0
    }
}

impl Default for SystemConfig {
    fn default() -> (r: Self)
        ensures
            r == (SystemConfig {
                robots_cache_size: 32,
                web_graph_cache_size: 20_000,
                max_file_size_in_memory: 100_000_000,
                log_level: LogLevel::Info,
                log_to_file: false,
            }),
            r.wf(),
    {
        Self {
            robots_cache_size: _default_cache_size_robots(),
            max_file_size_in_memory: _default_max_in_memory(),
            web_graph_cache_size: _default_cache_size_web_graph(),
            log_level: _default_log_level(),
            log_to_file: false,
        }
    }
}

/// The configuration of the session.
#[derive(Debug, Clone, PartialEq, Eq)]
pub struct SessionConfig {
    /// The name of the service
    pub service: String,
    /// The name of the collection created
    pub collection: String,
    /// The crawl job id
    pub crawl_job_id: u64,
    /// Apply some kind of compression to the warc archive?
    pub warc_compression_level: Option<u32>,
}

pub fn _default_service_name() -> (r: String)
    ensures r@ == "atra"@,
{
    String::from_str("atra")
}

pub fn _default_collection_name() -> (r: String)
    ensures r@ == "unnamed"@,
{
    String::from_str("unnamed")
}

impl Default for SessionConfig {
    fn default() -> (r: Self)
        ensures
            r.service@ == "atra"@,
            r.collection@ == "unnamed"@,
            r.crawl_job_id == 0,
            r.warc_compression_level is None,
    {
        Self {
            service: _default_service_name(),
            collection: _default_collection_name(),
            crawl_job_id: 0,
            warc_compression_level: None,
        }
    }
}

/// The paths the crawl works in.
#[derive(Debug, Clone, PartialEq, Eq)]
pub struct PathsConfig {
    /// The root path where the application runs.
    pub root: String,
}

impl Default for PathsConfig {
    fn default() -> (r: Self)
        ensures r.root@ == "./atra_data"@,
    {
        Self { root: String::from_str("./atra_data") }
    }
}

/// The user agent a crawl sends.
#[derive(Debug, Clone, PartialEq, Eq)]
pub enum UserAgent {
    /// A static agent that looks like a browser.
    Spoof,
    /// `Crawler/Atra/` and the version.
    Default,
    /// The given text.
    Custom(String),
}

impl UserAgent {
    /// The agent named on the command line: `spoof` and `default`, in any case, name those
    /// agents; any other text is a custom agent.
    pub fn from_arg(text: &str) -> (r: UserAgent)
        ensures
            same_ignoring_ascii_case(text@, "spoof"@) ==> r == UserAgent::Spoof,
            !same_ignoring_ascii_case(text@, "spoof"@) && same_ignoring_ascii_case(text@, "default"@)
                ==> r == UserAgent::Default,
            !same_ignoring_ascii_case(text@, "spoof"@) && !same_ignoring_ascii_case(text@, "default"@)
                ==> (r matches UserAgent::Custom(agent) && agent@ == text@),
    {
        if eq_ignore_ascii_case(text, "spoof") {
            UserAgent::Spoof
        } else if eq_ignore_ascii_case(text, "default") {
            UserAgent::Default
        } else {
            UserAgent::Custom(String::from_str(text))
        }
    }
}

/// Which redirects a crawl follows.
#[derive(Debug, Clone, Copy, PartialEq, Eq, Structural)]
pub enum RedirectPolicy {
    /// All redirects up to the redirect limit.
    Loose,
    /// Only redirects that stay with the domain that is crawled.
    Strict,
}

/// The configuration of the crawl.
#[derive(Debug, Clone)]
pub struct CrawlConfig {
    /// The user agent used by the crawler.
    pub user_agent: UserAgent,
    /// Respect robots.txt and do not fetch what it disallows.
    pub respect_robots_txt: bool,
    /// Respect the nofollow attribute during the link extraction.
    pub respect_nofollow: bool,
    /// Extract links to embedded data like audio and video files.
    pub crawl_embedded_data: bool,
    /// Extract links to and from javascript files.
    pub crawl_javascript: bool,
    /// Try to extract links from tags with an onclick attribute.
    pub crawl_onclick_by_heuristic: bool,
    /// Apply the gdbr filter where one is configured.
    pub apply_gdbr_filter_if_possible: bool,
    /// The maximum size in bytes to download; `None` means no limit.
    pub max_file_size: Option<u64>,
    /// The maximum age of a cached robots.txt; `None` means it never gets too old.
    pub max_robots_age: Option<CrawlDuration>,
    /// Allow sub-domains.
    pub subdomains: bool,
    /// Cache pages following the HTTP caching rules.
    pub cache: bool,
    /// Use cookies.
    pub use_cookies: bool,
    /// The cookies per domain and by default.
    pub cookies: Option<CookieSettings>,
    /// Headers to send with each request, as pairs of name and value.
    pub headers: Option<Vec<(String, String)>>,
    /// Proxies to send the requests through.
    pub proxies: Option<Vec<String>>,
    /// Allow all top-level domains for a domain.
    pub tld: bool,
    /// The most redirects followed for a request.
    pub redirect_limit: usize,
    /// Which redirects are followed.
    pub redirect_policy: RedirectPolicy,
    /// Accept invalid certificates.
    pub accept_invalid_certs: bool,
    /// The budget of the crawl.
    pub budget: CrawlBudget,
    /// How often an entry may be taken from the queue before it is dropped; 0 means never.
    pub max_queue_age: u32,
    /// Prevent including the sitemap links with the crawl.
    pub ignore_sitemap: bool,
    /// Only store html-files in the warc.
    pub store_only_html_in_warc: bool,
    /// Also write files that are kept outside of memory into the warc.
    pub store_big_file_hints_in_warc: bool,
    /// Decode files kept outside of memory up to this size in bytes; `None` means never.
    pub decode_big_files_up_to: Option<u64>,
    /// The pause between two requests to a host; `None` means no pause (default: 1 second).
    pub delay: Option<CrawlDuration>,
}

impl Default for CrawlConfig {
    fn default() -> (r: Self)
        ensures
            r.budget.default == (BudgetSetting::Normal {
                depth_on_website: 20,
                depth: 3,
                recrawl_interval: None,
                request_timeout: Some(CrawlDuration { seconds: 15, nanoseconds: 0 }),
            }),
            r.budget.per_host is None,
            r.max_queue_age == 20,
            !r.ignore_sitemap,
            !r.store_only_html_in_warc,
            !r.store_big_file_hints_in_warc,
            r.decode_big_files_up_to is None,
            r.delay == Some(CrawlDuration { seconds: 1, nanoseconds: 0 }),
            r.user_agent == UserAgent::Default,
            r.respect_robots_txt,
            r.respect_nofollow,
            !r.crawl_embedded_data,
            r.crawl_javascript,
            !r.crawl_onclick_by_heuristic,
            !r.apply_gdbr_filter_if_possible,
            r.max_file_size is None,
            r.max_robots_age is None,
            !r.subdomains,
            !r.cache,
            !r.use_cookies,
            r.cookies is None,
            r.headers is None,
            r.proxies is None,
            !r.tld,
            r.redirect_limit == 5,
            r.redirect_policy == RedirectPolicy::Loose,
            !r.accept_invalid_certs,
    {
        Self {
            user_agent: UserAgent::Default,
            respect_robots_txt: true,
            respect_nofollow: true,
            crawl_embedded_data: false,
            crawl_javascript: true,
            crawl_onclick_by_heuristic: false,
            apply_gdbr_filter_if_possible: false,
            max_file_size: None,
            max_robots_age: None,
            subdomains: false,
            cache: false,
            use_cookies: false,
            cookies: None,
            headers: None,
            proxies: None,
            tld: false,
            redirect_limit: 5,
            redirect_policy: RedirectPolicy::Loose,
            accept_invalid_certs: false,
            budget: CrawlBudget::default(),
            max_queue_age: 20,
            ignore_sitemap: false,
            store_only_html_in_warc: false,
            store_big_file_hints_in_warc: false,
            decode_big_files_up_to: None,
            delay: Some(CrawlDuration::seconds(1)),
        }
    }
}

/// The configuration of a crawl.
#[derive(Debug, Clone)]
pub struct Config {
    pub system: SystemConfig,
    pub paths: PathsConfig,
    pub session: SessionConfig,
    pub crawl: CrawlConfig,
}

impl Config {
    pub fn new(system: SystemConfig, paths: PathsConfig, session: SessionConfig, crawl: CrawlConfig) -> (r: Self)
        ensures r.system == system, r.paths == paths, r.session == session, r.crawl == crawl,
    {
        Self { system, paths, crawl, session }
    }
}

impl Default for Config {
    fn default() -> (r: Self)
        ensures
            r.system == (SystemConfig {
                robots_cache_size: 32,
                web_graph_cache_size: 20_000,
                max_file_size_in_memory: 100_000_000,
                log_level: LogLevel::Info,
                log_to_file: false,
            }),
            r.paths.root@ == "./atra_data"@,
            r.session.service@ == "atra"@,
            r.session.collection@ == "unnamed"@,
            r.session.crawl_job_id == 0,
            r.crawl.max_queue_age == 20,
    {
        Self {
            system: SystemConfig::default(),
            paths: PathsConfig::default(),
            session: SessionConfig::default(),
            crawl: CrawlConfig::default(),
        }
    }
}

/// The example configuration that is written for users to start from.
pub fn create_example_config() -> (r: Config)
    ensures
        r.crawl.user_agent matches UserAgent::Custom(agent) && agent@ == "My User Agent"@,
        r.crawl.respect_robots_txt,
        r.crawl.respect_nofollow,
        !r.crawl.crawl_embedded_data,
        r.crawl.crawl_javascript,
        r.crawl.crawl_onclick_by_heuristic,
        !r.crawl.apply_gdbr_filter_if_possible,
        r.crawl.max_file_size == Some(1_000_000_000u64),
        r.crawl.max_robots_age == Some(CrawlDuration { seconds: 1440, nanoseconds: 0 }),
        !r.crawl.subdomains,
        r.crawl.cache,
        r.crawl.use_cookies,
        r.crawl.cookies matches Some(c) && c.default is Some && c.default.unwrap()@ == "My Default cookie"@
            && c.per_host is Some && c.per_host.unwrap()@.len() == 1
            && c.per_host.unwrap()@[0].0@ == "google.de"@
            && c.per_host.unwrap()@[0].1@ == "My special google cookie"@,
        r.crawl.headers matches Some(h) && h@.len() == 2
            && h@[0].0@ == "host"@ && h@[0].1@ == "example. com"@
            && h@[1].0@ == "content-length"@ && h@[1].1@ == "123"@,
        r.crawl.proxies matches Some(p) && p@.len() == 1 && p@[0]@ == "myproxie.com"@,
        !r.crawl.tld,
        r.crawl.redirect_limit == 5,
        r.crawl.redirect_policy == RedirectPolicy::Loose,
        r.crawl.accept_invalid_certs,
        r.system == (SystemConfig {
            robots_cache_size: 32,
            web_graph_cache_size: 20_000,
            max_file_size_in_memory: 100_000_000,
            log_level: LogLevel::Info,
            log_to_file: false,
        }),
        r.paths.root@ == "./atra_data"@,
        r.session.service@ == "My Service"@,
        r.session.collection@ == "MyCollection"@,
        r.session.crawl_job_id == 0,
        r.session.warc_compression_level is None,
        r.crawl.store_only_html_in_warc,
        r.crawl.store_big_file_hints_in_warc,
        !r.crawl.ignore_sitemap,
        r.crawl.delay == Some(CrawlDuration { seconds: 10, nanoseconds: 0 }),
        r.crawl.max_queue_age == 30,
        r.crawl.decode_big_files_up_to == Some(1_000_000_000u64),
        r.crawl.budget.default == (BudgetSetting::Normal {
            depth_on_website: 9,
            depth: 2,
            recrawl_interval: None,
            request_timeout: Some(CrawlDuration { seconds: 1, nanoseconds: 0 }),
        }),
        r.crawl.budget.per_host matches Some(hosts) && hosts@.len() == 2
            && hosts@[0].0@ == "amazon.com"@
            && hosts@[0].1 == (BudgetSetting::Absolute {
                depth: 2,
                recrawl_interval: Some(CrawlDuration { seconds: 604_800, nanoseconds: 0 }),
                request_timeout: Some(CrawlDuration { seconds: 10, nanoseconds: 0 }),
            })
            && hosts@[1].0@ == "microsoft.com"@
            && hosts@[1].1 == (BudgetSetting::SeedOnly {
                depth_on_website: 6,
                recrawl_interval: Some(CrawlDuration { seconds: 604_800, nanoseconds: 0 }),
                request_timeout: Some(CrawlDuration { seconds: 10, nanoseconds: 0 }),
            }),
{
    let week = CrawlDuration::seconds(604_800);
    let ten_seconds = CrawlDuration::seconds(10);
    let mut hosts: Vec<(String, BudgetSetting)> = Vec::new();
    hosts.push((
        String::from_str("amazon.com"),
        BudgetSetting::Absolute { depth: 2, recrawl_interval: Some(week), request_timeout: Some(ten_seconds) },
    ));
    hosts.push((
        String::from_str("microsoft.com"),
        BudgetSetting::SeedOnly { depth_on_website: 6, recrawl_interval: Some(week), request_timeout: Some(ten_seconds) },
    ));
    let mut cookie_hosts: Vec<(String, String)> = Vec::new();
    cookie_hosts.push((String::from_str("google.de"), String::from_str("My special google cookie")));
    let mut headers: Vec<(String, String)> = Vec::new();
    headers.push((String::from_str("host"), String::from_str("example. com")));
    headers.push((String::from_str("content-length"), String::from_str("123")));
    let mut proxies: Vec<String> = Vec::new();
    proxies.push(String::from_str("myproxie.com"));
    let crawl = CrawlConfig {
        user_agent: UserAgent::Custom(String::from_str("My User Agent")),
        respect_robots_txt: true,
        respect_nofollow: true,
        crawl_embedded_data: false,
        crawl_javascript: true,
        crawl_onclick_by_heuristic: true,
        apply_gdbr_filter_if_possible: false,
        max_file_size: Some(gigabytes_as_bytes(1)),
        max_robots_age: Some(CrawlDuration::seconds(1440)),
        subdomains: false,
        cache: true,
        use_cookies: true,
        cookies: Some(CookieSettings {
            default: Some(String::from_str("My Default cookie")),
            per_host: Some(cookie_hosts),
        }),
        headers: Some(headers),
        proxies: Some(proxies),
        tld: false,
        redirect_limit: 5,
        redirect_policy: RedirectPolicy::Loose,
        accept_invalid_certs: true,
        budget: CrawlBudget {
            default: BudgetSetting::Normal {
                depth_on_website: 9,
                depth: 2,
                recrawl_interval: None,
                request_timeout: Some(CrawlDuration::seconds(1)),
            },
            per_host: Some(hosts),
        },
        max_queue_age: 30,
        ignore_sitemap: false,
        store_only_html_in_warc: true,
        store_big_file_hints_in_warc: true,
        decode_big_files_up_to: Some(gigabytes_as_bytes(1)),
        delay: Some(CrawlDuration::seconds(10)),
    };
    Config {
        system: SystemConfig::default(),
        paths: PathsConfig::default(),
        session: SessionConfig {
            service: String::from_str("My Service"),
            collection: String::from_str("MyCollection"),
            crawl_job_id: 0,
            warc_compression_level: None,
        },
        crawl,
    }
}

} // verus!
