//! What a run of the crawler is asked to do, built from the arguments and the loaded configuration.

use vstd::prelude::*;
use crate::budget::{BudgetSetting, CrawlBudget, CrawlDuration};
use crate::config::{Config, CrawlConfig, LogLevel, UserAgent};

verus! {

/// How the application runs.
#[derive(Debug, Clone, Copy, PartialEq, Eq, Structural)]
pub enum ApplicationMode {
    /// On one thread.
    Single,
    /// On several threads: the given number, or as many as the machine offers.
    Multi(Option<usize>),
}

impl ApplicationMode {
    /// A thread count, where the mode has one, is not zero.
    pub open spec fn is_valid(self) -> bool {
        match self {
            ApplicationMode::Multi(Some(n)) => n > 0,
            _ => true,
        }
    }
}

/// The thread count `threads`, where it is one and not zero.
pub open spec fn nonzero_threads(threads: Option<usize>) -> Option<usize> {
    match threads {
        Some(n) => if n > 0 { Some(n) } else { None },
        None => None,
    }
}

/// The mode of a crawl of several seeds: a thread count of zero counts as none.
pub fn multi_mode(threads: Option<usize>) -> (r: ApplicationMode)
    ensures
        r == ApplicationMode::Multi(nonzero_threads(threads)),
        r.is_valid(),
{
    match threads {
        Some(n) => if n > 0 { ApplicationMode::Multi(Some(n)) } else { ApplicationMode::Multi(None) },
        None => ApplicationMode::Multi(None),
    }
}

/// The mode of a recovered crawl with the thread count `threads`.
pub open spec fn recover_mode_spec(threads: Option<usize>) -> ApplicationMode {
    match threads {
        Some(n) => if n == 1 {
            ApplicationMode::Single
        } else if n == 0 {
            ApplicationMode::Multi(None)
        } else {
            ApplicationMode::Multi(Some(n))
        },
        None => ApplicationMode::Multi(None),
    }
}

/// The mode of a recovered crawl: no thread count or zero runs on as many threads as the
/// machine offers, one runs single, more run on that many.
pub fn recover_mode(threads: Option<usize>) -> (r: ApplicationMode)
    ensures
        r == recover_mode_spec(threads),
        r.is_valid(),
{
    match threads {
        None => ApplicationMode::Multi(None),
        Some(n) => {
            if n == 0 {
                ApplicationMode::Multi(None)
            } else if n == 1 {
                ApplicationMode::Single
            } else {
                ApplicationMode::Multi(Some(n))
            }
        },
    }
}

/// The seeds a crawl starts from.
#[derive(Debug, Clone)]
pub enum SeedDefinition {
    /// One seed url.
    Single(String),
    /// Several seed urls.
    Multi(Vec<String>),
}

/// Where the seeds given on the command line come from.
#[derive(Debug, Clone, PartialEq, Eq)]
pub enum SeedSource {
    /// A file with one url per line, at the path.
    File(String),
    /// A single url.
    Url(String),
}

/// The prefix that names a file of seeds.
pub open spec fn file_prefix() -> Seq<char> {
    seq!['f', 'i', 'l', 'e', ':']
}

/// Reads a seed argument: `file:` followed by a path names a file of seeds, anything else is
/// an url.
pub fn seed_source(arg: &str) -> (r: SeedSource)
    ensures
        (arg@.len() >= 5 && arg@.subrange(0, 5) == file_prefix())
            ==> (r matches SeedSource::File(path) && path@ == arg@.subrange(5, arg@.len() as int)),
        !(arg@.len() >= 5 && arg@.subrange(0, 5) == file_prefix())
            ==> (r matches SeedSource::Url(url) && url@ == arg@),
{
    let n = arg.unicode_len();
    let prefix = ['f', 'i', 'l', 'e', ':'];
    let mut is_file = n >= 5;
    let mut i: usize = 0;
    while i < 5 && is_file
        invariant
            n == arg@.len(),
            i <= 5,
            prefix@ == file_prefix(),
            is_file ==> n >= 5,
            is_file == (n >= 5 && forall|j: int| 0 <= j < i ==> arg@[j] == prefix@[j]),
        decreases 5 - i,
    {
        if arg.get_char(i) != prefix[i] {
            is_file = false;
        }
        i = i + 1;
    }
    if is_file {
        assert(arg@.subrange(0, 5) =~= file_prefix());
        SeedSource::File(arg.substring_char(5, n).to_owned())
    } else {
        proof {
            if n >= 5 {
                assert(i < 5 || !is_file);
                if arg@.subrange(0, 5) == file_prefix() {
                    assert forall|j: int| 0 <= j < 5 implies arg@[j] == prefix@[j] by {
                        assert(arg@.subrange(0, 5)[j] == arg@[j]);
                    }
                }
            }
        }
        SeedSource::Url(arg.to_owned())
    }
}

/// The instruction to run the crawler.
#[derive(Debug)]
pub struct RunInstruction {
    pub mode: ApplicationMode,
    pub config: Config,
    pub seeds: Option<SeedDefinition>,
    pub recover_mode: bool,
}

/// The kind of instruction given by the arguments.
#[derive(Debug)]
pub enum Instruction {
    RunInstruction(RunInstruction),
    Nothing,
}

/// The default budget of a crawl of one seed: `absolute` follows links off the seed's site
/// up to `depth` jumps, otherwise the crawl stays on the site up to that depth.
pub open spec fn single_budget(absolute: bool, depth: u64, request_timeout: Option<CrawlDuration>) -> BudgetSetting {
    if absolute {
        BudgetSetting::Absolute { depth, recrawl_interval: None, request_timeout }
    } else {
        BudgetSetting::SeedOnly { depth_on_website: depth, recrawl_interval: None, request_timeout }
    }
}

/// The default budget of a crawl of one seed.
pub fn single_mode_budget(absolute: bool, depth: u64, request_timeout: Option<CrawlDuration>) -> (r: BudgetSetting)
    ensures r == single_budget(absolute, depth, request_timeout),
{
    if absolute {
        BudgetSetting::Absolute { depth, recrawl_interval: None, request_timeout }
    } else {
        BudgetSetting::SeedOnly { depth_on_website: depth, recrawl_interval: None, request_timeout }
    }
}

/// The pause of `millis` milliseconds.
pub open spec fn millis_duration(millis: u64) -> CrawlDuration {
    CrawlDuration { seconds: (millis / 1000) as i64, nanoseconds: ((millis % 1000) * 1_000_000) as i32 }
}

/// The pause of `millis` milliseconds, as seconds and the nanoseconds of the last second.
pub fn delay_from_millis(millis: u64) -> (r: CrawlDuration)
    ensures
        r == millis_duration(millis),
        r.is_normalized(),
        r.total_nanos() == millis * 1_000_000,
{
    let seconds: u64 = millis / 1000;
    let rest: u64 = millis % 1000;
    let r = CrawlDuration { seconds: seconds as i64, nanoseconds: (rest * 1_000_000) as i32 };
    assert(r.seconds * 1_000_000_000 + r.nanoseconds == millis * 1_000_000) by (nonlinear_arith)
        requires
            r.seconds == millis / 1000,
            r.nanoseconds == (millis % 1000) * 1_000_000,
    ;
    r
}

/// The `n` bytes of `x` in big-endian order: the last is `x % 256`.
pub open spec fn big_endian(x: nat, n: nat) -> Seq<u8>
    decreases n,
{
    if n == 0 {
        Seq::empty()
    } else {
        big_endian(x / 256, (n - 1) as nat).push((x % 256) as u8)
    }
}

/// The `n` bytes of `x` in big-endian order.
fn big_endian_bytes(x: u128, n: usize) -> (r: Vec<u8>)
    requires n <= 16,
    ensures
        r@ == big_endian(x as nat, n as nat),
        r@.len() == n,
    decreases n,
{
    if n == 0 {
        Vec::new()
    } else {
        let mut v = big_endian_bytes(x / 256, n - 1);
        v.push((x % 256) as u8);
        v
    }
}

/// The bit pattern of `t` in 128-bit two's complement, read as an unsigned number.
pub open spec fn twos_complement(t: i128) -> nat {
    if t >= 0 {
        t as nat
    } else {
        (t + 0x1_0000_0000_0000_0000_0000_0000_0000_0000int) as nat
    }
}

/// The bit pattern of `t`, read as an unsigned number.
fn twos_complement_of(t: i128) -> (r: u128)
    ensures r == twos_complement(t),
{
    if t >= 0 {
        t as u128
    } else {
        let shifted: i128 = t + i128::MAX + 1;
        (shifted as u128) + 0x8000_0000_0000_0000_0000_0000_0000_0000u128
    }
}

/// What `data_encoding::BASE64URL.encode` gives for the bytes `bytes`.
pub uninterp spec fn base64url_of(bytes: Seq<u8>) -> Seq<char>;

/// `data_encoding::BASE64URL.encode`: the url-safe base64 text of `bytes`, with padding,
/// four characters for every three bytes begun.
#[verifier::external_body]
fn base64url(bytes: &Vec<u8>) -> (r: String)
    requires bytes@.len() <= usize::MAX / 512,
    ensures
        r@ == base64url_of(bytes@),
        r@.len() == 4 * ((bytes@.len() + 2) / 3),
{
    data_encoding::BASE64URL.encode(bytes.as_slice())
}

/// The name of the directory of a session of the kind `single`, begun at the time
/// `timestamp_nanos` with the random number `random`.
pub open spec fn root_dir_name_spec(single: bool, timestamp_nanos: i128, random: u64) -> Seq<char> {
    (if single { "single_"@ } else { "multi_"@ })
        + base64url_of(big_endian(twos_complement(timestamp_nanos), 16))
        + "_"@
        + base64url_of(big_endian(random as nat, 8))
}

/// The name of the directory of a session: its kind, then the url-safe base64 text of the
/// big-endian bytes of the time in nanoseconds and of a random number, joined by `_`.
pub fn root_dir_name(single: bool, timestamp_nanos: i128, random: u64) -> (r: String)
    ensures r@ == root_dir_name_spec(single, timestamp_nanos, random),
{
    let mut name = if single {
        String::from_str("single_")
    } else {
        String::from_str("multi_")
    };
    let time_bytes = big_endian_bytes(twos_complement_of(timestamp_nanos), 16);
    let time_text = base64url(&time_bytes);
    name.append(time_text.as_str());
    name.append("_");
    let random_bytes = big_endian_bytes(random as u128, 8);
    let random_text = base64url(&random_bytes);
    name.append(random_text.as_str());
    name
}

/// `time::OffsetDateTime::now_utc().unix_timestamp_nanos()`: the nanoseconds since the Unix
/// epoch at the time of the call. Nothing is stated of the value, which depends on the clock.
#[verifier::external_body]
fn now_unix_timestamp_nanos() -> i128 {
    time::OffsetDateTime::now_utc().unix_timestamp_nanos()
}

/// `rand::random::<u64>()`: a random number. Nothing is stated of its value.
#[verifier::external_body]
fn random_u64() -> u64 {
    rand::random::<u64>()
}

/// A fresh name for the directory of a session, from the clock and a random number.
pub fn fresh_root_dir_name(single: bool) -> (r: String)
    ensures exists|t: i128, x: u64| r@ == root_dir_name_spec(single, t, x),
{
    let t = now_unix_timestamp_nanos();
    let x = random_u64();
    root_dir_name(single, t, x)
}

/// What `data_encoding::BASE64URL_NOPAD.encode` gives for the bytes `bytes`.
pub uninterp spec fn base64url_nopad_of(bytes: Seq<u8>) -> Seq<char>;

/// `data_encoding::BASE64URL_NOPAD.encode`: the url-safe base64 text of `bytes` without
/// padding, one character for every six bits begun.
#[verifier::external_body]
fn base64url_nopad(bytes: &Vec<u8>) -> (r: String)
    requires bytes@.len() <= usize::MAX / 512,
    ensures
        r@ == base64url_nopad_of(bytes@),
        r@.len() == (4 * bytes@.len() + 2) / 3,
{
    data_encoding::BASE64URL_NOPAD.encode(bytes.as_slice())
}

/// True iff `c` is an ASCII letter or digit.
pub open spec fn is_ascii_alphanumeric(c: char) -> bool {
    ('A' <= c <= 'Z') || ('a' <= c <= 'z') || ('0' <= c <= '9')
}

/// `rand::thread_rng().sample_iter(&rand::distributions::Alphanumeric)`, `n` samples as
/// characters: `n` random ASCII letters and digits. Which ones is not stated.
#[verifier::external_body]
fn random_alphanumeric(n: usize) -> (r: String)
    ensures
        r@.len() == n,
        forall|i: int| 0 <= i < n ==> is_ascii_alphanumeric(#[trigger] r@[i]),
{
    rand::Rng::sample_iter(rand::thread_rng(), &rand::distributions::Alphanumeric)
        .take(n)
        .map(char::from)
        .collect()
}

/// The id of a crawl begun at the time `timestamp_nanos`, with the random text `suffix`.
pub open spec fn crawl_id_spec(timestamp_nanos: i128, suffix: Seq<char>) -> Seq<char> {
    "crawl-"@ + base64url_nopad_of(big_endian(twos_complement(timestamp_nanos), 16)) + "-"@ + suffix
}

/// The id of a crawl: `crawl-`, the url-safe base64 text without padding of the big-endian
/// bytes of the time in nanoseconds, `-`, and the random text `suffix`.
pub fn crawl_id(timestamp_nanos: i128, suffix: &str) -> (r: String)
    ensures
        r@ == crawl_id_spec(timestamp_nanos, suffix@),
        base64url_nopad_of(big_endian(twos_complement(timestamp_nanos), 16)).len() == 22,
        r@.len() == 29 + suffix@.len(),
{
    let mut id = String::from_str("crawl-");
    let time_bytes = big_endian_bytes(twos_complement_of(timestamp_nanos), 16);
    let time_text = base64url_nopad(&time_bytes);
    id.append(time_text.as_str());
    id.append("-");
    id.append(suffix);
    proof {
        reveal_strlit("crawl-");
        reveal_strlit("-");
    }
    id
}

/// A fresh id for a crawl, from the clock and fifteen random letters and digits.
pub fn fresh_crawl_id() -> (r: String)
    ensures
        exists|t: i128, suffix: Seq<char>| suffix.len() == 15
            && (forall|i: int| 0 <= i < 15 ==> is_ascii_alphanumeric(#[trigger] suffix[i]))
            && r@ == crawl_id_spec(t, suffix)
            && base64url_nopad_of(big_endian(twos_complement(t), 16)).len() == 22,
        r@.len() == 44,
{
    let t = now_unix_timestamp_nanos();
    let suffix = random_alphanumeric(15);
    crawl_id(t, suffix.as_str())
}

/// Sets the name of the service, where one is given.
fn rename_service(config: &mut Config, session_name: Option<String>)
    ensures
        final(config).session.service == match session_name {
            Some(name) => name,
            None => old(config).session.service,
        },
        final(config).session.collection == old(config).session.collection,
        final(config).session.crawl_job_id == old(config).session.crawl_job_id,
        final(config).session.warc_compression_level == old(config).session.warc_compression_level,
        final(config).system == old(config).system,
        final(config).paths == old(config).paths,
        final(config).crawl == old(config).crawl,
{
    match session_name {
        Some(name) => {
            config.session.service = name;
        },
        None => {},
    }
}

/// `crawl` with the default budget `budget`, the pause `delay` and the user agent `agent`, and
/// everything else as it is.
pub open spec fn single_run_crawl(crawl: CrawlConfig, budget: BudgetSetting, delay: Option<CrawlDuration>, agent: UserAgent) -> CrawlConfig {
    CrawlConfig {
        user_agent: agent,
        delay,
        budget: CrawlBudget { default: budget, per_host: crawl.budget.per_host },
        ..crawl
    }
}

/// A crawl of one seed replaces only the default budget, the pause and the user agent of the
/// loaded crawl configuration: the budgets of single hosts and every other setting stay.
pub proof fn law_single_run_keeps_the_loaded_crawl_settings(
    crawl: CrawlConfig,
    budget: BudgetSetting,
    delay: Option<CrawlDuration>,
    agent: UserAgent,
)
    ensures
        ({
            let r = single_run_crawl(crawl, budget, delay, agent);
            &&& r.budget.default == budget
            &&& r.budget.per_host == crawl.budget.per_host
            &&& r.delay == delay
            &&& r.user_agent == agent
            &&& r.max_queue_age == crawl.max_queue_age
            &&& r.ignore_sitemap == crawl.ignore_sitemap
            &&& r.store_only_html_in_warc == crawl.store_only_html_in_warc
            &&& r.store_big_file_hints_in_warc == crawl.store_big_file_hints_in_warc
            &&& r.decode_big_files_up_to == crawl.decode_big_files_up_to
            &&& r.respect_robots_txt == crawl.respect_robots_txt
            &&& r.respect_nofollow == crawl.respect_nofollow
            &&& r.crawl_embedded_data == crawl.crawl_embedded_data
            &&& r.crawl_javascript == crawl.crawl_javascript
            &&& r.crawl_onclick_by_heuristic == crawl.crawl_onclick_by_heuristic
            &&& r.apply_gdbr_filter_if_possible == crawl.apply_gdbr_filter_if_possible
            &&& r.max_file_size == crawl.max_file_size
            &&& r.max_robots_age == crawl.max_robots_age
            &&& r.subdomains == crawl.subdomains
            &&& r.cache == crawl.cache
            &&& r.use_cookies == crawl.use_cookies
            &&& r.cookies == crawl.cookies
            &&& r.headers == crawl.headers
            &&& r.proxies == crawl.proxies
            &&& r.tld == crawl.tld
            &&& r.redirect_limit == crawl.redirect_limit
            &&& r.redirect_policy == crawl.redirect_policy
            &&& r.accept_invalid_certs == crawl.accept_invalid_certs
        }),
{
}

/// The instruction of a crawl of one seed: `config` as it was loaded, with the session's
/// directory `root`, the service `session_name` where one is given, the default budget of
/// `single_budget`, the pause of `delay_millis` milliseconds, the user agent `agent`, and the
/// logging as given.
pub fn prepare_single_run(
    config: Config,
    root: String,
    session_name: Option<String>,
    absolute: bool,
    depth: u64,
    request_timeout: Option<CrawlDuration>,
    delay_millis: Option<u64>,
    log_level: LogLevel,
    log_to_file: bool,
    agent: UserAgent,
    seeds: SeedDefinition,
) -> (r: RunInstruction)
    ensures
        r.mode == ApplicationMode::Single,
        r.seeds == Some(seeds),
        !r.recover_mode,
        r.config.paths.root == root,
        r.config.session.service == match session_name {
            Some(name) => name,
            None => config.session.service,
        },
        r.config.session.collection == config.session.collection,
        r.config.session.crawl_job_id == config.session.crawl_job_id,
        r.config.session.warc_compression_level == config.session.warc_compression_level,
        r.config.crawl == single_run_crawl(config.crawl, single_budget(absolute, depth, request_timeout),
            match delay_millis {
                Some(ms) => Some(millis_duration(ms)),
                None => None,
            },
            agent),
        r.config.crawl.budget.per_host == config.crawl.budget.per_host,
        r.config.crawl.budget.default == single_budget(absolute, depth, request_timeout),
        r.config.crawl.user_agent == agent,
        r.config.system.log_level == log_level,
        r.config.system.log_to_file == log_to_file,
        r.config.system.robots_cache_size == config.system.robots_cache_size,
        r.config.system.web_graph_cache_size == config.system.web_graph_cache_size,
        r.config.system.max_file_size_in_memory == config.system.max_file_size_in_memory,
{
    let mut config = config;
    config.paths.root = root;
    rename_service(&mut config, session_name);
    config.crawl.budget.default = single_mode_budget(absolute, depth, request_timeout);
    config.crawl.delay = match delay_millis {
        Some(ms) => Some(delay_from_millis(ms)),
        None => None,
    };
    config.crawl.user_agent = agent;
    config.system.log_level = log_level;
    config.system.log_to_file = log_to_file;
    RunInstruction { mode: ApplicationMode::Single, config, seeds: Some(seeds), recover_mode: false }
}

/// The instruction of a crawl of several seeds: `config` as it was loaded, with the session's
/// directory `root`, the service `session_name` and the log level `log_level` where they are
/// given, and logging to a file as given.
pub fn prepare_multi_run(
    config: Config,
    root: String,
    session_name: Option<String>,
    threads: Option<usize>,
    log_level: Option<LogLevel>,
    log_to_file: bool,
    seeds: SeedDefinition,
) -> (r: RunInstruction)
    ensures
        r.mode == ApplicationMode::Multi(nonzero_threads(threads)),
        r.seeds == Some(seeds),
        !r.recover_mode,
        r.config.paths.root == root,
        r.config.session.service == match session_name {
            Some(name) => name,
            None => config.session.service,
        },
        r.config.session.collection == config.session.collection,
        r.config.session.crawl_job_id == config.session.crawl_job_id,
        r.config.session.warc_compression_level == config.session.warc_compression_level,
        r.config.crawl == config.crawl,
        r.config.system.log_level == match log_level {
            Some(level) => level,
            None => config.system.log_level,
        },
        r.config.system.log_to_file == log_to_file,
        r.config.system.robots_cache_size == config.system.robots_cache_size,
        r.config.system.web_graph_cache_size == config.system.web_graph_cache_size,
        r.config.system.max_file_size_in_memory == config.system.max_file_size_in_memory,
{
    let mut config = config;
    config.paths.root = root;
    config.system.log_to_file = log_to_file;
    rename_service(&mut config, session_name);
    match log_level {
        Some(level) => {
            config.system.log_level = level;
        },
        None => {},
    }
    RunInstruction { mode: multi_mode(threads), config, seeds: Some(seeds), recover_mode: false }
}

/// The instruction to continue a crawl: `config` as it was loaded from the crawl's directory,
/// logging to a file if asked (never switching it off), on the threads of `recover_mode`,
/// with no new seeds.
pub fn prepare_recover_run(config: Config, threads: Option<usize>, log_to_file: bool) -> (r: RunInstruction)
    ensures
        r.mode == recover_mode_spec(threads),
        r.seeds is None,
        r.recover_mode,
        r.config.paths == config.paths,
        r.config.session == config.session,
        r.config.crawl == config.crawl,
        r.config.system.log_to_file == (log_to_file || config.system.log_to_file),
        r.config.system.log_level == config.system.log_level,
        r.config.system.robots_cache_size == config.system.robots_cache_size,
        r.config.system.web_graph_cache_size == config.system.web_graph_cache_size,
        r.config.system.max_file_size_in_memory == config.system.max_file_size_in_memory,
{
    let mut config = config;
    if log_to_file {
        config.system.log_to_file = log_to_file;
    }
    RunInstruction { mode: recover_mode(threads), config, seeds: None, recover_mode: true }
}

} // verus!
