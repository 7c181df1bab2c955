use atra::budget::{BudgetSetting, CrawlDuration};
use atra::config::{
    RedirectPolicy, UserAgent,
    create_example_config, default_max_size_in_memory_download, Config, CrawlConfig, LogLevel,
    PathsConfig, SessionConfig, SystemConfig,
};

#[test]
fn defaults_are_those_of_the_documentation() {
    let system = SystemConfig::default();
    assert_eq!(system.robots_cache_size, 32);
    assert_eq!(system.web_graph_cache_size, 20_000);
    assert_eq!(system.max_file_size_in_memory, 100_000_000);
    assert_eq!(system.log_level, LogLevel::Info);
    assert!(!system.log_to_file);
    assert_eq!(PathsConfig::default().root, "./atra_data");
    let session = SessionConfig::default();
    assert_eq!(session.service, "atra");
    assert_eq!(session.collection, "unnamed");
    assert_eq!(session.crawl_job_id, 0);
    assert_eq!(session.warc_compression_level, None);
    let crawl = CrawlConfig::default();
    assert_eq!(crawl.max_queue_age, 20);
    assert!(!crawl.ignore_sitemap);
    assert_eq!(crawl.decode_big_files_up_to, None);
    assert_eq!(crawl.delay, Some(CrawlDuration::seconds(1)));
    assert_eq!(crawl.budget.default, BudgetSetting::default());
    assert!(crawl.budget.per_host.is_none());
}

#[test]
fn the_in_memory_limit_is_one_hundred_megabytes() {
    assert_eq!(default_max_size_in_memory_download(), 100 * 1_000_000);
}

#[test]
fn a_config_is_made_of_its_parts() {
    let mut system = SystemConfig::default();
    system.log_level = LogLevel::Trace;
    let config = Config::new(system, PathsConfig::default(), SessionConfig::default(), CrawlConfig::default());
    assert_eq!(config.system.log_level, LogLevel::Trace);
    assert_eq!(Config::default().paths.root, "./atra_data");
}

#[test]
fn can_generate_example_config() {
    let config = create_example_config();
    assert_eq!(config.session.service, "My Service");
    assert_eq!(config.session.collection, "MyCollection");
    assert!(config.crawl.store_only_html_in_warc);
    assert!(config.crawl.store_big_file_hints_in_warc);
    assert_eq!(config.crawl.max_queue_age, 30);
    assert_eq!(config.crawl.redirect_limit, 5);
    assert_eq!(config.crawl.redirect_policy, RedirectPolicy::Loose);
    assert_eq!(config.crawl.user_agent, UserAgent::Custom("My User Agent".to_string()));
    assert_eq!(config.crawl.max_file_size, Some(1_000_000_000));
    assert_eq!(config.crawl.max_robots_age, Some(CrawlDuration::seconds(1440)));
    assert!(config.crawl.accept_invalid_certs && config.crawl.cache && config.crawl.use_cookies);
    assert_eq!(config.crawl.proxies, Some(vec!["myproxie.com".to_string()]));
    assert_eq!(config.crawl.decode_big_files_up_to, Some(1_000_000_000));
    assert_eq!(config.crawl.delay, Some(CrawlDuration::seconds(10)));
    assert_eq!(
        config.crawl.budget.default,
        BudgetSetting::Normal {
            depth_on_website: 9,
            depth: 2,
            recrawl_interval: None,
            request_timeout: Some(CrawlDuration::seconds(1)),
        }
    );
    let hosts = config.crawl.budget.per_host.unwrap();
    assert_eq!(hosts.len(), 2);
    assert_eq!(hosts[0].0, "amazon.com");
    assert_eq!(hosts[1].1.kind_name(), "SeedOnly");
    assert_eq!(hosts[1].1.get_recrawl_interval(), Some(&CrawlDuration::seconds(604_800)));
}

#[test]
fn the_crawl_defaults_follow_the_documentation() {
    let crawl = CrawlConfig::default();
    assert_eq!(crawl.user_agent, UserAgent::Default);
    assert_eq!(crawl.redirect_limit, 5);
    assert_eq!(crawl.redirect_policy, RedirectPolicy::Loose);
    assert!(crawl.respect_robots_txt && crawl.respect_nofollow && crawl.crawl_javascript);
    assert!(!crawl.crawl_embedded_data && !crawl.crawl_onclick_by_heuristic && !crawl.subdomains);
    assert!(!crawl.cache && !crawl.use_cookies && !crawl.tld && !crawl.accept_invalid_certs);
    assert_eq!(crawl.max_file_size, None);
    assert_eq!(UserAgent::from_arg("spoof"), UserAgent::Spoof);
    assert_eq!(UserAgent::from_arg("Default"), UserAgent::Default);
    assert_eq!(UserAgent::from_arg("TestCrawl/Atra/v0.1.0"), UserAgent::Custom("TestCrawl/Atra/v0.1.0".to_string()));
}

#[test]
fn cache_sizes_of_zero_are_not_valid() {
    let mut system = SystemConfig::default();
    assert!(system.is_valid());
    system.robots_cache_size = 0;
    assert!(!system.is_valid());
    let mut other = SystemConfig::default();
    other.web_graph_cache_size = 0;
    assert!(!other.is_valid());
}
