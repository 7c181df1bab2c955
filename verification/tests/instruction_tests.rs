use atra::budget::{BudgetSetting, CrawlDuration};
use atra::config::{Config, LogLevel, UserAgent};
use atra::instruction::{
    crawl_id, fresh_crawl_id, seed_source, SeedSource,
    delay_from_millis, fresh_root_dir_name, multi_mode, prepare_multi_run, prepare_recover_run,
    prepare_single_run, recover_mode, root_dir_name, single_mode_budget, ApplicationMode,
    Instruction, SeedDefinition,
};

#[test]
fn recovering_picks_the_mode_by_the_thread_count() {
    assert_eq!(recover_mode(None), ApplicationMode::Multi(None));
    assert_eq!(recover_mode(Some(0)), ApplicationMode::Multi(None));
    assert_eq!(recover_mode(Some(1)), ApplicationMode::Single);
    assert_eq!(recover_mode(Some(8)), ApplicationMode::Multi(Some(8)));
}

#[test]
fn a_multi_crawl_ignores_a_thread_count_of_zero() {
    assert_eq!(multi_mode(None), ApplicationMode::Multi(None));
    assert_eq!(multi_mode(Some(0)), ApplicationMode::Multi(None));
    assert_eq!(multi_mode(Some(1)), ApplicationMode::Multi(Some(1)));
    assert_eq!(multi_mode(Some(4)), ApplicationMode::Multi(Some(4)));
}

#[test]
fn the_single_budget_is_absolute_or_seed_only() {
    let timeout = Some(CrawlDuration::seconds(3));
    assert_eq!(
        single_mode_budget(true, 2, timeout),
        BudgetSetting::Absolute { depth: 2, recrawl_interval: None, request_timeout: timeout }
    );
    assert_eq!(
        single_mode_budget(false, 2, None),
        BudgetSetting::SeedOnly { depth_on_website: 2, recrawl_interval: None, request_timeout: None }
    );
}

#[test]
fn delays_are_split_into_seconds_and_nanoseconds() {
    assert_eq!(delay_from_millis(300), CrawlDuration { seconds: 0, nanoseconds: 300_000_000 });
    assert_eq!(delay_from_millis(2500), CrawlDuration { seconds: 2, nanoseconds: 500_000_000 });
    assert_eq!(delay_from_millis(0), CrawlDuration { seconds: 0, nanoseconds: 0 });
    assert_eq!(
        delay_from_millis(u64::MAX),
        CrawlDuration { seconds: (u64::MAX / 1000) as i64, nanoseconds: 615_000_000 }
    );
}

#[test]
fn root_directory_names_encode_time_and_random_number() {
    assert_eq!(root_dir_name(true, 0, 0), "single_AAAAAAAAAAAAAAAAAAAAAA==_AAAAAAAAAAA=");
    assert_eq!(root_dir_name(false, -1, 1), "multi______________________w==_AAAAAAAAAAE=");
    assert_eq!(
        root_dir_name(true, 1_700_000_000_123_456_789, 0xfbff),
        "single_AAAAAAAAAAAXl5z-PYXNFQ==_AAAAAAAA-_8="
    );
    let fresh = fresh_root_dir_name(false);
    assert!(fresh.starts_with("multi_"));
    assert_eq!(fresh.len(), "multi_".len() + 24 + 1 + 12);
}

#[test]
fn a_single_crawl_is_configured_from_its_arguments() {
    let instruction = prepare_single_run(
        Config::default(),
        "atra_data/single_x".to_string(),
        Some("test".to_string()),
        true,
        2,
        None,
        Some(300),
        LogLevel::Trace,
        true,
        UserAgent::Custom("TestCrawl/Atra/v0.1.0".to_string()),
        SeedDefinition::Single("https://choosealicense.com/".to_string()),
    );
    assert_eq!(instruction.config.crawl.user_agent, UserAgent::Custom("TestCrawl/Atra/v0.1.0".to_string()));
    assert_eq!(instruction.config.crawl.redirect_limit, 5);
    assert_eq!(instruction.mode, ApplicationMode::Single);
    assert!(!instruction.recover_mode);
    assert_eq!(instruction.config.paths.root, "atra_data/single_x");
    assert_eq!(instruction.config.session.service, "test");
    assert_eq!(instruction.config.session.collection, "unnamed");
    assert_eq!(
        instruction.config.crawl.budget.default,
        BudgetSetting::Absolute { depth: 2, recrawl_interval: None, request_timeout: None }
    );
    assert_eq!(instruction.config.crawl.delay, Some(CrawlDuration { seconds: 0, nanoseconds: 300_000_000 }));
    assert_eq!(instruction.config.system.log_level, LogLevel::Trace);
    assert!(instruction.config.system.log_to_file);
    assert!(matches!(instruction.seeds, Some(SeedDefinition::Single(ref s)) if s == "https://choosealicense.com/"));
    let wrapped = Instruction::RunInstruction(instruction);
    assert!(matches!(wrapped, Instruction::RunInstruction(_)));
}

#[test]
fn a_multi_crawl_keeps_the_configured_log_level_unless_overridden() {
    let seeds = SeedDefinition::Multi(vec!["http://www.aperco.info".to_string(), "https://ticktoo.com/".to_string()]);
    let kept = prepare_multi_run(Config::default(), "r".to_string(), None, Some(0), None, false, seeds.clone());
    assert_eq!(kept.mode, ApplicationMode::Multi(None));
    assert_eq!(kept.config.system.log_level, LogLevel::Info);
    assert_eq!(kept.config.session.service, "atra");
    let overridden = prepare_multi_run(Config::default(), "r".to_string(), Some("s".to_string()), Some(3), Some(LogLevel::Warn), true, seeds);
    assert_eq!(overridden.mode, ApplicationMode::Multi(Some(3)));
    assert_eq!(overridden.config.system.log_level, LogLevel::Warn);
    assert!(overridden.config.system.log_to_file);
    assert_eq!(overridden.config.session.service, "s");
}

#[test]
fn recovering_never_switches_logging_to_a_file_off() {
    let mut config = Config::default();
    config.system.log_to_file = true;
    let r = prepare_recover_run(config, Some(1), false);
    assert!(r.config.system.log_to_file);
    assert!(r.recover_mode);
    assert!(r.seeds.is_none());
    assert_eq!(r.mode, ApplicationMode::Single);
    let r2 = prepare_recover_run(Config::default(), None, true);
    assert!(r2.config.system.log_to_file);
    assert_eq!(r2.mode, ApplicationMode::Multi(None));
}

#[test]
fn crawl_ids_join_time_and_random_text() {
    assert_eq!(crawl_id(0, "abcdefghijklmno"), "crawl-AAAAAAAAAAAAAAAAAAAAAA-abcdefghijklmno");
    assert_eq!(crawl_id(1_700_000_000_123_456_789, "x"), "crawl-AAAAAAAAAAAXl5z-PYXNFQ-x");
    let fresh = fresh_crawl_id();
    assert!(fresh.starts_with("crawl-"));
    assert_eq!(fresh.len(), "crawl-".len() + 22 + 1 + 15);
    assert!(fresh[fresh.len() - 15..].chars().all(|c| c.is_ascii_alphanumeric()));
}

#[test]
fn seed_arguments_name_a_file_or_an_url() {
    assert_eq!(seed_source("file:seeds.txt"), SeedSource::File("seeds.txt".to_string()));
    assert_eq!(seed_source("https://choosealicense.com"), SeedSource::Url("https://choosealicense.com".to_string()));
    assert_eq!(seed_source("file"), SeedSource::Url("file".to_string()));
    assert_eq!(seed_source("file:"), SeedSource::File("".to_string()));
}

#[test]
fn log_levels_are_named_in_any_case() {
    assert_eq!(LogLevel::from_name("trace"), Some(LogLevel::Trace));
    assert_eq!(LogLevel::from_name("Info"), Some(LogLevel::Info));
    assert_eq!(LogLevel::from_name("WARN"), Some(LogLevel::Warn));
    assert_eq!(LogLevel::from_name("off"), Some(LogLevel::Off));
    assert_eq!(LogLevel::from_name("verbose"), None);
    assert_eq!(LogLevel::Debug.name(), "DEBUG");
}
