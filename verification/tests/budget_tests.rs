use atra::budget::{
    BudgetSetting, BudgetSettingsDef, CrawlBudget, CrawlDuration, InMemoryBudgetManager,
};
use atra::depth::DepthDescriptor;
use atra::url::UrlWithDepth;

fn url(depth_on_website: u64, distance: u64, total: u64) -> UrlWithDepth {
    UrlWithDepth::new(
        "https://www.example.com/page".to_string(),
        DepthDescriptor::new(depth_on_website, distance, total),
    )
}

#[test]
fn default_budget_is_normal_with_fifteen_seconds_timeout() {
    let b = BudgetSetting::default();
    assert_eq!(
        b,
        BudgetSetting::Normal {
            depth_on_website: 20,
            depth: 3,
            recrawl_interval: None,
            request_timeout: Some(CrawlDuration::seconds(15)),
        }
    );
    assert_eq!(b.get_request_timeout(), Some(CrawlDuration::seconds(15)));
    assert_eq!(b.get_recrawl_interval(), None);
    assert_eq!(b.kind_name(), "Normal");
}

#[test]
fn the_kind_is_decided_by_the_fields_present() {
    let both = BudgetSettingsDef {
        depth_on_website: Some(2),
        depth: Some(1),
        recrawl_interval: None,
        request_timeout: None,
    };
    assert_eq!(
        BudgetSetting::try_from(both),
        Ok(BudgetSetting::Normal { depth_on_website: 2, depth: 1, recrawl_interval: None, request_timeout: None })
    );
    let only_depth = BudgetSettingsDef {
        depth_on_website: None,
        depth: Some(3),
        recrawl_interval: Some(CrawlDuration::seconds(360)),
        request_timeout: None,
    };
    let absolute = BudgetSetting::try_from(only_depth).unwrap();
    assert_eq!(absolute.kind_name(), "Absolute");
    assert_eq!(absolute.get_recrawl_interval(), Some(&CrawlDuration::seconds(360)));
    let only_site = BudgetSettingsDef {
        depth_on_website: Some(4),
        depth: None,
        recrawl_interval: None,
        request_timeout: None,
    };
    assert_eq!(BudgetSetting::try_from(only_site).unwrap().kind_name(), "SeedOnly");
    let none = BudgetSettingsDef { depth_on_website: None, depth: None, recrawl_interval: None, request_timeout: None };
    let err = BudgetSetting::try_from(none).unwrap_err();
    assert_eq!(err.message(), "The budget is missing any depth field. It needs at least one!");
}

#[test]
fn flattening_and_reading_back_round_trips() {
    let settings = [
        BudgetSetting::SeedOnly { depth_on_website: 5, recrawl_interval: None, request_timeout: Some(CrawlDuration::seconds(1)) },
        BudgetSetting::Normal { depth_on_website: 5, depth: 2, recrawl_interval: Some(CrawlDuration::seconds(7)), request_timeout: None },
        BudgetSetting::Absolute { depth: 9, recrawl_interval: None, request_timeout: None },
    ];
    for s in settings {
        let flat: BudgetSettingsDef = s.into();
        assert_eq!(BudgetSetting::try_from(flat), Ok(s));
    }
    let flat: BudgetSettingsDef = BudgetSetting::Absolute { depth: 9, recrawl_interval: None, request_timeout: None }.into();
    assert_eq!(flat.depth_on_website, None);
    assert_eq!(flat.depth, Some(9));
}

#[test]
fn seed_only_stays_on_the_seed() {
    let b = BudgetSetting::SeedOnly { depth_on_website: 3, recrawl_interval: None, request_timeout: None };
    assert!(b.is_in_budget(&url(2, 0, 5)));
    assert!(!b.is_in_budget(&url(3, 0, 5)));
    assert!(!b.is_in_budget(&url(0, 1, 1)));
    let unbounded = BudgetSetting::SeedOnly { depth_on_website: 0, recrawl_interval: None, request_timeout: None };
    assert!(unbounded.is_in_budget(&url(1000, 0, 1000)));
}

#[test]
fn normal_bounds_site_depth_and_distance() {
    let b = BudgetSetting::Normal { depth_on_website: 3, depth: 2, recrawl_interval: None, request_timeout: None };
    assert!(b.is_in_budget(&url(2, 2, 9)));
    assert!(!b.is_in_budget(&url(2, 3, 9)));
    assert!(!b.is_in_budget(&url(3, 0, 0)));
}

#[test]
fn absolute_bounds_the_total_distance_and_zero_is_unbounded() {
    let b = BudgetSetting::Absolute { depth: 2, recrawl_interval: None, request_timeout: None };
    assert!(b.is_in_budget(&url(50, 50, 1)));
    assert!(!b.is_in_budget(&url(0, 0, 2)));
    let unbounded = BudgetSetting::Absolute { depth: 0, recrawl_interval: None, request_timeout: None };
    assert!(unbounded.is_in_budget(&url(50, 50, 50)));
}

#[test]
fn durations_compare_by_length() {
    let a = CrawlDuration { seconds: 1, nanoseconds: 500 };
    let b = CrawlDuration { seconds: 2, nanoseconds: 0 };
    assert!(a.is_at_most(&b));
    assert!(!b.is_at_most(&a));
    assert!(a.is_at_most(&a));
}

#[test]
fn manager_gives_host_budgets_over_the_default() {
    let amazon = BudgetSetting::Absolute { depth: 2, recrawl_interval: None, request_timeout: None };
    let budget = CrawlBudget::new(
        BudgetSetting::default(),
        Some(vec![("amazon.com".to_string(), amazon)]),
    );
    let mut manager = InMemoryBudgetManager::create(&budget);
    assert_eq!(*manager.get_budget_for("amazon.com"), amazon);
    assert_eq!(*manager.get_budget_for("ebay.de"), BudgetSetting::default());
    assert_eq!(*manager.get_default_budget(), BudgetSetting::default());

    let ebay = BudgetSetting::SeedOnly { depth_on_website: 1, recrawl_interval: None, request_timeout: None };
    manager.set_budget("ebay.de".to_string(), ebay);
    assert_eq!(*manager.get_budget_for("ebay.de"), ebay);
    manager.set_default_budget(amazon);
    assert_eq!(*manager.get_budget_for("other.org"), amazon);

    let export = manager.get_export();
    assert_eq!(export.default, amazon);
    let hosts = export.per_host.unwrap();
    assert_eq!(hosts.len(), 2);
    assert_eq!(hosts[0], ("amazon.com".to_string(), amazon));
    assert_eq!(hosts[1], ("ebay.de".to_string(), ebay));
}

#[test]
fn the_last_budget_set_for_a_host_wins() {
    let first = BudgetSetting::Absolute { depth: 1, recrawl_interval: None, request_timeout: None };
    let second = BudgetSetting::Absolute { depth: 7, recrawl_interval: None, request_timeout: None };
    let budget = CrawlBudget::new(
        BudgetSetting::default(),
        Some(vec![("a.de".to_string(), first), ("a.de".to_string(), second)]),
    );
    let manager = InMemoryBudgetManager::from_crawl_budget(budget);
    assert_eq!(*manager.get_budget_for("a.de"), second);
    let mut other = InMemoryBudgetManager::create(&CrawlBudget::default());
    other.import(&CrawlBudget::new(first, None));
    assert_eq!(*other.get_default_budget(), first);
}

#[test]
fn a_budget_without_a_timeout_waits_fifteen_seconds() {
    assert_eq!(atra::budget::default_request_timeout(), Some(CrawlDuration::seconds(15)));
}
