use atra::blacklist::{
    create_managed_blacklist, Blacklist, BlacklistError, BlacklistType, EmptyBlackList,
    PolyBlackList, RegexBlackList,
};
use atra::blacklist_manager::{
    blacklist_file_header, interpret_line, BlacklistEntry, InMemoryBlacklistManager,
    InnerBlacklistManager,
};

#[test]
fn can_properly_update() {
    let (a, b) = create_managed_blacklist(PolyBlackList::default());

    assert!(!a.has_match_for("google.de"));
    b.update(PolyBlackList::new(1, &vec!["google\\.de".to_string()]).unwrap());
    assert!(a.has_match_for("google.de"));
}

#[test]
fn can_interpret_test_file() {
    let lines = vec![
        "# A list of Regex-Expressions and/or URLs to be filtered by this blacklist.".to_string(),
        "# Comments can be written by starting with a #.".to_string(),
        "".to_string(),
        "www.google.de".to_string(),
        "\\#.Ebay.com".to_string(),
    ];
    let interpreted: Vec<String> = lines.iter().filter_map(|line| interpret_line(line)).collect();
    let manager = InnerBlacklistManager::from_file_lines(interpreted);
    let values = manager.get_string_vec();
    assert_eq!(2, values.len());
    assert!(values.contains(&"www.google.de".into()));
    assert!(values.contains(&"#.Ebay.com".into()));
}

#[test]
fn lines_of_the_file_are_read_as_documented_in_its_header() {
    assert!(blacklist_file_header().starts_with("# A list of Regex-Expressions"));
    assert_eq!(interpret_line(""), None);
    assert_eq!(interpret_line("# comment"), None);
    assert_eq!(interpret_line("\\#not a comment"), Some("#not a comment".to_string()));
    assert_eq!(interpret_line("ebay\\.de"), Some("ebay\\.de".to_string()));
}

#[test]
fn adding_keeps_entries_unique_and_in_order() {
    let mut manager = InnerBlacklistManager::new_empty();
    assert!(manager.is_empty());
    assert_eq!(manager.add("Test1".to_string()), Ok(true));
    assert_eq!(manager.add("Test2".to_string()), Ok(true));
    assert_eq!(manager.add("Test1".to_string()), Ok(false));
    assert_eq!(manager.add("".to_string()), Err(BlacklistError::EmptyStringsNotAllowed));
    assert_eq!(manager.add("a\nb".to_string()), Err(BlacklistError::NewLinesNotAllowed));
    assert_eq!(manager.get_string_vec(), vec!["Test1".to_string(), "Test2".to_string()]);
    assert_eq!(manager.current_version(), 2);
    let entry = manager.get_entry(1);
    assert_eq!(entry.value, "Test2");
    assert!(!entry.on_file);
}

#[test]
fn error_messages_name_the_problem() {
    assert_eq!(BlacklistError::EmptyStringsNotAllowed.message(), "Tried to add an empty string to the queue");
    assert_eq!(
        BlacklistError::NewLinesNotAllowed.message(),
        "Tried to add something with a new line separator to the queue."
    );
}

#[test]
fn a_patch_gives_what_was_added_since_a_version() {
    let mut manager = InnerBlacklistManager::from_file_lines(vec!["a".to_string(), "b".to_string()]);
    assert_eq!(manager.get_patch(2), None);
    manager.add("c".to_string()).unwrap();
    manager.add("d".to_string()).unwrap();
    assert_eq!(manager.get_patch(2), Some(vec!["c".to_string(), "d".to_string()]));
    let mut other = InnerBlacklistManager::from_file_lines(vec!["a".to_string(), "b".to_string()]);
    assert!(other.apply_patch(manager.get_patch(2).unwrap()));
    assert_eq!(other.get_string_vec(), manager.get_string_vec());
    assert!(!other.apply_patch(vec!["a".to_string()]));
}

#[test]
fn unwritten_entries_are_taken_once() {
    let mut manager = InnerBlacklistManager::from_file_lines(vec!["on file".to_string()]);
    assert!(manager.take_unwritten().is_empty());
    manager.add("new1".to_string()).unwrap();
    manager.add("new2".to_string()).unwrap();
    assert_eq!(manager.take_unwritten(), vec!["new1".to_string(), "new2".to_string()]);
    assert!(manager.take_unwritten().is_empty());
    assert!(manager.get_entry(2).on_file);
}

#[test]
fn entries_know_whether_they_are_on_file() {
    let mut e = BlacklistEntry::new("x".to_string());
    assert!(!e.on_file);
    e.set_on_file_flag();
    assert!(e.on_file);
    assert!(BlacklistEntry::new_from_file("y".to_string()).on_file);
}

#[test]
fn blacklists_match_their_expressions() {
    let empty = EmptyBlackList::default();
    assert!(!empty.has_match_for("anything"));
    assert_eq!(empty.version(), 0);
    let regex = RegexBlackList::from_str("ebay\\.(de|com)").unwrap();
    assert!(regex.has_match_for("https://www.ebay.de/item"));
    assert!(!regex.has_match_for("https://www.amazon.de/"));
    assert_eq!(regex.version(), 0);
    assert!(RegexBlackList::from_str("(unclosed").is_err());
    assert!(!RegexBlackList::default().has_match_for("https://www.ebay.de"));
    let poly = PolyBlackList::new(4, &vec![]).unwrap();
    assert_eq!(poly.version(), 4);
    assert!(!poly.has_match_for("x"));
    assert!(PolyBlackList::new(5, &vec!["(".to_string()]).is_err());
}

#[test]
fn the_managed_blacklist_follows_the_entries() {
    let inner = InnerBlacklistManager::from_file_lines(vec!["amazon\\.de".to_string()]);
    let mut manager: InMemoryBlacklistManager<PolyBlackList> = InMemoryBlacklistManager::open(inner).unwrap();
    let shared = manager.get_blacklist();
    assert!(shared.has_match_for("www.amazon.de"));
    assert!(!shared.has_match_for("www.ebay.de"));
    assert_eq!(shared.version(), 1);
    assert_eq!(manager.add("ebay\\.de".to_string()), Ok(true));
    assert!(shared.has_match_for("www.ebay.de"));
    assert_eq!(shared.version(), 2);
    assert_eq!(manager.current_version(), 2);
    manager.apply_patch(vec!["google\\.de".to_string()]);
    assert!(shared.has_match_for("google.de"));
    assert!(!manager.patch());
    assert_eq!(manager.get_patch(1), Some(vec!["ebay\\.de".to_string(), "google\\.de".to_string()]));
    assert_eq!(manager.take_unwritten(), vec!["ebay\\.de".to_string(), "google\\.de".to_string()]);
}

#[test]
fn a_manager_over_a_broken_expression_does_not_open() {
    let inner = InnerBlacklistManager::from_file_lines(vec!["(".to_string()]);
    let opened: Result<InMemoryBlacklistManager<PolyBlackList>, _> = InMemoryBlacklistManager::open(inner);
    assert!(opened.is_err());
}

#[test]
fn added_entries_are_written_and_read_back() {
    let mut manager = InnerBlacklistManager::new_empty();
    for value in ["Test1", "Test2", "Test3", "Test4"] {
        assert_eq!(manager.add(value.to_string()), Ok(true));
    }
    let unwritten = manager.take_unwritten();
    assert_eq!(unwritten, vec!["Test1", "Test2", "Test3", "Test4"]);
    assert!(manager.take_unwritten().is_empty());
    let reopened = InnerBlacklistManager::from_file_lines(unwritten);
    assert_eq!(reopened.get_string_vec(), vec!["Test1", "Test2", "Test3", "Test4"]);
}
